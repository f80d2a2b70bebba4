//! Lignes lues pour les activités.
use vstd::prelude::*;

use crate::domaine::activite::{Activite, ActivitePersonne, Role};

verus! {

pub struct CompteurRow {
    pub count: i64,
}

pub struct ActivitePersonneRow {
    pub id: i64,
    pub nom: String,
    pub description: Option<String>,
    pub capacite_max: Option<i64>,
    pub version: i64,
    pub role: Role,
}

impl ActivitePersonneRow {
    /// L'activité et le rôle de la personne, lus d'une ligne.
    pub fn en_activite_personne(self) -> (r: ActivitePersonne)
        ensures
            r.activite == (Activite {
                id: self.id,
                nom: self.nom,
                description: self.description,
                capacite_max: self.capacite_max,
            }),
            r.role == self.role,
    {
        ActivitePersonne {
            activite: Activite {
                id: self.id,
                nom: self.nom,
                description: self.description,
                capacite_max: self.capacite_max,
            },
            role: self.role,
        }
    }
}

pub struct AnneeRow {
    pub annee_scolaire: String,
}

} // verus!
