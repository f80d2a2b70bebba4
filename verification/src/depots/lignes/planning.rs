//! Lignes lues pour le planning.
use vstd::prelude::*;

use crate::domaine::activite::{texte_role, Activite, Role};
use crate::domaine::planning::{CreneauActivite, PlanningCreneau};
use crate::texte::copie;

verus! {

pub struct CompteurRow {
    pub count: i64,
}

pub struct AutreActiviteRow {
    pub activite_id: i64,
}

pub struct NomActiviteRow {
    pub nom: String,
}

pub struct IdRow {
    pub id: i64,
}

pub struct ActiviteCreneauRow {
    pub activite_id: i64,
    pub nom: String,
    pub description: Option<String>,
    pub capacite_max: Option<i64>,
    pub activite_version: i64,
    pub creneau_id: i64,
    pub jour_semaine: i64,
    pub heure_debut: String,
    pub heure_fin: String,
    pub annee_scolaire: String,
    pub creneau_version: i64,
    pub role: Role,
}

impl ActiviteCreneauRow {
    /// Le créneau, son activité et le rôle de la personne, lus d'une ligne
    /// du planning hebdomadaire.
    pub fn en_planning(self) -> (r: PlanningCreneau)
        ensures
            r.creneau == (CreneauActivite {
                id: self.creneau_id,
                activite_id: self.activite_id,
                jour_semaine: self.jour_semaine,
                heure_debut: self.heure_debut,
                heure_fin: self.heure_fin,
                annee_scolaire: self.annee_scolaire,
            }),
            r.activite == (Activite {
                id: self.activite_id,
                nom: self.nom,
                description: self.description,
                capacite_max: self.capacite_max,
            }),
            r.role@ == texte_role(self.role),
    {
        let role = copie(self.role.texte());
        PlanningCreneau {
            creneau: CreneauActivite {
                id: self.creneau_id,
                activite_id: self.activite_id,
                jour_semaine: self.jour_semaine,
                heure_debut: self.heure_debut,
                heure_fin: self.heure_fin,
                annee_scolaire: self.annee_scolaire,
            },
            activite: Activite {
                id: self.activite_id,
                nom: self.nom,
                description: self.description,
                capacite_max: self.capacite_max,
            },
            role,
        }
    }
}

} // verus!
