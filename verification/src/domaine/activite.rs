//! Activités, rôles des personnes inscrites et capacité maximale.
use vstd::prelude::*;

use crate::erreur::AppError;
use crate::texte::{
    ajouter_texte, caracteres, decimal_signe, ecrire_entier, egal, rogne, rogner,
};

verus! {

/// Rôle d'une personne dans une activité.
#[derive(PartialEq, Eq, Structural, Clone, Copy, Debug)]
pub enum Role {
    Encadrant,
    Participant,
}

pub open spec fn texte_role(r: Role) -> Seq<char> {
    match r {
        Role::Encadrant => "encadrant"@,
        Role::Participant => "participant"@,
    }
}

impl Role {
    /// Forme textuelle du rôle (celle de l'affichage et de la base).
    pub fn texte(&self) -> (r: &'static str)
        ensures
            r@ == texte_role(*self),
    {
        match self {
            Role::Encadrant => "encadrant",
            Role::Participant => "participant",
        }
    }
}

pub open spec fn role_de_texte(s: Seq<char>) -> Option<Role> {
    if s == "encadrant"@ {
        Some(Role::Encadrant)
    } else if s == "participant"@ {
        Some(Role::Participant)
    } else {
        None
    }
}

/// Lecture d'un rôle depuis sa forme textuelle (minuscules exactes).
pub fn role_from_str(s: &str) -> (r: Result<Role, String>)
    ensures
        match role_de_texte(s@) {
            Some(role) => r == Ok::<Role, String>(role),
            None => r matches Err(m) && m@ == "Rôle inconnu : "@ + s@,
        },
{
    if egal(s, "encadrant") {
        Ok(Role::Encadrant)
    } else if egal(s, "participant") {
        Ok(Role::Participant)
    } else {
        let mut m = String::new();
        ajouter_texte(&mut m, "Rôle inconnu : ");
        ajouter_texte(&mut m, s);
        Err(m)
    }
}

pub struct Activite {
    pub id: i64,
    pub nom: String,
    pub description: Option<String>,
    pub capacite_max: Option<i64>,
}

pub struct UpdateActivite {
    pub nom: String,
    pub description: Option<String>,
    pub capacite_max: Option<i64>,
}

pub struct LiaisonActivitePersonne {
    pub activite_id: i64,
    pub personne_id: i64,
    pub annee_scolaire: String,
    pub role: Role,
}

pub struct CreateLiaisonActivitePersonne {
    pub activite_id: i64,
    pub personne_id: i64,
    pub annee_scolaire: String,
    pub role: Role,
}

pub struct PersonneActivite {
    pub id: i64,
    pub nom: String,
    pub prenom: String,
}

pub struct ActivitePersonne {
    pub activite: Activite,
    pub role: Role,
}

pub open spec fn message_capacite(nb: int, capacite: int) -> Seq<char> {
    "Capacité maximale atteinte ("@ + decimal_signe(nb) + "/"@ + decimal_signe(capacite) + ")"@
}

/// Il reste une place : pas de capacité, ou moins de participants qu'elle.
pub open spec fn place_disponible(nb: int, capacite_max: Option<i64>) -> bool {
    match capacite_max {
        None => true,
        Some(c) => nb < c,
    }
}

/// Refuse une inscription quand le nombre de participants atteint la capacité.
pub fn verifier_capacite_max(nb_participants: i64, capacite_max: Option<i64>) -> (r: Result<
    (),
    String,
>)
    ensures
        r is Ok <==> place_disponible(nb_participants as int, capacite_max),
        r matches Err(m) ==> m@ == message_capacite(
            nb_participants as int,
            capacite_max.unwrap() as int,
        ),
{
    if let Some(capacite) = capacite_max {
        if nb_participants >= capacite {
            let mut m = String::new();
            ajouter_texte(&mut m, "Capacité maximale atteinte (");
            ecrire_entier(&mut m, nb_participants);
            ajouter_texte(&mut m, "/");
            ecrire_entier(&mut m, capacite);
            ajouter_texte(&mut m, ")");
            return Err(m);
        }
    }
    Ok(())
}

/// Une activité pleine le reste quand le nombre de participants augmente ;
/// une inscription acceptée l'est aussi avec moins de participants.
pub proof fn loi_capacite_monotone(nb: int, plus: int, capacite_max: Option<i64>)
    requires
        nb <= plus,
    ensures
        !place_disponible(nb, capacite_max) ==> !place_disponible(plus, capacite_max),
        place_disponible(plus, capacite_max) ==> place_disponible(nb, capacite_max),
{
}

} // verus!
