//! Règles du service des activités : nom obligatoire, inscription unique
//! par rôle, capacité des participants.
use vstd::prelude::*;

use crate::domaine::activite::{
    message_capacite, place_disponible, texte_role, verifier_capacite_max, Activite, LiaisonActivitePersonne, Role,
};
use crate::erreur::AppError;
use crate::texte::{ajouter_texte, copie, rogne, rogner};

verus! {

/// Le nom d'une activité, sans les blancs autour, ne peut pas être vide.
pub fn valider_nom_activite(nom: &str) -> (r: Result<(), AppError>)
    ensures
        rogne(nom@).len() > 0 ==> r is Ok,
        rogne(nom@).len() == 0 ==> (r matches Err(AppError::Validation(m)) && m@
            == "Le nom de l'activité est requis"@),
{
    let t = rogner(nom);
    if t.as_str().is_empty() {
        return Err(AppError::Validation(copie("Le nom de l'activité est requis")));
    }
    Ok(())
}

pub open spec fn message_autre_role(existant: Role, demande: Role) -> Seq<char> {
    "Cette personne est déjà "@ + texte_role(existant)
        + " pour cette activité, elle ne peut pas être "@ + texte_role(demande)
}

/// Une personne n'est inscrite qu'une fois à une activité pour une année,
/// sous un seul rôle.
pub fn verifier_liaison_existante(
    existante: Option<&LiaisonActivitePersonne>,
    role: Role,
) -> (r: Result<(), AppError>)
    ensures
        match existante {
            None => r is Ok,
            Some(l) => if l.role == role {
                r matches Err(AppError::Conflict(m)) && m@
                    == "Cette personne est déjà inscrite à cette activité avec ce rôle"@
            } else {
                r matches Err(AppError::Conflict(m)) && m@ == message_autre_role(l.role, role)
            },
        },
{
    match existante {
        None => Ok(()),
        Some(l) => {
            if l.role == role {
                Err(
                    AppError::Conflict(
                        copie("Cette personne est déjà inscrite à cette activité avec ce rôle"),
                    ),
                )
            } else {
                let mut m = String::new();
                ajouter_texte(&mut m, "Cette personne est déjà ");
                ajouter_texte(&mut m, l.role.texte());
                ajouter_texte(&mut m, " pour cette activité, elle ne peut pas être ");
                ajouter_texte(&mut m, role.texte());
                Err(AppError::Conflict(m))
            }
        },
    }
}

/// Seuls les participants comptent dans la capacité.
pub fn capacite_a_verifier(role: Role) -> (r: bool)
    ensures
        r == (role == Role::Participant),
{
    role == Role::Participant
}

/// Capacité d'une activité (qui doit exister) pour un participant de plus.
pub fn verifier_capacite(activite: Option<&Activite>, nb_participants: i64) -> (r: Result<(), AppError>)
    ensures
        match activite {
            None => r matches Err(AppError::NotFound(m)) && m@ == "Activité introuvable"@,
            Some(a) => if place_disponible(nb_participants as int, a.capacite_max) {
                r is Ok
            } else {
                r matches Err(AppError::Validation(m)) && m@ == message_capacite(
                    nb_participants as int,
                    a.capacite_max.unwrap() as int,
                )
            },
        },
{
    match activite {
        None => Err(AppError::NotFound(copie("Activité introuvable"))),
        Some(a) => match verifier_capacite_max(nb_participants, a.capacite_max) {
            Ok(()) => Ok(()),
            Err(m) => Err(AppError::Validation(m)),
        },
    }
}

} // verus!
