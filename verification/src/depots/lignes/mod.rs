pub mod activite;
pub mod adhesion;
pub mod personne;
pub mod planning;

use vstd::prelude::*;

use crate::domaine::activite::{role_de_texte, role_from_str, Role};
use crate::erreur::AppError;

verus! {

/// Rôle lu dans une colonne : un texte inconnu est une erreur de la base.
pub fn role_depuis_colonne(s: &str) -> (r: Result<Role, AppError>)
    ensures
        match role_de_texte(s@) {
            Some(role) => r == Ok::<Role, AppError>(role),
            None => r matches Err(AppError::Database(m)) && m@ == "Rôle inconnu : "@ + s@,
        },
{
    match role_from_str(s) {
        Ok(role) => Ok(role),
        Err(m) => Err(AppError::Database(m)),
    }
}

} // verus!
