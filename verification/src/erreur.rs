//! Erreurs de l'application, classées par nature.
use vstd::prelude::*;

use crate::texte::copie;

verus! {

/// Erreur rendue par les opérations : ressource absente, saisie invalide,
/// conflit avec l'état existant, ou échec de la base.
pub enum AppError {
    NotFound(String),
    Validation(String),
    Conflict(String),
    Database(String),
}

/// Texte d'une erreur.
pub open spec fn texte_erreur(e: AppError) -> Seq<char> {
    match e {
        AppError::NotFound(m) => m@,
        AppError::Validation(m) => m@,
        AppError::Conflict(m) => m@,
        AppError::Database(m) => m@,
    }
}

impl AppError {
    /// Message affiché de l'erreur : son texte seul.
    pub fn message(&self) -> (r: String)
        ensures
            r@ == texte_erreur(*self),
    {
        match self {
            AppError::NotFound(m) => copie(m.as_str()),
            AppError::Validation(m) => copie(m.as_str()),
            AppError::Conflict(m) => copie(m.as_str()),
            AppError::Database(m) => copie(m.as_str()),
        }
    }
}

impl From<String> for AppError {
    /// Un texte seul est une erreur de validation.
    fn from(s: String) -> (r: AppError) {
        AppError::Validation(s)
    }
}

impl vstd::std_specs::convert::FromSpecImpl<String> for AppError {
    open spec fn obeys_from_spec() -> bool {
        true
    }

    open spec fn from_spec(s: String) -> AppError {
        AppError::Validation(s)
    }
}

} // verus!
