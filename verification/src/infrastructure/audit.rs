//! Traçabilité des écritures : auteur obligatoire, conflit de version.
use vstd::prelude::*;

use crate::erreur::AppError;
use crate::texte::{copie, lemme_rogne_idempotent, rogne, rogner};

verus! {

/// Message d'un conflit de version (fiche modifiée par un autre utilisateur).
pub const MESSAGE_CONFLIT: &'static str = "Fiche modifiée entre-temps, rechargez-la";

/// Le nom de l'auteur d'une écriture, sans blancs autour, est obligatoire.
pub fn verifier_utilisateur(utilisateur: &str) -> (r: Result<String, AppError>)
    ensures
        rogne(utilisateur@).len() > 0 ==> (r matches Ok(u) && u@ == rogne(utilisateur@)),
        rogne(utilisateur@).len() == 0 ==> (r matches Err(AppError::Validation(m))
            && m@ == "Le nom d'utilisateur est requis pour cette écriture"@),
{
    let u = rogner(utilisateur);
    if u.as_str().is_empty() {
        return Err(
            AppError::Validation(copie("Le nom d'utilisateur est requis pour cette écriture")),
        );
    }
    Ok(u)
}

/// Un nom d'auteur accepté, présenté de nouveau, est accepté tel quel.
pub proof fn loi_utilisateur_stable(utilisateur: Seq<char>)
    requires
        rogne(utilisateur).len() > 0,
    ensures
        rogne(rogne(utilisateur)).len() > 0,
        rogne(rogne(utilisateur)) == rogne(utilisateur),
{
    lemme_rogne_idempotent(utilisateur);
}

} // verus!
