//! Nouvelle tentative d'une requête après la perte du flux Hrana (« stream
//! not found ») d'une base libsql distante.
use vstd::prelude::*;

use crate::erreur::{texte_erreur, AppError};
use crate::texte::{contient, contient_texte, en_minuscules, minuscules};

verus! {

/// Erreur serveur « stream not found » : le flux Hrana a expiré ou a été
/// fermé (curseur abandonné).
pub open spec fn stream_perdu(msg: Seq<char>) -> bool {
    contient(minuscules(msg), "stream not found"@) || contient(
        minuscules(msg),
        "stream_not_found"@,
    )
}

pub fn est_stream_perdu(msg: &str) -> (r: bool)
    ensures
        r == stream_perdu(msg@),
{
    let m = en_minuscules(msg);
    contient_texte(m.as_str(), "stream not found") || contient_texte(m.as_str(), "stream_not_found")
}

/// Politique de nouvelle tentative propre à Hrana : au plus `max_retries`
/// tentatives supplémentaires, seulement sur perte du flux.
pub struct HranaRetryPolicy {
    max_retries: u32,
}

impl View for HranaRetryPolicy {
    type V = nat;

    /// Nombre maximal de nouvelles tentatives.
    closed spec fn view(&self) -> nat {
        self.max_retries as nat
    }
}

/// Décision après une tentative numérotée `tentative` (0 pour la première) :
/// `Some(tentative + 1)` pour recommencer, `None` pour rendre le résultat.
pub open spec fn decision(max: nat, tentative: nat, erreur: Option<AppError>) -> Option<nat> {
    match erreur {
        Some(e) => if stream_perdu(texte_erreur(e)) && tentative < max {
            Some(tentative + 1)
        } else {
            None
        },
        None => None,
    }
}

impl HranaRetryPolicy {
    pub fn new(max_retries: u32) -> (r: Self)
        ensures
            r@ == max_retries as nat,
    {
        Self { max_retries }
    }

    /// La politique s'applique-t-elle à ce message d'erreur ?
    pub fn matches(msg: &str) -> (r: bool)
        ensures
            r == stream_perdu(msg@),
    {
        est_stream_perdu(msg)
    }

    /// Après la tentative `tentative` : recommencer sur perte du flux tant
    /// qu'il reste des tentatives, sinon rendre le résultat (succès ou erreur).
    pub fn apres_tentative(&self, tentative: u32, erreur: Option<&AppError>) -> (r: Option<u32>)
        ensures
            match decision(self@, tentative as nat, match erreur { Some(e) => Some(*e), None => None }) {
                Some(t) => r == Some(t as u32),
                None => r is None,
            },
            r matches Some(t) ==> t <= self@,
    {
        match erreur {
            None => None,
            Some(e) => {
                let texte = e.message();
                if Self::matches(texte.as_str()) && tentative < self.max_retries {
                    Some(tentative + 1)
                } else {
                    None
                }
            },
        }
    }
}

/// Une suite de décisions partie de la première tentative ne recommence
/// jamais plus de `max` fois : le numéro de tentative ne dépasse pas `max`.
pub proof fn loi_tentatives_bornees(max: nat, tentative: nat, erreur: Option<AppError>)
    requires
        tentative <= max,
    ensures
        decision(max, tentative, erreur) matches Some(t) ==> t <= max && t == tentative + 1,
{
}

} // verus!
