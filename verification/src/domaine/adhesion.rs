//! Adhésions annuelles des personnes, par année scolaire.
use vstd::prelude::*;

use crate::texte::egal;

verus! {

pub struct Adhesion {
    pub id: i64,
    pub personne_id: i64,
    pub annee_scolaire: String,
    pub reglee: bool,
    pub note_paiement: Option<String>,
}

pub struct CreateAdhesion {
    pub personne_id: i64,
    pub annee_scolaire: String,
    pub reglee: bool,
    pub note_paiement: Option<String>,
}

pub struct UpdateAdhesion {
    pub reglee: bool,
    pub note_paiement: Option<String>,
}

/// Une des adhésions porte sur l'année scolaire donnée.
pub open spec fn adhere_pour(adhesions: Seq<Adhesion>, annee: Seq<char>) -> bool {
    exists|i: int| 0 <= i < adhesions.len() && (#[trigger] adhesions[i]).annee_scolaire@ == annee
}

/// La personne a-t-elle une adhésion pour l'année scolaire donnée ?
pub fn a_adhesion_pour_annee(adhesions: &[Adhesion], annee: &str) -> (r: bool)
    ensures
        r == adhere_pour(adhesions@, annee@),
{
    let mut i: usize = 0;
    while i < adhesions.len()
        invariant
            i <= adhesions@.len(),
            forall|j: int| 0 <= j < i ==> (#[trigger] adhesions@[j]).annee_scolaire@ != annee@,
        decreases adhesions.len() - i,
    {
        if egal(adhesions[i].annee_scolaire.as_str(), annee) {
            assert(adhesions@[i as int].annee_scolaire@ == annee@);
            return true;
        }
        i = i + 1;
    }
    false
}

} // verus!
