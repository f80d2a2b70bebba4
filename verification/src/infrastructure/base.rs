//! Lignes génériques lues en base.
use vstd::prelude::*;

verus! {

/// Identifiant renvoyé par une insertion.
pub struct IdRow {
    pub id: i64,
}

} // verus!
