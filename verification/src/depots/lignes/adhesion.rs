//! Lignes lues pour les adhésions.
use vstd::prelude::*;

verus! {

pub struct IdRow {
    pub id: i64,
}

} // verus!
