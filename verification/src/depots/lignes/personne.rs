//! Lignes lues pour les personnes.
use vstd::prelude::*;

verus! {

pub struct TotalRow {
    pub count: i64,
}

} // verus!
