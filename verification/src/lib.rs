//! Cadence : règles métier de la gestion des adhérents et des activités d'une
//! association (validation des horaires, plages d'ouverture, déplacement des
//! créneaux, capacité des activités, recherche de personnes, configuration de
//! connexion et suivi des migrations).
use vstd::prelude::*;

pub mod depots;
pub mod domaine;
pub mod erreur;
pub mod infrastructure;
pub mod services;
pub mod texte;

verus! {

} // verus!
