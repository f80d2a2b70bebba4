pub mod activite;
pub mod adhesion;
pub mod calendrier;
pub mod parametre;
pub mod personne;
pub mod planning;
