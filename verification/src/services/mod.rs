pub mod activite;
pub mod parametre;
pub mod planning;
