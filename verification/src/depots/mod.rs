pub mod lignes;
pub mod recherche;
