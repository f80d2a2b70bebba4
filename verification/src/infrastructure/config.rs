//! Configuration de connexion : base locale (mono-utilisateur) ou distante
//! (multi-utilisateurs).
use vstd::prelude::*;

use crate::erreur::AppError;
use crate::texte::copie;

verus! {

/// Nom du fichier de configuration dans le dossier de données.
pub const FICHIER_CONFIG: &'static str = "cadence_config.json";

#[derive(PartialEq, Eq, Structural, Clone, Copy, Debug)]
pub enum ModeConnexion {
    Mono,
    Multi,
}

pub struct ConnexionConfig {
    pub mode: ModeConnexion,
    pub url: Option<String>,
    pub token: Option<String>,
    pub utilisateur: String,
}

impl Default for ConnexionConfig {
    /// Base locale, sans URL ni clé, utilisateur vide.
    fn default() -> (r: ConnexionConfig)
        ensures
            r.mode == ModeConnexion::Mono,
            r.url is None,
            r.token is None,
            r.utilisateur@ == Seq::<char>::empty(),
    {
        ConnexionConfig {
            mode: ModeConnexion::Mono,
            url: None,
            token: None,
            utilisateur: String::new(),
        }
    }
}

/// Nom du fichier de la base locale dans le dossier de données.
pub const FICHIER_BASE: &'static str = "cadence.db";

/// Base à ouvrir : le fichier local, ou la base distante à son URL avec sa clé.
pub enum CibleBase {
    Locale,
    Distante { url: String, token: String },
}

/// Base à ouvrir selon la configuration. En mode multi, l'URL puis la clé
/// sont exigées, dans cet ordre.
pub fn cible_connexion(config: &ConnexionConfig) -> (r: Result<CibleBase, AppError>)
    ensures
        match config.mode {
            ModeConnexion::Mono => r matches Ok(CibleBase::Locale),
            ModeConnexion::Multi => match (config.url, config.token) {
                (Some(u), Some(t)) => r matches Ok(CibleBase::Distante { url, token }) && url@
                    == u@ && token@ == t@,
                (None, _) => r matches Err(AppError::Validation(m)) && m@
                    == "L'URL de la base distante est requise en mode multi"@,
                (Some(_), None) => r matches Err(AppError::Validation(m)) && m@
                    == "La clé d'accès est requise en mode multi"@,
            },
        },
{
    match config.mode {
        ModeConnexion::Mono => Ok(CibleBase::Locale),
        ModeConnexion::Multi => {
            let url = match &config.url {
                Some(u) => copie(u.as_str()),
                None => {
                    return Err(
                        AppError::Validation(
                            copie("L'URL de la base distante est requise en mode multi"),
                        ),
                    );
                },
            };
            let token = match &config.token {
                Some(t) => copie(t.as_str()),
                None => {
                    return Err(
                        AppError::Validation(copie("La clé d'accès est requise en mode multi")),
                    );
                },
            };
            Ok(CibleBase::Distante { url, token })
        },
    }
}

/// `std::path::Path`, transmis tel quel, sans que son contenu soit lu.
#[verifier::external_type_specification]
#[verifier::external_body]
pub struct ExChemin(std::path::Path);

/// `std::path::PathBuf`, transmis tel quel, sans que son contenu soit lu.
#[verifier::external_type_specification]
#[verifier::external_body]
pub struct ExCheminPossede(std::path::PathBuf);

/// Chemin que rend `std::path::Path::join` pour un dossier et un nom : une
/// fonction de ces deux arguments seuls.
pub uninterp spec fn chemin_joint(dossier: &std::path::Path, nom: Seq<char>) -> std::path::PathBuf;

/// Chemin `dossier/nom` par `std::path::Path::join`.
///
/// Le contrat nomme le résultat (`chemin_joint`) : le même dossier et le même
/// nom donnent le même chemin. Un chemin n'ayant pas ici de vue, rien n'est
/// affirmé de sa forme.
#[verifier::external_body]
fn joindre_chemin(dossier: &std::path::Path, nom: &str) -> (r: std::path::PathBuf)
    ensures
        r == chemin_joint(dossier, nom@),
{
    dossier.join(nom)
}

/// Chemin du fichier de configuration dans le dossier de données : le dossier
/// joint au nom `cadence_config.json`.
pub fn config_path(app_dir: &std::path::Path) -> (r: std::path::PathBuf)
    ensures
        r == chemin_joint(app_dir, FICHIER_CONFIG@),
{
    joindre_chemin(app_dir, FICHIER_CONFIG)
}

} // verus!
