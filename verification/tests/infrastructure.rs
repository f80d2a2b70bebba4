use cadence::erreur::AppError;
use cadence::infrastructure::audit::verifier_utilisateur;
use cadence::infrastructure::compat::{evaluer_compatibilite, noms_migrations, version_app};
use cadence::infrastructure::config::{ConnexionConfig, ModeConnexion};
use cadence::infrastructure::connexion::{
    appliquer_config, normaliser_url, preparer_config, preparer_test_connexion,
    vers_config_affichee,
};
use cadence::infrastructure::retry::HranaRetryPolicy;

#[test]
fn test_normaliser_url_turso() {
    assert_eq!(normaliser_url("turso://base.turso.io".to_string()), "libsql://base.turso.io");
    assert_eq!(normaliser_url("libsql://base.turso.io".to_string()), "libsql://base.turso.io");
    assert_eq!(normaliser_url("".to_string()), "");
}

#[test]
fn detecte_stream_not_found() {
    assert!(HranaRetryPolicy::matches(
        "Hrana: `api error: `status=404 Not Found, body={\"error\":\"stream not found: 4712e6b3:25d2\"}`"
    ));
    assert!(HranaRetryPolicy::matches("STREAM_NOT_FOUND"));
    assert!(HranaRetryPolicy::matches("stream_not_found"));
}

#[test]
fn ignore_les_autres_erreurs() {
    assert!(!HranaRetryPolicy::matches("no such table: foo"));
    assert!(!HranaRetryPolicy::matches("database is locked"));
    assert!(!HranaRetryPolicy::matches(""));
}

#[test]
fn version_app_non_vide() {
    assert!(!version_app().is_empty());
}

fn erreur(m: &str) -> AppError {
    AppError::Database(m.to_string())
}

#[test]
fn retry_retente_puis_abandonne() {
    let p = HranaRetryPolicy::new(2);
    let e = erreur("stream_not_found");
    assert_eq!(p.apres_tentative(0, Some(&e)), Some(1));
    assert_eq!(p.apres_tentative(1, Some(&e)), Some(2));
    assert_eq!(p.apres_tentative(2, Some(&e)), None);
    assert_eq!(p.apres_tentative(0, None), None);
    assert_eq!(p.apres_tentative(0, Some(&erreur("no such table"))), None);
}

#[test]
fn verifier_utilisateur_rogne() {
    assert_eq!(verifier_utilisateur("  Jean ").ok(), Some("Jean".to_string()));
    match verifier_utilisateur(" \t\u{a0} ") {
        Err(AppError::Validation(m)) => {
            assert_eq!(m, "Le nom d'utilisateur est requis pour cette écriture")
        }
        _ => panic!("refus attendu"),
    }
}

#[test]
fn base_vierge_compatible() {
    let connus = noms_migrations();
    let c = evaluer_compatibilite(Err(erreur("SQLite failure: No such table: _cadence_migrations")), &connus)
        .ok()
        .expect("compatible");
    assert!(c.compatible);
    assert!(c.migrations_inconnues.is_empty());
    assert_eq!(c.version_installee, version_app());
}

#[test]
fn autre_erreur_rendue() {
    let connus = noms_migrations();
    match evaluer_compatibilite(Err(erreur("database is locked")), &connus) {
        Err(AppError::Database(m)) => assert_eq!(m, "database is locked"),
        _ => panic!("erreur attendue"),
    }
}

#[test]
fn migrations_connues_compatibles() {
    let connus = noms_migrations();
    let noms: Vec<String> = connus.iter().map(|s| s.to_string()).collect();
    let c = evaluer_compatibilite(Ok(noms), &connus).ok().unwrap();
    assert!(c.compatible);
    assert!(c.migrations_inconnues.is_empty());
}

#[test]
fn migration_inconnue_incompatible() {
    let connus = noms_migrations();
    let noms = vec![
        "20260630000001_create_personnes_physiques.sql".to_string(),
        "99999999999999_futur.sql".to_string(),
    ];
    let c = evaluer_compatibilite(Ok(noms), &connus).ok().unwrap();
    assert!(!c.compatible);
    assert_eq!(c.migrations_inconnues, vec!["99999999999999_futur.sql".to_string()]);
    assert_eq!(c.version_installee, version_app());
}

fn config(mode: ModeConnexion, url: Option<&str>, token: Option<&str>, u: &str) -> ConnexionConfig {
    ConnexionConfig {
        mode,
        url: url.map(|s| s.to_string()),
        token: token.map(|s| s.to_string()),
        utilisateur: u.to_string(),
    }
}

fn texte(r: Result<(Option<String>, String), AppError>) -> String {
    match r {
        Err(e) => e.message(),
        Ok(_) => panic!("refus attendu"),
    }
}

#[test]
fn test_sauvegarder_config_sans_utilisateur_refusee() {
    let err = texte(preparer_config(ModeConnexion::Mono, None, "   ".to_string()));
    assert!(err.contains("utilisateur"));
}

#[test]
fn test_sauvegarder_config_multi_sans_url_refusee() {
    let err = texte(preparer_config(
        ModeConnexion::Multi,
        Some("   ".to_string()),
        "Marie".to_string(),
    ));
    assert!(err.contains("URL"));
}

#[test]
fn test_sauvegarder_config_mono_sans_redemarrage() {
    let (url, u) = preparer_config(ModeConnexion::Mono, None, "Jean".to_string()).ok().unwrap();
    let (c, r) = appliquer_config(None, ModeConnexion::Mono, url, None, u);
    assert!(!r.redemarrage_requis);
    assert_eq!(r.config.mode, Some(ModeConnexion::Mono));
    assert_eq!(r.config.utilisateur.as_deref(), Some("Jean"));

    let (url, u) = preparer_config(ModeConnexion::Mono, None, "Jean-Paul".to_string()).ok().unwrap();
    let (_, r) = appliquer_config(Some(&c), ModeConnexion::Mono, url, None, u);
    assert!(!r.redemarrage_requis);
    assert_eq!(r.config.utilisateur.as_deref(), Some("Jean-Paul"));
}

#[test]
fn test_sauvegarder_config_multi_avec_url_ok_et_cle_conservee() {
    let (url, u) = preparer_config(
        ModeConnexion::Multi,
        Some("https://exemple.turso.io".to_string()),
        "Marie".to_string(),
    )
    .ok()
    .unwrap();
    let (c, r) = appliquer_config(None, ModeConnexion::Multi, url, Some("secret".to_string()), u);
    assert!(r.redemarrage_requis);
    assert_eq!(r.config.mode, Some(ModeConnexion::Multi));
    assert_eq!(r.config.url.as_deref(), Some("https://exemple.turso.io"));
    assert!(r.config.a_une_cle);

    let (url, u) = preparer_config(
        ModeConnexion::Multi,
        Some("https://exemple.turso.io".to_string()),
        "Marie-Anne".to_string(),
    )
    .ok()
    .unwrap();
    let (c2, r) = appliquer_config(Some(&c), ModeConnexion::Multi, url, None, u);
    assert!(!r.redemarrage_requis);
    assert!(r.config.a_une_cle);
    assert_eq!(r.config.utilisateur.as_deref(), Some("Marie-Anne"));
    assert_eq!(c2.token.as_deref(), Some("secret"));
}

#[test]
fn test_changement_de_mode_redemarrage_requis() {
    let avant = config(ModeConnexion::Mono, None, None, "Jean");
    let (url, u) = preparer_config(
        ModeConnexion::Multi,
        Some("https://exemple.turso.io".to_string()),
        "Jean".to_string(),
    )
    .ok()
    .unwrap();
    let (_, r) = appliquer_config(Some(&avant), ModeConnexion::Multi, url, Some("secret".to_string()), u);
    assert!(r.redemarrage_requis);
}

#[test]
fn test_obtenir_config_absente() {
    let a = vers_config_affichee(None);
    assert!(!a.configuree);
    assert!(!a.a_une_cle);
}

#[test]
fn test_obtenir_config_ne_renvoie_pas_la_cle() {
    let c = config(ModeConnexion::Multi, Some("https://exemple.turso.io"), Some("secret"), "Marie");
    let a = vers_config_affichee(Some(&c));
    assert!(a.configuree);
    assert!(a.a_une_cle);
    assert_eq!(a.mode, Some(ModeConnexion::Multi));
}

#[test]
fn url_turso_normalisee_a_la_saisie() {
    let (url, _) = preparer_config(
        ModeConnexion::Multi,
        Some("  turso://base.turso.io ".to_string()),
        "Marie".to_string(),
    )
    .ok()
    .unwrap();
    assert_eq!(url.as_deref(), Some("libsql://base.turso.io"));
    assert_eq!(
        normaliser_url(normaliser_url("turso://x".to_string())),
        normaliser_url("turso://x".to_string())
    );
}

#[test]
fn test_connexion_exige_url_et_cle() {
    assert!(preparer_test_connexion(" ".to_string(), "k".to_string()).is_err());
    assert!(preparer_test_connexion("turso://a".to_string(), "  ".to_string()).is_err());
    let (u, t) = preparer_test_connexion(" turso://a ".to_string(), " k ".to_string()).ok().unwrap();
    assert_eq!(u, "libsql://a");
    assert_eq!(t, "k");
}

#[test]
fn cle_vide_sans_ancienne_absente() {
    let (c, r) = appliquer_config(None, ModeConnexion::Mono, None, Some("  ".to_string()), "J".to_string());
    assert!(c.token.is_none());
    assert!(!r.config.a_une_cle);
}
