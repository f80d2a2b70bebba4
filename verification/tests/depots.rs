use cadence::depots::lignes::activite::ActivitePersonneRow;
use cadence::depots::lignes::planning::ActiviteCreneauRow;
use cadence::depots::lignes::role_depuis_colonne;
use cadence::depots::recherche::{plan_recherche, ValeurParam};
use cadence::domaine::activite::Role;
use cadence::domaine::personne::{CriteresRecherchePersonnes, Pagination};
use cadence::erreur::AppError;
use cadence::infrastructure::config::{cible_connexion, CibleBase, ConnexionConfig, ModeConnexion};
use cadence::infrastructure::migrations::{lot_migration, nom_migration_sqlx};

const COLONNES: &str = "SELECT pp.id, pp.nom, pp.prenom, pp.date_naissance, pp.email, pp.telephone, pp.responsable_id, pp.version\n                 FROM personnes_physiques pp";
const FILTRE_TEXTE: &str = "(LOWER(pp.nom) LIKE LOWER(?) OR LOWER(pp.prenom) LIKE LOWER(?) OR LOWER(pp.email) LIKE LOWER(?) OR LOWER(pp.telephone) LIKE LOWER(?))";
const FILTRE_ADHERENT: &str = "EXISTS (SELECT 1 FROM adhesions a WHERE a.personne_id = pp.id AND a.annee_scolaire = ?)";

fn textes(v: &[ValeurParam]) -> Vec<String> {
    v.iter()
        .map(|p| match p {
            ValeurParam::Texte(s) => format!("t:{}", s),
            ValeurParam::Entier(n) => format!("i:{}", n),
        })
        .collect()
}

fn criteres(texte: Option<&str>, adherent: bool) -> CriteresRecherchePersonnes {
    CriteresRecherchePersonnes {
        texte_libre: texte.map(|t| t.to_string()),
        adherent_uniquement: adherent,
    }
}

#[test]
fn recherche_sans_filtre_paginee() {
    let plan = plan_recherche(&criteres(None, false), Pagination { page: 3, par_page: 20 }, "2025-2026");
    assert_eq!(plan.sql_comptage, "SELECT COUNT(*) AS count FROM personnes_physiques pp");
    assert_eq!(
        plan.sql_donnees,
        format!("{} ORDER BY pp.nom, pp.prenom LIMIT ? OFFSET ?", COLONNES)
    );
    assert!(plan.params_comptage.is_empty());
    assert_eq!(textes(&plan.params_donnees), vec!["i:20", "i:40"]);
}

#[test]
fn recherche_texte_libre() {
    let plan = plan_recherche(&criteres(Some("dup"), false), Pagination { page: 1, par_page: 20 }, "2025-2026");
    let clause = format!(" WHERE 1=1 AND {}", FILTRE_TEXTE);
    assert_eq!(
        plan.sql_comptage,
        format!("SELECT COUNT(*) AS count FROM personnes_physiques pp{}", clause)
    );
    assert_eq!(
        plan.sql_donnees,
        format!("{}{} ORDER BY pp.nom, pp.prenom LIMIT ? OFFSET ?", COLONNES, clause)
    );
    assert_eq!(textes(&plan.params_comptage), vec!["t:%dup%"; 4]);
    assert_eq!(
        textes(&plan.params_donnees),
        vec!["t:%dup%", "t:%dup%", "t:%dup%", "t:%dup%", "i:20", "i:0"]
    );
}

#[test]
fn recherche_adherents_et_texte_sans_pagination() {
    let plan = plan_recherche(&criteres(Some("jean"), true), Pagination { page: 0, par_page: 0 }, "2025-2026");
    let clause = format!(" WHERE 1=1 AND {} AND {}", FILTRE_TEXTE, FILTRE_ADHERENT);
    assert_eq!(
        plan.sql_comptage,
        format!("SELECT COUNT(*) AS count FROM personnes_physiques pp{}", clause)
    );
    assert_eq!(plan.sql_donnees, format!("{}{} ORDER BY pp.nom, pp.prenom", COLONNES, clause));
    let attendus = vec!["t:%jean%", "t:%jean%", "t:%jean%", "t:%jean%", "t:2025-2026"];
    assert_eq!(textes(&plan.params_comptage), attendus);
    assert_eq!(textes(&plan.params_donnees), attendus);
}

#[test]
fn recherche_adherents_seuls() {
    let plan = plan_recherche(&criteres(None, true), Pagination { page: 2, par_page: 10 }, "2024-2025");
    assert_eq!(
        plan.sql_comptage,
        format!("SELECT COUNT(*) AS count FROM personnes_physiques pp WHERE 1=1 AND {}", FILTRE_ADHERENT)
    );
    assert_eq!(textes(&plan.params_comptage), vec!["t:2024-2025"]);
    assert_eq!(textes(&plan.params_donnees), vec!["t:2024-2025", "i:10", "i:10"]);
}

#[test]
fn recherche_autant_de_valeurs_que_de_marques() {
    for texte in [None, Some("a")] {
        for adherent in [false, true] {
            for par_page in [0u32, 5] {
                let plan = plan_recherche(&criteres(texte, adherent), Pagination { page: 1, par_page }, "2025-2026");
                assert_eq!(plan.sql_comptage.matches('?').count(), plan.params_comptage.len());
                assert_eq!(plan.sql_donnees.matches('?').count(), plan.params_donnees.len());
            }
        }
    }
}

fn conf(mode: ModeConnexion, url: Option<&str>, token: Option<&str>) -> ConnexionConfig {
    ConnexionConfig {
        mode,
        url: url.map(|s| s.to_string()),
        token: token.map(|s| s.to_string()),
        utilisateur: "alice".to_string(),
    }
}

#[test]
fn cible_locale_en_mode_mono() {
    let c = conf(ModeConnexion::Mono, Some("libsql://x"), None);
    assert!(matches!(cible_connexion(&c), Ok(CibleBase::Locale)));
}

#[test]
fn cible_distante_exige_url_puis_cle() {
    match cible_connexion(&conf(ModeConnexion::Multi, None, None)) {
        Err(AppError::Validation(m)) => {
            assert_eq!(m, "L'URL de la base distante est requise en mode multi")
        }
        _ => panic!("URL manquante non signalée"),
    }
    match cible_connexion(&conf(ModeConnexion::Multi, Some("libsql://x"), None)) {
        Err(AppError::Validation(m)) => assert_eq!(m, "La clé d'accès est requise en mode multi"),
        _ => panic!("clé manquante non signalée"),
    }
    match cible_connexion(&conf(ModeConnexion::Multi, Some("libsql://x"), Some("k"))) {
        Ok(CibleBase::Distante { url, token }) => {
            assert_eq!(url, "libsql://x");
            assert_eq!(token, "k");
        }
        _ => panic!("cible distante attendue"),
    }
}

#[test]
fn nom_et_lot_de_migration() {
    assert_eq!(
        nom_migration_sqlx(20260630000001, "create_personnes_physiques"),
        "20260630000001_create_personnes_physiques.sql"
    );
    assert_eq!(nom_migration_sqlx(-3, "x"), "-3_x.sql");
    assert_eq!(lot_migration("CREATE TABLE t (a);"), "BEGIN;\nCREATE TABLE t (a);\nCOMMIT;");
}

#[test]
fn role_lu_en_colonne() {
    assert!(matches!(role_depuis_colonne("encadrant"), Ok(Role::Encadrant)));
    assert!(matches!(role_depuis_colonne("participant"), Ok(Role::Participant)));
    match role_depuis_colonne("Participant") {
        Err(AppError::Database(m)) => assert_eq!(m, "Rôle inconnu : Participant"),
        _ => panic!("rôle inconnu accepté"),
    }
}

#[test]
fn lignes_converties() {
    let ligne = ActiviteCreneauRow {
        activite_id: 3,
        nom: "Judo".to_string(),
        description: Some("dojo".to_string()),
        capacite_max: Some(12),
        activite_version: 1,
        creneau_id: 9,
        jour_semaine: 2,
        heure_debut: "18:00".to_string(),
        heure_fin: "19:30".to_string(),
        annee_scolaire: "2025-2026".to_string(),
        creneau_version: 4,
        role: Role::Encadrant,
    };
    let p = ligne.en_planning();
    assert_eq!(p.creneau.id, 9);
    assert_eq!(p.creneau.activite_id, 3);
    assert_eq!(p.creneau.jour_semaine, 2);
    assert_eq!(p.creneau.heure_debut, "18:00");
    assert_eq!(p.creneau.heure_fin, "19:30");
    assert_eq!(p.creneau.annee_scolaire, "2025-2026");
    assert_eq!(p.activite.id, 3);
    assert_eq!(p.activite.nom, "Judo");
    assert_eq!(p.activite.description.as_deref(), Some("dojo"));
    assert_eq!(p.activite.capacite_max, Some(12));
    assert_eq!(p.role, "encadrant");

    let ligne = ActivitePersonneRow {
        id: 5,
        nom: "Yoga".to_string(),
        description: None,
        capacite_max: None,
        version: 2,
        role: Role::Participant,
    };
    let a = ligne.en_activite_personne();
    assert_eq!(a.activite.id, 5);
    assert_eq!(a.activite.nom, "Yoga");
    assert!(a.activite.description.is_none());
    assert!(a.activite.capacite_max.is_none());
    assert!(matches!(a.role, Role::Participant));
}
