use cadence::domaine::activite::verifier_capacite_max;
use cadence::domaine::calendrier::DateCivile;
use cadence::domaine::parametre::{
    heure_en_minutes, minutes_en_heure, trouver_place_deplacement, ImpactAction,
};
use cadence::domaine::personne::{age_a_la_date, est_mineur_au};
use cadence::domaine::planning::{
    jour_semaine_texte, valider_jour_semaine, CreneauActivite, CreneauHorsPlage, Inscription,
};
use cadence::erreur::AppError;
use cadence::infrastructure::audit::verifier_utilisateur;
use cadence::infrastructure::compat::evaluer_compatibilite;
use cadence::infrastructure::config::ModeConnexion;
use cadence::infrastructure::connexion::{appliquer_config, normaliser_url, preparer_config};
use cadence::services::parametre::{controler_adherents, decider_application, impacts_initiaux};
use cadence::services::planning::chercher_collision;

#[test]
fn heures_ecrites_comparees_comme_les_horaires() {
    for a in (0u32..1440).step_by(37) {
        for b in (0u32..1440).step_by(53) {
            assert_eq!(minutes_en_heure(a) < minutes_en_heure(b), a < b);
        }
    }
    assert!(minutes_en_heure(540) < minutes_en_heure(600));
    // Hors de la forme sur deux chiffres, l'ordre des textes n'est plus celui des heures.
    assert!("9:00" > "10:00");
    assert_eq!(heure_en_minutes("9:00"), Some(540));
}

#[test]
fn aller_retour_des_minutes() {
    for n in [0u32, 59, 60, 545, 1439] {
        assert_eq!(heure_en_minutes(&minutes_en_heure(n)), Some(n));
    }
}

#[test]
fn nom_d_auteur_stable() {
    let u = verifier_utilisateur("  Bob \t").ok().unwrap();
    assert_eq!(u, "Bob");
    assert_eq!(verifier_utilisateur(&u).ok().unwrap(), u);
}

#[test]
fn capacite_monotone_sur_des_valeurs() {
    assert!(verifier_capacite_max(4, Some(5)).is_ok());
    assert!(verifier_capacite_max(3, Some(5)).is_ok());
    assert!(verifier_capacite_max(5, Some(5)).is_err());
    assert!(verifier_capacite_max(9, Some(5)).is_err());
}

#[test]
fn reenregistrer_ne_redemarre_pas() {
    let url = Some(normaliser_url("turso://base.turso.io".to_string()));
    let (c, r) = appliquer_config(None, ModeConnexion::Multi, url.clone(), Some(" secret ".to_string()), "Ana".to_string());
    assert!(r.redemarrage_requis);
    assert_eq!(c.token.as_deref(), Some("secret"));
    let (c2, r2) = appliquer_config(Some(&c), ModeConnexion::Multi, url, None, "Ana".to_string());
    assert!(!r2.redemarrage_requis);
    assert_eq!(c2.token.as_deref(), Some("secret"));
}

#[test]
fn compatible_ssi_toutes_connues() {
    let connus = ["a.sql", "b.sql"];
    let r = evaluer_compatibilite(Ok(vec!["b.sql".to_string(), "a.sql".to_string()]), &connus).ok().unwrap();
    assert!(r.compatible);
    let r = evaluer_compatibilite(
        Ok(vec!["a.sql".to_string(), "z.sql".to_string(), "y.sql".to_string()]),
        &connus,
    )
    .ok()
    .unwrap();
    assert!(!r.compatible);
    assert_eq!(r.migrations_inconnues, vec!["z.sql".to_string(), "y.sql".to_string()]);
}

#[test]
fn jours_valides_ssi_nommes() {
    let mut noms = Vec::new();
    for j in -2i64..10 {
        let nomme = jour_semaine_texte(j) != "Inconnu";
        assert_eq!(valider_jour_semaine(j).is_ok(), nomme);
        if nomme {
            assert!(!noms.contains(&jour_semaine_texte(j)));
            noms.push(jour_semaine_texte(j));
        }
    }
    assert_eq!(noms.len(), 7);
}

fn date(a: i32, m: u32, j: u32) -> DateCivile {
    DateCivile::from_ymd_opt(a, m, j).unwrap()
}

#[test]
fn age_ne_diminue_pas() {
    let naissance = date(2008, 5, 10);
    let jours = [date(2025, 12, 31), date(2026, 1, 1), date(2026, 5, 9), date(2026, 5, 10), date(2027, 2, 1)];
    for w in jours.windows(2) {
        assert!(age_a_la_date(naissance.clone(), w[0].clone()) <= age_a_la_date(naissance.clone(), w[1].clone()));
    }
    assert!(est_mineur_au(naissance.clone(), date(2026, 5, 9)));
    assert!(!est_mineur_au(naissance.clone(), date(2027, 2, 1)));
}

fn creneau(id: i64, activite_id: i64, jour: i64, debut: &str, fin: &str) -> CreneauActivite {
    CreneauActivite {
        id,
        activite_id,
        jour_semaine: jour,
        heure_debut: debut.to_string(),
        heure_fin: fin.to_string(),
        annee_scolaire: "2025-2026".to_string(),
    }
}

#[test]
fn collision_trouvee_ssi_chevauchement() {
    let cibles = vec![creneau(1, 1, 1, "10:00", "11:00"), creneau(2, 1, 3, "18:00", "19:00")];
    let sans = vec![creneau(3, 2, 1, "11:00", "12:00"), creneau(4, 2, 3, "17:00", "18:00")];
    assert_eq!(chercher_collision(&cibles, &sans), None);
    let avec = vec![creneau(3, 2, 1, "11:00", "12:00"), creneau(5, 2, 3, "18:30", "20:00")];
    assert_eq!(chercher_collision(&cibles, &avec), Some(1));
    let deux = vec![creneau(6, 2, 3, "18:30", "20:00"), creneau(7, 2, 1, "09:30", "10:30")];
    assert_eq!(chercher_collision(&cibles, &deux), Some(0));
    assert_eq!(chercher_collision(&[], &deux), None);
}

fn hors(id: i64, activite_id: i64, jour: i64, debut: &str, fin: &str, inscrits: i64) -> CreneauHorsPlage {
    CreneauHorsPlage {
        creneau_id: id,
        activite_id,
        activite_nom: format!("A{}", activite_id),
        jour_semaine: jour,
        heure_debut: debut.to_string(),
        heure_fin: fin.to_string(),
        annee_scolaire: "2025-2026".to_string(),
        nb_inscrits: inscrits,
    }
}

#[test]
fn deplacements_dans_la_plage_sans_chevauchement() {
    let hp = vec![hors(1, 1, 1, "08:00", "09:00", 3), hors(2, 1, 1, "08:30", "09:30", 2), hors(3, 1, 2, "07:00", "08:00", 0)];
    let tous = vec![
        creneau(1, 1, 1, "08:00", "09:00"),
        creneau(2, 1, 1, "08:30", "09:30"),
        creneau(3, 1, 2, "07:00", "08:00"),
        creneau(4, 1, 1, "10:00", "11:00"),
    ];
    let r = impacts_initiaux("09:00", "12:00", &hp, &tous);
    assert_eq!(r.len(), 3);
    let mut occupes: Vec<(u32, u32)> = vec![(600, 660)];
    for imp in &r {
        if imp.action == ImpactAction::Deplace {
            let s = heure_en_minutes(imp.nouveau_debut.as_deref().unwrap()).unwrap();
            let e = heure_en_minutes(imp.nouveau_fin.as_deref().unwrap()).unwrap();
            assert!(540 <= s && s < e && e <= 720);
            assert_eq!(e - s, 60);
            for (a, b) in &occupes {
                assert!(e <= *a || *b <= s);
            }
            occupes.push((s, e));
        }
    }
    assert_eq!(r[0].nouveau_debut.as_deref(), Some("09:00"));
    assert_eq!(r[1].nouveau_debut.as_deref(), Some("11:00"));
    assert_eq!(r[2].action, ImpactAction::Supprime);
    assert_eq!(trouver_place_deplacement("08:00", "09:00", "09:00", "12:00", &[]), Some(("09:00".to_string(), "10:00".to_string())));
}

#[test]
fn controle_ne_fait_que_bloquer_et_application_refusee() {
    let hp = vec![hors(1, 1, 1, "08:00", "09:00", 1), hors(2, 3, 1, "07:00", "07:30", 0)];
    let tous = vec![
        creneau(1, 1, 1, "08:00", "09:00"),
        creneau(2, 3, 1, "07:00", "07:30"),
        creneau(5, 2, 1, "09:30", "10:30"),
    ];
    let ins = vec![
        Inscription { activite_id: 1, personne_id: 7, annee_scolaire: "2025-2026".to_string(), activite_nom: "A1".to_string() },
        Inscription { activite_id: 2, personne_id: 7, annee_scolaire: "2025-2026".to_string(), activite_nom: "A2".to_string() },
    ];
    let premiers = impacts_initiaux("09:00", "12:00", &hp, &tous);
    let controles = controler_adherents(&premiers, &tous, &ins);
    for (a, b) in premiers.iter().zip(controles.iter()) {
        assert!(a.action == b.action || (a.action == ImpactAction::Deplace && b.action == ImpactAction::DeplaceImpossible));
    }
    assert_eq!(controles[0].action, ImpactAction::DeplaceImpossible);
    assert_eq!(controles[1].action, ImpactAction::Supprime);
    match decider_application(&controles, true) {
        Err(AppError::Conflict(m)) => assert!(m.starts_with("Impossible de réduire la plage horaire")),
        _ => panic!("réduction bloquée attendue"),
    }
    let ok = decider_application(&premiers, true);
    assert!(ok.is_ok());
}

#[test]
fn saisie_retenue_stable() {
    let (url, u) = preparer_config(ModeConnexion::Multi, Some("  turso://base.turso.io \n".to_string()), " Ana ".to_string()).ok().unwrap();
    assert_eq!(url.as_deref(), Some("libsql://base.turso.io"));
    assert_eq!(u, "Ana");
    let (url2, u2) = preparer_config(ModeConnexion::Multi, url.clone(), u.clone()).ok().unwrap();
    assert_eq!(url2, url);
    assert_eq!(u2, u);
}
