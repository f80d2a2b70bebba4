use cadence::domaine::planning::{
    est_lundi, jour_semaine_texte, valider_creneau, valider_heure, valider_jour_semaine,
    CreateCreneau,
};

fn creneau(jour: i64, debut: &str, fin: &str) -> CreateCreneau {
    CreateCreneau {
        activite_id: 1,
        jour_semaine: jour,
        heure_debut: debut.to_string(),
        heure_fin: fin.to_string(),
        annee_scolaire: "2025-2026".to_string(),
    }
}

#[test]
fn test_valider_jour_semaine_ok() {
    for j in 1..=7 {
        assert!(valider_jour_semaine(j).is_ok());
    }
}

#[test]
fn test_valider_jour_semaine_invalide() {
    assert!(valider_jour_semaine(0).is_err());
    assert!(valider_jour_semaine(8).is_err());
    assert!(valider_jour_semaine(-1).is_err());
}

#[test]
fn test_valider_heure_ok() {
    assert!(valider_heure("08:00").is_ok());
    assert!(valider_heure("14:30").is_ok());
    assert!(valider_heure("23:59").is_ok());
}

#[test]
fn test_valider_heure_format_invalide() {
    assert!(valider_heure("14").is_err());
    assert!(valider_heure("14:00:00").is_err());
    assert!(valider_heure("").is_err());
}

#[test]
fn test_valider_heure_valeurs_invalides() {
    assert!(valider_heure("24:00").is_err());
    assert!(valider_heure("14:60").is_err());
    assert!(valider_heure("abc:def").is_err());
}

#[test]
fn test_valider_creneau_ok() {
    assert!(valider_creneau(&creneau(1, "14:00", "16:00")).is_ok());
}

#[test]
fn test_valider_creneau_debut_apres_fin() {
    assert!(valider_creneau(&creneau(1, "16:00", "14:00")).is_err());
}

#[test]
fn test_valider_creneau_debut_egal_fin() {
    assert!(valider_creneau(&creneau(1, "14:00", "14:00")).is_err());
}

#[test]
fn test_est_lundi_ok() {
    assert!(est_lundi("2025-09-01").is_ok());
    assert!(est_lundi("2025-09-08").is_ok());
}

#[test]
fn test_est_lundi_mardi() {
    assert!(est_lundi("2025-09-02").is_err());
}

#[test]
fn test_est_lundi_format_invalide() {
    assert!(est_lundi("01-09-2025").is_err());
    assert!(est_lundi("2025/09/01").is_err());
    assert!(est_lundi("abc").is_err());
}

#[test]
fn test_jour_semaine_texte_all_days() {
    assert_eq!(jour_semaine_texte(1), "Lundi");
    assert_eq!(jour_semaine_texte(2), "Mardi");
    assert_eq!(jour_semaine_texte(3), "Mercredi");
    assert_eq!(jour_semaine_texte(4), "Jeudi");
    assert_eq!(jour_semaine_texte(5), "Vendredi");
    assert_eq!(jour_semaine_texte(6), "Samedi");
    assert_eq!(jour_semaine_texte(7), "Dimanche");
}

#[test]
fn test_jour_semaine_texte_invalide() {
    assert_eq!(jour_semaine_texte(0), "Inconnu");
    assert_eq!(jour_semaine_texte(8), "Inconnu");
    assert_eq!(jour_semaine_texte(-1), "Inconnu");
}

#[test]
fn test_est_lundi_all_weekdays() {
    assert!(est_lundi("2025-09-01").is_ok());
    assert!(est_lundi("2025-09-02").is_err());
    assert!(est_lundi("2025-09-03").is_err());
    assert!(est_lundi("2025-09-04").is_err());
    assert!(est_lundi("2025-09-05").is_err());
    assert!(est_lundi("2025-09-06").is_err());
    assert!(est_lundi("2025-09-07").is_err());
}

#[test]
fn test_est_lundi_message() {
    let err = est_lundi("2025-09-02").unwrap_err();
    assert!(err.contains("n'est pas un lundi"));
}

#[test]
fn test_valider_heure_message_format() {
    let err = valider_heure("14").unwrap_err();
    assert!(err.contains("Attendu HH:MM"));
}

#[test]
fn test_valider_heure_message_hors_limite() {
    let err = valider_heure("24:00").unwrap_err();
    assert!(err.contains("00:00 à 23:59"));
}

#[test]
fn test_valider_jour_semaine_message_invalide() {
    let err = valider_jour_semaine(0).unwrap_err();
    assert!(err.contains("entre 1 (lundi) et 7 (dimanche)"));
}

#[test]
fn test_valider_creneau_message_debut_apres_fin() {
    let err = valider_creneau(&creneau(1, "16:00", "14:00")).unwrap_err();
    assert!(err.contains("doit être avant"));
}

#[test]
fn test_valider_creneau_jour_invalide_propage_erreur() {
    let err = valider_creneau(&creneau(0, "14:00", "16:00")).unwrap_err();
    assert!(err.contains("Jour de semaine invalide"));
}

#[test]
fn test_valider_creneau_heure_invalide_propage_erreur() {
    let err = valider_creneau(&creneau(1, "not_a_time", "16:00")).unwrap_err();
    assert!(err.contains("Format d'heure invalide"));
}

#[test]
fn test_valider_heure_limites() {
    assert!(valider_heure("00:00").is_ok());
    assert!(valider_heure("23:59").is_ok());
    assert!(valider_heure("00:01").is_ok());
}

// Cas propres à cette bibliothèque.

#[test]
fn messages_exacts_des_heures() {
    assert_eq!(
        valider_heure("14").unwrap_err(),
        "Format d'heure invalide : '14'. Attendu HH:MM"
    );
    assert_eq!(valider_heure("x:10").unwrap_err(), "Heure invalide : 'x:10'");
    assert_eq!(valider_heure("10:y").unwrap_err(), "Minutes invalides : '10:y'");
    assert_eq!(
        valider_heure("10:60").unwrap_err(),
        "Heure invalide : '10:60'. Les heures vont de 00:00 à 23:59"
    );
}

#[test]
fn heure_lue_comme_u32_from_str() {
    // `u32::from_str` accepte un `+` en tête et des zéros en tête.
    assert!(valider_heure("+8:05").is_ok());
    assert!(valider_heure("008:05").is_ok());
    assert!(valider_heure("-8:05").is_err());
    assert!(valider_heure(":05").is_err());
    assert!(valider_heure("99999999999:05").is_err());
}

#[test]
fn message_exact_jour_negatif() {
    assert_eq!(
        valider_jour_semaine(-12).unwrap_err(),
        "Jour de semaine invalide : -12. Doit être entre 1 (lundi) et 7 (dimanche)"
    );
}

#[test]
fn message_exact_ordre_creneau() {
    assert_eq!(
        valider_creneau(&creneau(2, "16:00", "14:00")).unwrap_err(),
        "L'heure de début (16:00) doit être avant l'heure de fin (14:00)"
    );
}

#[test]
fn lundi_dates_lointaines() {
    assert!(est_lundi("2024-02-26").is_ok());
    assert!(est_lundi("2000-01-03").is_ok());
    assert!(est_lundi("1900-01-01").is_ok());
    assert!(est_lundi("2024-02-29").is_err());
    assert!(est_lundi("2023-02-29").unwrap_err().starts_with("Format de date invalide : '2023-02-29'. "));
}
