use cadence::domaine::parametre::{
    heure_en_minutes, minutes_en_heure, trouver_place_deplacement, valider_creneau_dans_plage,
    valider_plage_horaire,
};
use cadence::domaine::planning::CreateCreneau;

fn creneau(debut: &str, fin: &str) -> CreateCreneau {
    CreateCreneau {
        activite_id: 1,
        jour_semaine: 1,
        heure_debut: debut.to_string(),
        heure_fin: fin.to_string(),
        annee_scolaire: "2025-2026".to_string(),
    }
}

fn place(d: &str, f: &str) -> Option<(String, String)> {
    Some((d.to_string(), f.to_string()))
}

fn occ(v: &[(&str, &str)]) -> Vec<(String, String)> {
    v.iter().map(|(a, b)| (a.to_string(), b.to_string())).collect()
}

#[test]
fn test_valider_plage_horaire_ok() {
    assert!(valider_plage_horaire("08:00", "20:00").is_ok());
    assert!(valider_plage_horaire("09:30", "12:00").is_ok());
}

#[test]
fn test_valider_plage_horaire_ouverture_apres_fermeture() {
    let err = valider_plage_horaire("20:00", "08:00").unwrap_err();
    assert!(err.contains("avant l'heure de fermeture"));
}

#[test]
fn test_valider_plage_horaire_egales() {
    assert!(valider_plage_horaire("08:00", "08:00").is_err());
}

#[test]
fn test_valider_plage_horaire_format_invalide() {
    assert!(valider_plage_horaire("8am", "20:00").is_err());
    assert!(valider_plage_horaire("08:00", "25:00").is_err());
}

#[test]
fn test_valider_creneau_dans_plage_ok() {
    assert!(valider_creneau_dans_plage(&creneau("08:00", "20:00"), "08:00", "20:00").is_ok());
    assert!(valider_creneau_dans_plage(&creneau("09:00", "18:00"), "08:00", "20:00").is_ok());
}

#[test]
fn test_valider_creneau_debut_avant_ouverture() {
    let err = valider_creneau_dans_plage(&creneau("07:00", "09:00"), "08:00", "20:00").unwrap_err();
    assert!(err.contains("avant l'ouverture"));
}

#[test]
fn test_valider_creneau_fin_apres_fermeture() {
    let err = valider_creneau_dans_plage(&creneau("18:00", "21:00"), "08:00", "20:00").unwrap_err();
    assert!(err.contains("après la fermeture"));
}

#[test]
fn test_trouver_place_deplacement_place_libre() {
    let r = trouver_place_deplacement("19:00", "20:30", "08:00", "20:00", &[]);
    assert_eq!(r, place("18:30", "20:00"));
}

#[test]
fn test_trouver_place_deplacement_place_identique() {
    let r = trouver_place_deplacement("09:00", "10:00", "08:00", "20:00", &[]);
    assert_eq!(r, place("09:00", "10:00"));
}

#[test]
fn test_trouver_place_deplacement_evite_occupes() {
    let occupes = occ(&[("09:00", "10:00"), ("14:00", "16:00")]);
    let r = trouver_place_deplacement("09:30", "10:30", "08:00", "20:00", &occupes);
    assert_eq!(r, place("10:00", "11:00"));
}

#[test]
fn test_trouver_place_deplacement_plus_proche_egalite_tot() {
    let occupes = occ(&[("12:00", "13:00")]);
    let r = trouver_place_deplacement("12:00", "13:00", "08:00", "20:00", &occupes);
    assert_eq!(r, place("11:00", "12:00"));
}

#[test]
fn test_trouver_place_deplacement_plus_proche_avant() {
    let occupes = occ(&[("13:30", "16:00")]);
    let r = trouver_place_deplacement("13:00", "14:00", "08:00", "20:00", &occupes);
    assert_eq!(r, place("12:30", "13:30"));
}

#[test]
fn test_trouver_place_deplacement_plus_proche_apres() {
    let occupes = occ(&[("10:00", "10:45")]);
    let r = trouver_place_deplacement("10:30", "11:30", "08:00", "20:00", &occupes);
    assert_eq!(r, place("10:45", "11:45"));
}

#[test]
fn test_trouver_place_deplacement_debut_apres_fermeture() {
    let r = trouver_place_deplacement("20:00", "21:00", "08:00", "20:00", &[]);
    assert_eq!(r, place("19:00", "20:00"));
}

#[test]
fn test_trouver_place_deplacement_a_cheval_avant_ouverture() {
    let r = trouver_place_deplacement("07:30", "09:00", "08:00", "20:00", &[]);
    assert_eq!(r, place("08:00", "09:30"));
}

#[test]
fn test_trouver_place_deplacement_journee_complete() {
    let r = trouver_place_deplacement("10:00", "18:00", "08:00", "20:00", &[]);
    assert_eq!(r, place("10:00", "18:00"));
}

#[test]
fn test_trouver_place_deplacement_trop_grand() {
    let r = trouver_place_deplacement("09:00", "19:00", "10:00", "18:00", &[]);
    assert_eq!(r, None);
}

#[test]
fn test_trouver_place_deplacement_aucun_emplacement() {
    let occupes = occ(&[("08:00", "12:00"), ("13:00", "20:00")]);
    let r = trouver_place_deplacement("11:00", "13:00", "08:00", "20:00", &occupes);
    assert_eq!(r, None);
}

#[test]
fn test_heure_en_minutes() {
    assert_eq!(heure_en_minutes("08:30"), Some(510));
    assert_eq!(heure_en_minutes("00:00"), Some(0));
    assert_eq!(heure_en_minutes("23:59"), Some(1439));
    assert_eq!(heure_en_minutes("24:00"), None);
    assert_eq!(heure_en_minutes("08:60"), None);
    assert_eq!(heure_en_minutes("8h30"), None);
    assert_eq!(heure_en_minutes("abc"), None);
}

#[test]
fn test_minutes_en_heure() {
    assert_eq!(minutes_en_heure(0), "00:00");
    assert_eq!(minutes_en_heure(510), "08:30");
    assert_eq!(minutes_en_heure(1439), "23:59");
}

// Cas propres à cette bibliothèque.

#[test]
fn message_exact_plage() {
    assert_eq!(
        valider_plage_horaire("20:00", "08:00").unwrap_err(),
        "Plage horaire invalide : l'heure d'ouverture (20:00) doit être avant l'heure de fermeture (08:00)."
    );
}

#[test]
fn messages_exacts_creneau_hors_plage() {
    assert_eq!(
        valider_creneau_dans_plage(&creneau("07:00", "09:00"), "08:00", "20:00").unwrap_err(),
        "L'heure de début (07:00) est avant l'ouverture de l'activité (08:00). Les créneaux doivent être compris entre 08:00 et 20:00."
    );
    assert_eq!(
        valider_creneau_dans_plage(&creneau("18:00", "21:00"), "08:00", "20:00").unwrap_err(),
        "L'heure de fin (21:00) est après la fermeture de l'activité (20:00). Les créneaux doivent être compris entre 08:00 et 20:00."
    );
}

#[test]
fn minutes_en_heure_au_dela_de_la_journee() {
    assert_eq!(minutes_en_heure(6000), "100:00");
    assert_eq!(minutes_en_heure(61), "01:01");
}

#[test]
fn place_illisible_ou_vide() {
    assert_eq!(trouver_place_deplacement("xx", "10:00", "08:00", "20:00", &[]), None);
    assert_eq!(trouver_place_deplacement("10:00", "10:00", "08:00", "20:00", &[]), None);
    assert_eq!(trouver_place_deplacement("11:00", "10:00", "08:00", "20:00", &[]), None);
}

#[test]
fn place_ignore_intervalles_illisibles_ou_inverses() {
    let occupes = occ(&[("zz", "10:00"), ("11:00", "09:00")]);
    let r = trouver_place_deplacement("09:00", "10:00", "08:00", "20:00", &occupes);
    assert_eq!(r, place("09:00", "10:00"));
}

#[test]
fn place_plusieurs_intervalles_accoles() {
    let occupes = occ(&[("09:00", "10:00"), ("10:00", "11:00"), ("11:30", "12:00")]);
    let r = trouver_place_deplacement("09:30", "10:30", "08:00", "20:00", &occupes);
    assert_eq!(r, place("08:00", "09:00"));
}
