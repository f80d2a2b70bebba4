use cadence::domaine::calendrier::DateCivile;
use cadence::domaine::personne::{
    age_a_la_date, annee_scolaire_from_date, current_annee_scolaire, valider_date_naissance_au,
};

fn date(a: i32, m: u32, j: u32) -> DateCivile {
    DateCivile::from_ymd_opt(a, m, j).unwrap()
}

#[test]
fn test_annee_scolaire_janvier() {
    assert_eq!(annee_scolaire_from_date(date(2026, 1, 15)), "2025-2026");
}

#[test]
fn test_annee_scolaire_aout() {
    assert_eq!(annee_scolaire_from_date(date(2026, 8, 31)), "2025-2026");
}

#[test]
fn test_annee_scolaire_septembre() {
    assert_eq!(annee_scolaire_from_date(date(2026, 9, 1)), "2026-2027");
}

#[test]
fn test_annee_scolaire_decembre() {
    assert_eq!(annee_scolaire_from_date(date(2026, 12, 25)), "2026-2027");
}

#[test]
fn test_annee_scolaire_annee_complete() {
    assert_eq!(annee_scolaire_from_date(date(2026, 7, 1)), "2025-2026");
}

#[test]
fn test_current_annee_scolaire_returns_valid_format() {
    let result = current_annee_scolaire();
    assert!(result.len() == 9, "Format should be YYYY-YYYY");
    let parts: Vec<&str> = result.split('-').collect();
    assert_eq!(parts.len(), 2);
    let annee1: i32 = parts[0].parse().unwrap();
    let annee2: i32 = parts[1].parse().unwrap();
    assert_eq!(annee2 - annee1, 1);
}

#[test]
fn dates_invalides_refusees() {
    assert!(DateCivile::from_ymd_opt(2015, 0, 14).is_none());
    assert!(DateCivile::from_ymd_opt(2015, 2, 29).is_none());
    assert!(DateCivile::from_ymd_opt(2016, 2, 29).is_some());
    assert!(DateCivile::from_ymd_opt(1900, 2, 29).is_none());
    assert!(DateCivile::from_ymd_opt(-4, 2, 29).is_some());
    assert!(DateCivile::from_ymd_opt(400000, 1, 1).is_none());
}

#[test]
fn age_revolu() {
    assert_eq!(age_a_la_date(date(2008, 5, 10), date(2026, 5, 9)), 17);
    // Le rang du 10 mai est 131 en 2008 (bissextile) et 130 en 2026.
    assert_eq!(age_a_la_date(date(2008, 5, 10), date(2026, 5, 10)), 17);
    assert_eq!(age_a_la_date(date(2008, 5, 10), date(2026, 5, 11)), 18);
    assert_eq!(age_a_la_date(date(2000, 1, 1), date(2026, 12, 31)), 26);
}

#[test]
fn bornes_de_la_date_de_naissance() {
    let j = date(2026, 3, 1);
    assert!(valider_date_naissance_au(date(1920, 1, 1), j).is_ok());
    assert_eq!(
        valider_date_naissance_au(date(1919, 12, 31), j).unwrap_err(),
        "La date de naissance doit être après 1920"
    );
    assert_eq!(
        valider_date_naissance_au(date(2026, 3, 2), j).unwrap_err(),
        "La date de naissance ne peut pas être dans le futur"
    );
}

#[test]
fn annee_scolaire_negative() {
    assert_eq!(annee_scolaire_from_date(date(-5, 10, 1)), "-5--4");
}
