use cadence::domaine::activite::{role_from_str, verifier_capacite_max, Role};

#[test]
fn test_capacite_max_non_atteinte() {
    assert!(verifier_capacite_max(5, Some(10)).is_ok());
}

#[test]
fn test_capacite_max_atteinte() {
    let err = verifier_capacite_max(10, Some(10)).unwrap_err();
    assert!(err.contains("Capacité maximale atteinte"));
}

#[test]
fn test_capacite_max_depassee() {
    let err = verifier_capacite_max(15, Some(10)).unwrap_err();
    assert!(err.contains("Capacité maximale atteinte"));
}

#[test]
fn test_capacite_max_sans_limite() {
    assert!(verifier_capacite_max(100, None).is_ok());
}

#[test]
fn test_capacite_max_0() {
    let err = verifier_capacite_max(0, Some(0)).unwrap_err();
    assert!(err.contains("Capacité maximale atteinte"));
}

#[test]
fn message_exact_capacite() {
    assert_eq!(
        verifier_capacite_max(12, Some(10)).unwrap_err(),
        "Capacité maximale atteinte (12/10)"
    );
}

#[test]
fn capacite_pleine_le_reste() {
    for n in 10..20 {
        assert!(verifier_capacite_max(n, Some(10)).is_err());
    }
}

#[test]
fn role_texte_et_lecture() {
    assert_eq!(Role::Encadrant.texte(), "encadrant");
    assert_eq!(Role::Participant.texte(), "participant");
    assert_eq!(role_from_str("encadrant"), Ok(Role::Encadrant));
    assert_eq!(role_from_str("participant"), Ok(Role::Participant));
    assert_eq!(role_from_str("admin"), Err("Rôle inconnu : admin".to_string()));
}
