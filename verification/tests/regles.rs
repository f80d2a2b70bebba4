use cadence::domaine::activite::{Activite, LiaisonActivitePersonne, Role};
use cadence::domaine::adhesion::{a_adhesion_pour_annee, Adhesion};
use cadence::domaine::calendrier::{aujourd_hui, est_bissextile, nb_jours_mois, DateCivile};
use cadence::domaine::personne::{
    conclure_responsable, detail_personne, responsable_a_verifier, valider_date_naissance_au,
    Personne,
};
use cadence::domaine::planning::{conclure_lundi, lire_minutes, localiser_deux_points, CreneauActivite};
use cadence::erreur::AppError;
use cadence::infrastructure::compat::conclure_erreur_lecture;
use cadence::infrastructure::config::config_path;
use cadence::infrastructure::retry::est_stream_perdu;
use cadence::services::activite::{
    capacite_a_verifier, valider_nom_activite, verifier_capacite, verifier_liaison_existante,
};
use cadence::services::planning::{
    collision_avec, erreur_mise_a_jour, refuser_conflits, refuser_si_inscrits, OperationCreneau,
};
use cadence::texte::{
    analyser_u32, caracteres, chaine_tranche, contient_texte, ecrire_deux_chiffres, egal,
    inferieur, rogner,
};

fn creneau(jour: i64, debut: &str, fin: &str) -> CreneauActivite {
    CreneauActivite {
        id: 1,
        activite_id: 2,
        jour_semaine: jour,
        heure_debut: debut.to_string(),
        heure_fin: fin.to_string(),
        annee_scolaire: "2025-2026".to_string(),
    }
}

fn texte_erreur(e: AppError) -> (char, String) {
    match e {
        AppError::NotFound(m) => ('N', m),
        AppError::Validation(m) => ('V', m),
        AppError::Conflict(m) => ('C', m),
        AppError::Database(m) => ('D', m),
    }
}

#[test]
fn conflit_de_creneau_cite_le_premier() {
    assert!(refuser_conflits(&[]).is_ok());
    let e = refuser_conflits(&[creneau(3, "10:00", "11:00"), creneau(4, "12:00", "13:00")]).err().unwrap();
    assert_eq!(
        texte_erreur(e),
        ('C', "Conflit d'horaire avec un créneau existant : jour 3 (Mercredi), 10:00–11:00.".to_string())
    );
}

#[test]
fn creneau_verrouille_par_des_inscrits() {
    assert!(refuser_si_inscrits(0, OperationCreneau::Suppression).is_ok());
    let e = refuser_si_inscrits(2, OperationCreneau::Modification).err().unwrap();
    assert_eq!(
        texte_erreur(e),
        ('V', "Impossible de modifier un créneau : des personnes sont inscrites à cette activité pour cette année. Retirez d'abord les inscrits.".to_string())
    );
    let e = refuser_si_inscrits(1, OperationCreneau::Suppression).err().unwrap();
    assert!(texte_erreur(e).1.starts_with("Impossible de supprimer un créneau"));
}

#[test]
fn mise_a_jour_sans_effet() {
    assert_eq!(
        texte_erreur(erreur_mise_a_jour(true, "Créneau introuvable")),
        ('C', "Fiche modifiée entre-temps, rechargez-la".to_string())
    );
    assert_eq!(
        texte_erreur(erreur_mise_a_jour(false, "Créneau introuvable")),
        ('N', "Créneau introuvable".to_string())
    );
}

#[test]
fn collision_sur_l_horaire_vise() {
    let c = collision_avec(&creneau(2, "18:00", "19:00"), "Judo".to_string());
    assert_eq!(c.activite_conflit, "Judo");
    assert_eq!(c.jour_semaine, 2);
    assert_eq!(c.heure_debut, "18:00");
    assert_eq!(c.heure_fin, "19:00");
}

fn liaison(role: Role) -> LiaisonActivitePersonne {
    LiaisonActivitePersonne { activite_id: 1, personne_id: 2, annee_scolaire: "2025-2026".to_string(), role }
}

#[test]
fn inscription_unique_par_role() {
    assert!(verifier_liaison_existante(None, Role::Participant).is_ok());
    let l = liaison(Role::Participant);
    assert_eq!(
        texte_erreur(verifier_liaison_existante(Some(&l), Role::Participant).err().unwrap()),
        ('C', "Cette personne est déjà inscrite à cette activité avec ce rôle".to_string())
    );
    let l = liaison(Role::Encadrant);
    assert_eq!(
        texte_erreur(verifier_liaison_existante(Some(&l), Role::Participant).err().unwrap()),
        ('C', "Cette personne est déjà encadrant pour cette activité, elle ne peut pas être participant".to_string())
    );
}

#[test]
fn capacite_de_l_activite() {
    assert!(capacite_a_verifier(Role::Participant));
    assert!(!capacite_a_verifier(Role::Encadrant));
    assert_eq!(texte_erreur(verifier_capacite(None, 0).err().unwrap()), ('N', "Activité introuvable".to_string()));
    let a = Activite { id: 1, nom: "Yoga".to_string(), description: None, capacite_max: Some(2) };
    assert!(verifier_capacite(Some(&a), 1).is_ok());
    assert_eq!(
        texte_erreur(verifier_capacite(Some(&a), 2).err().unwrap()),
        ('V', "Capacité maximale atteinte (2/2)".to_string())
    );
}

#[test]
fn nom_d_activite_requis() {
    assert!(valider_nom_activite(" Yoga ").is_ok());
    assert_eq!(
        texte_erreur(valider_nom_activite(" \t ").err().unwrap()),
        ('V', "Le nom de l'activité est requis".to_string())
    );
}

fn date(a: i32, m: u32, j: u32) -> DateCivile {
    DateCivile::from_ymd_opt(a, m, j).unwrap()
}

fn personne(id: i64, naissance: DateCivile) -> Personne {
    Personne {
        id,
        nom: "Martin".to_string(),
        prenom: "Léa".to_string(),
        date_naissance: naissance,
        email: None,
        telephone: None,
        responsable_id: None,
    }
}

#[test]
fn responsable_legal_des_mineurs() {
    let jour = date(2026, 3, 1);
    assert_eq!(responsable_a_verifier(date(1990, 1, 1), None, jour).ok().unwrap(), None);
    assert_eq!(responsable_a_verifier(date(2015, 1, 1), Some(4), jour).ok().unwrap(), Some(4));
    assert_eq!(
        texte_erreur(responsable_a_verifier(date(2015, 1, 1), None, jour).err().unwrap()),
        ('V', "Un mineur doit avoir un responsable légal".to_string())
    );
    assert_eq!(texte_erreur(conclure_responsable(None, jour).err().unwrap()), ('N', "Responsable introuvable".to_string()));
    let mineur = personne(4, date(2012, 6, 1));
    assert_eq!(
        texte_erreur(conclure_responsable(Some(&mineur), jour).err().unwrap()),
        ('V', "Le responsable ne peut pas être mineur".to_string())
    );
    let majeur = personne(5, date(1980, 6, 1));
    assert!(conclure_responsable(Some(&majeur), jour).is_ok());
}

#[test]
fn naissance_bornee_au_jour_donne() {
    let jour = date(2026, 3, 1);
    assert!(valider_date_naissance_au(date(1920, 1, 1), jour).is_ok());
    assert_eq!(valider_date_naissance_au(date(1919, 12, 31), jour).err().unwrap(), "La date de naissance doit être après 1920");
    assert_eq!(valider_date_naissance_au(date(2026, 3, 2), jour).err().unwrap(), "La date de naissance ne peut pas être dans le futur");
    assert!(valider_date_naissance_au(aujourd_hui(), aujourd_hui()).is_ok());
}

fn adhesion(annee: &str) -> Adhesion {
    Adhesion { id: 1, personne_id: 1, annee_scolaire: annee.to_string(), reglee: true, note_paiement: None }
}

#[test]
fn adhesion_de_l_annee_en_cours() {
    let adhesions = vec![adhesion("2024-2025"), adhesion("2025-2026")];
    assert!(a_adhesion_pour_annee(&adhesions, "2025-2026"));
    assert!(!a_adhesion_pour_annee(&adhesions, "2023-2024"));
    let d = detail_personne(personne(1, date(2000, 1, 1)), adhesions, "2026-2027");
    assert!(!d.a_adhesion_annee_cours);
    assert_eq!(d.adhesions.len(), 2);
    assert_eq!(d.personne.id, 1);
}

#[test]
fn calendrier_gregorien() {
    assert!(est_bissextile(2024));
    assert!(!est_bissextile(1900));
    assert!(est_bissextile(2000));
    assert_eq!(nb_jours_mois(2024, 2), 29);
    assert_eq!(nb_jours_mois(2023, 2), 28);
    assert_eq!(nb_jours_mois(2023, 11), 30);
    assert_eq!(date(2024, 12, 31).quantieme(), 366);
    assert_eq!(date(2023, 3, 1).quantieme(), 60);
    assert_eq!(date(2026, 5, 4).jours_depuis_lundi(), 0);
    assert_eq!(date(2026, 5, 10).jours_depuis_lundi(), 6);
    assert!(date(2025, 12, 31).est_avant(&date(2026, 1, 1)));
    assert!(!date(2026, 1, 1).est_avant(&date(2026, 1, 1)));
    assert!(DateCivile::from_ymd_opt(2023, 2, 29).is_none());
}

#[test]
fn lecture_des_heures() {
    let v = caracteres("12:3:4");
    assert_eq!(localiser_deux_points(&v), (2, 2));
    assert_eq!(lire_minutes("07:05"), Some(425));
    assert_eq!(lire_minutes("+7:05"), Some(425));
    assert_eq!(lire_minutes("24:00"), None);
    assert_eq!(lire_minutes("7h05"), None);
}

#[test]
fn primitives_de_texte() {
    let v = caracteres("a+42b");
    assert_eq!(analyser_u32(&v, 1, 4), Some(42));
    assert_eq!(analyser_u32(&v, 2, 4), Some(42));
    assert_eq!(analyser_u32(&v, 1, 1), None);
    assert_eq!(analyser_u32(&caracteres("4294967296"), 0, 10), None);
    assert_eq!(analyser_u32(&caracteres("4294967295"), 0, 10), Some(u32::MAX));
    assert_eq!(chaine_tranche(&v, 1, 4), "+42");
    let mut s = String::from("h=");
    ecrire_deux_chiffres(&mut s, 7);
    ecrire_deux_chiffres(&mut s, 123);
    assert_eq!(s, "h=07123");
    assert!(inferieur("09:00", "10:00"));
    assert!(!inferieur("10:00", "10:00"));
    assert!(inferieur("", "a"));
    assert!(egal("é", "é"));
    assert!(!egal("e", "é"));
    assert_eq!(rogner("\u{a0} x y\u{3000}\n"), "x y");
    assert!(contient_texte("base: no such table", "no such table"));
    assert!(!contient_texte("no such", "no such table"));
    assert!(contient_texte("abc", ""));
}

#[test]
fn perte_du_flux_detectee_sans_casse() {
    assert!(est_stream_perdu("Stream Not Found"));
    assert!(!est_stream_perdu("stream found"));
}

#[test]
fn chemin_du_fichier_de_configuration() {
    let p = config_path(std::path::Path::new("/tmp/cadence"));
    assert_eq!(p, std::path::PathBuf::from("/tmp/cadence/cadence_config.json"));
}

#[test]
fn lundi_conclu_depuis_la_lecture() {
    assert!(conclure_lundi("2026-05-04", Ok(date(2026, 5, 4))).is_ok());
    assert_eq!(
        conclure_lundi("2026-05-05", Ok(date(2026, 5, 5))).err().unwrap(),
        "La date '2026-05-05' n'est pas un lundi. La date de début doit être un lundi."
    );
    assert_eq!(
        conclure_lundi("05/04/2026", Err("input contains invalid characters".to_string())).err().unwrap(),
        "Format de date invalide : '05/04/2026'. input contains invalid characters"
    );
}

#[test]
fn erreur_de_lecture_des_migrations() {
    let c = conclure_erreur_lecture(AppError::Database("x".to_string()), "sqlite failure: no such table: _cadence_migrations")
        .ok()
        .unwrap();
    assert!(c.compatible);
    assert!(c.migrations_inconnues.is_empty());
    let e = conclure_erreur_lecture(AppError::Database("database is locked".to_string()), "database is locked")
        .err()
        .unwrap();
    assert_eq!(texte_erreur(e), ('D', "database is locked".to_string()));
}
