//! Planning des activités : créneaux hebdomadaires, semaines banalisées,
//! validation des jours et des heures « HH:MM ».
use chrono::Datelike;
use vstd::prelude::*;

use crate::domaine::activite::Activite;
use crate::domaine::calendrier::{date_valide, jour_semaine_iso, DateCivile};
use crate::texte::{
    ajouter_texte, analyse_u32, analyser_u32, caracteres, chiffre, decimal, decimal_signe,
    deux_chiffres, ecrire_entier, inferieur, lex_inf, lex_inf_egal, tous_chiffres,
    valeur_decimale,
};

verus! {

pub struct CreneauActivite {
    pub id: i64,
    pub activite_id: i64,
    pub jour_semaine: i64,
    pub heure_debut: String,
    pub heure_fin: String,
    pub annee_scolaire: String,
}

pub struct CreateCreneau {
    pub activite_id: i64,
    pub jour_semaine: i64,
    pub heure_debut: String,
    pub heure_fin: String,
    pub annee_scolaire: String,
}

pub struct SemaineBanalisee {
    pub id: i64,
    pub activite_id: i64,
    pub date_debut: String,
    pub motif: Option<String>,
    pub annee_scolaire: String,
}

pub struct CreateSemaineBanalisee {
    pub activite_id: i64,
    pub date_debut: String,
    pub motif: Option<String>,
    pub annee_scolaire: String,
}

pub struct PlanningCreneau {
    pub creneau: CreneauActivite,
    pub activite: Activite,
    pub role: String,
}

pub struct Collision {
    pub activite_conflit: String,
    pub jour_semaine: i64,
    pub heure_debut: String,
    pub heure_fin: String,
}

/// Créneau situé hors d'une plage horaire, avec son nombre d'inscrits.
pub struct CreneauHorsPlage {
    pub creneau_id: i64,
    pub activite_id: i64,
    pub activite_nom: String,
    pub jour_semaine: i64,
    pub heure_debut: String,
    pub heure_fin: String,
    pub annee_scolaire: String,
    pub nb_inscrits: i64,
}

/// Inscription d'une personne à une activité pour une année scolaire.
pub struct Inscription {
    pub activite_id: i64,
    pub personne_id: i64,
    pub annee_scolaire: String,
    pub activite_nom: String,
}

// ───────────────────────── Jours ─────────────────────────

pub open spec fn message_jour_invalide(jour: int) -> Seq<char> {
    "Jour de semaine invalide : "@ + decimal_signe(jour)
        + ". Doit être entre 1 (lundi) et 7 (dimanche)"@
}

/// Un jour de semaine va de 1 (lundi) à 7 (dimanche).
pub fn valider_jour_semaine(jour: i64) -> (r: Result<(), String>)
    ensures
        r is Ok <==> 1 <= jour <= 7,
        r matches Err(m) ==> m@ == message_jour_invalide(jour as int),
{
    if 1 <= jour && jour <= 7 {
        Ok(())
    } else {
        let mut m = String::new();
        ajouter_texte(&mut m, "Jour de semaine invalide : ");
        ecrire_entier(&mut m, jour);
        ajouter_texte(&mut m, ". Doit être entre 1 (lundi) et 7 (dimanche)");
        Err(m)
    }
}

pub open spec fn nom_jour(jour: int) -> Seq<char> {
    if jour == 1 {
        "Lundi"@
    } else if jour == 2 {
        "Mardi"@
    } else if jour == 3 {
        "Mercredi"@
    } else if jour == 4 {
        "Jeudi"@
    } else if jour == 5 {
        "Vendredi"@
    } else if jour == 6 {
        "Samedi"@
    } else if jour == 7 {
        "Dimanche"@
    } else {
        "Inconnu"@
    }
}

/// Les jours acceptés par `valider_jour_semaine` sont exactement ceux qui ont
/// un nom, et deux jours acceptés différents ont des noms différents.
pub proof fn loi_noms_des_jours(j1: int, j2: int)
    ensures
        (1 <= j1 <= 7) <==> nom_jour(j1) != "Inconnu"@,
        1 <= j1 <= 7 && 1 <= j2 <= 7 && j1 != j2 ==> nom_jour(j1) != nom_jour(j2),
{
    reveal_strlit("Lundi");
    reveal_strlit("Mardi");
    reveal_strlit("Mercredi");
    reveal_strlit("Jeudi");
    reveal_strlit("Vendredi");
    reveal_strlit("Samedi");
    reveal_strlit("Dimanche");
    reveal_strlit("Inconnu");
    if 1 <= j1 <= 7 {
        assert(nom_jour(j1).len() != "Inconnu"@.len());
    }
    if 1 <= j1 <= 7 && 1 <= j2 <= 7 && j1 != j2 {
        assert(nom_jour(j1).len() != nom_jour(j2).len() || nom_jour(j1)[0] != nom_jour(j2)[0]);
    }
}

/// Nom français du jour (1 = lundi), « Inconnu » hors de 1..=7.
pub fn jour_semaine_texte(jour: i64) -> (r: &'static str)
    ensures
        r@ == nom_jour(jour as int),
{
    match jour {
        1 => "Lundi",
        2 => "Mardi",
        3 => "Mercredi",
        4 => "Jeudi",
        5 => "Vendredi",
        6 => "Samedi",
        7 => "Dimanche",
        _ => "Inconnu",
    }
}

// ───────────────────────── Heures « HH:MM » ─────────────────────────

/// Nombre d'occurrences de `c` dans `s`.
pub open spec fn nb_occurrences(s: Seq<char>, c: char) -> nat
    decreases s.len(),
{
    if s.len() == 0 {
        0
    } else {
        nb_occurrences(s.drop_last(), c) + if s.last() == c {
            1nat
        } else {
            0nat
        }
    }
}

/// Indice de la première occurrence de `c` dans `s` (`s.len()` si absent).
pub open spec fn premier_indice(s: Seq<char>, c: char) -> int
    decreases s.len(),
{
    if s.len() == 0 {
        0
    } else if premier_indice(s.drop_last(), c) < s.len() - 1 {
        premier_indice(s.drop_last(), c)
    } else if s.last() == c {
        s.len() - 1
    } else {
        s.len() as int
    }
}

/// Ce qui précède le `:`.
pub open spec fn partie_heures(s: Seq<char>) -> Seq<char> {
    s.subrange(0, premier_indice(s, ':'))
}

/// Ce qui suit le `:`.
pub open spec fn partie_minutes(s: Seq<char>) -> Seq<char> {
    s.subrange(premier_indice(s, ':') + 1, s.len() as int)
}

/// Lecture « HH:MM » : exactement un `:`, deux entiers non signés lus comme
/// `u32::from_str`, heures au plus 23, minutes au plus 59 ; rend le nombre de
/// minutes depuis minuit.
pub open spec fn minutes_de(s: Seq<char>) -> Option<nat> {
    if nb_occurrences(s, ':') == 1 {
        match (analyse_u32(partie_heures(s)), analyse_u32(partie_minutes(s))) {
            (Some(h), Some(m)) => if h <= 23 && m <= 59 {
                Some(h * 60 + m)
            } else {
                None
            },
            _ => None,
        }
    } else {
        None
    }
}

/// Message de refus d'une heure, `None` si l'heure est acceptée.
pub open spec fn erreur_heure(s: Seq<char>) -> Option<Seq<char>> {
    if nb_occurrences(s, ':') != 1 {
        Some("Format d'heure invalide : '"@ + s + "'. Attendu HH:MM"@)
    } else if analyse_u32(partie_heures(s)) is None {
        Some("Heure invalide : '"@ + s + "'"@)
    } else if analyse_u32(partie_minutes(s)) is None {
        Some("Minutes invalides : '"@ + s + "'"@)
    } else if analyse_u32(partie_heures(s)).unwrap() > 23 || analyse_u32(
        partie_minutes(s),
    ).unwrap() > 59 {
        Some("Heure invalide : '"@ + s + "'. Les heures vont de 00:00 à 23:59"@)
    } else {
        None
    }
}

/// Une heure est refusée par `valider_heure` exactement quand `heure_en_minutes`
/// ne la lit pas.
pub proof fn loi_validation_et_lecture_heure(s: Seq<char>)
    ensures
        erreur_heure(s) is None <==> minutes_de(s) is Some,
{
}

/// Nombre de `:` et position du premier dans `v`.
pub fn localiser_deux_points(v: &Vec<char>) -> (r: (usize, usize))
    ensures
        r.0 == nb_occurrences(v@, ':'),
        r.1 == premier_indice(v@, ':'),
{
    let mut nb: usize = 0;
    let mut premier: usize = 0;
    let mut i: usize = 0;
    while i < v.len()
        invariant
            i <= v@.len(),
            nb == nb_occurrences(v@.subrange(0, i as int), ':'),
            nb <= i,
            premier == premier_indice(v@.subrange(0, i as int), ':'),
        decreases v.len() - i,
    {
        let ghost avant = v@.subrange(0, i as int);
        assert(v@.subrange(0, i + 1).drop_last() =~= avant);
        if premier == i {
            if v[i] == ':' {
                premier = i;
            } else {
                premier = i + 1;
            }
        }
        if v[i] == ':' {
            nb = nb + 1;
        }
        i = i + 1;
    }
    assert(v@.subrange(0, v@.len() as int) =~= v@);
    (nb, premier)
}

proof fn lemme_premier_indice(s: Seq<char>, c: char)
    ensures
        0 <= premier_indice(s, c) <= s.len(),
        premier_indice(s, c) < s.len() ==> s[premier_indice(s, c)] == c,
        nb_occurrences(s, c) > 0 ==> premier_indice(s, c) < s.len(),
    decreases s.len(),
{
    if s.len() > 0 {
        lemme_premier_indice(s.drop_last(), c);
    }
}

/// Lecture de « HH:MM » déjà découpée : (heures, minutes) lus, ou l'étape
/// qui a échoué.
fn lire_heure(v: &Vec<char>) -> (r: Result<(u32, u32), u8>)
    ensures
        nb_occurrences(v@, ':') != 1 ==> r == Err::<(u32, u32), u8>(0),
        nb_occurrences(v@, ':') == 1 ==> match r {
            Ok((h, m)) => analyse_u32(partie_heures(v@)) == Some(h as nat) && analyse_u32(
                partie_minutes(v@),
            ) == Some(m as nat),
            Err(e) => (e == 1 && analyse_u32(partie_heures(v@)) is None) || (e == 2
                && analyse_u32(partie_heures(v@)) is Some && analyse_u32(partie_minutes(v@))
                is None),
        },
{
    let (nb, p) = localiser_deux_points(v);
    if nb != 1 {
        return Err(0);
    }
    proof {
        lemme_premier_indice(v@, ':');
    }
    let n = v.len();
    assert(p < n);
    let h = analyser_u32(v, 0, p);
    match h {
        None => Err(1),
        Some(h) => {
            let m = analyser_u32(v, p + 1, n);
            match m {
                None => Err(2),
                Some(m) => Ok((h, m)),
            }
        },
    }
}

fn message_avec_heure(debut: &str, heure: &str, fin: &str) -> (r: String)
    ensures
        r@ == debut@ + heure@ + fin@,
{
    let mut m = String::new();
    ajouter_texte(&mut m, debut);
    ajouter_texte(&mut m, heure);
    ajouter_texte(&mut m, fin);
    m
}

/// Valide une heure « HH:MM » (de 00:00 à 23:59).
pub fn valider_heure(heure: &str) -> (r: Result<(), String>)
    ensures
        match r {
            Ok(()) => erreur_heure(heure@) is None,
            Err(m) => erreur_heure(heure@) == Some(m@),
        },
{
    let v = caracteres(heure);
    match lire_heure(&v) {
        Err(0) => Err(message_avec_heure("Format d'heure invalide : '", heure, "'. Attendu HH:MM")),
        Err(1) => Err(message_avec_heure("Heure invalide : '", heure, "'")),
        Err(_) => Err(message_avec_heure("Minutes invalides : '", heure, "'")),
        Ok((h, m)) => {
            if h > 23 || m > 59 {
                Err(
                    message_avec_heure(
                        "Heure invalide : '",
                        heure,
                        "'. Les heures vont de 00:00 à 23:59",
                    ),
                )
            } else {
                Ok(())
            }
        },
    }
}

/// Minutes depuis minuit d'une heure « HH:MM » valide.
pub fn lire_minutes(heure: &str) -> (r: Option<u32>)
    ensures
        match minutes_de(heure@) {
            Some(n) => r == Some(n as u32),
            None => r is None,
        },
{
    let v = caracteres(heure);
    match lire_heure(&v) {
        Ok((h, m)) => {
            if h > 23 || m > 59 {
                None
            } else {
                Some(h * 60 + m)
            }
        },
        Err(_) => None,
    }
}

// ───────────────────────── Créneaux ─────────────────────────

pub open spec fn message_ordre_creneau(debut: Seq<char>, fin: Seq<char>) -> Seq<char> {
    "L'heure de début ("@ + debut + ") doit être avant l'heure de fin ("@ + fin + ")"@
}

/// Refus d'un créneau : jour invalide, puis heure de début, puis heure de fin,
/// puis début pas avant la fin (ordre des chaînes).
pub open spec fn erreur_creneau(jour: int, debut: Seq<char>, fin: Seq<char>) -> Option<Seq<char>> {
    if !(1 <= jour <= 7) {
        Some(message_jour_invalide(jour))
    } else if erreur_heure(debut) is Some {
        erreur_heure(debut)
    } else if erreur_heure(fin) is Some {
        erreur_heure(fin)
    } else if lex_inf_egal(fin, debut) {
        Some(message_ordre_creneau(debut, fin))
    } else {
        None
    }
}

/// Valide un créneau : jour, heures, et début strictement avant la fin.
pub fn valider_creneau(input: &CreateCreneau) -> (r: Result<(), String>)
    ensures
        match r {
            Ok(()) => erreur_creneau(
                input.jour_semaine as int,
                input.heure_debut@,
                input.heure_fin@,
            ) is None,
            Err(m) => erreur_creneau(
                input.jour_semaine as int,
                input.heure_debut@,
                input.heure_fin@,
            ) == Some(m@),
        },
{
    valider_jour_semaine(input.jour_semaine)?;
    valider_heure(input.heure_debut.as_str())?;
    valider_heure(input.heure_fin.as_str())?;
    let debut_avant_fin = inferieur(input.heure_debut.as_str(), input.heure_fin.as_str());
    if !debut_avant_fin {
        proof {
            lemme_lex_total(input.heure_debut@, input.heure_fin@);
        }
        let mut m = String::new();
        ajouter_texte(&mut m, "L'heure de début (");
        ajouter_texte(&mut m, input.heure_debut.as_str());
        ajouter_texte(&mut m, ") doit être avant l'heure de fin (");
        ajouter_texte(&mut m, input.heure_fin.as_str());
        ajouter_texte(&mut m, ")");
        return Err(m);
    }
    proof {
        lemme_lex_antisymetrique(input.heure_debut@, input.heure_fin@);
    }
    Ok(())
}

/// L'ordre des chaînes est total : `a < b` ou `b <= a`.
pub proof fn lemme_lex_total(a: Seq<char>, b: Seq<char>)
    ensures
        lex_inf(a, b) || lex_inf_egal(b, a),
    decreases a.len(),
{
    if a.len() > 0 && b.len() > 0 && a[0] == b[0] {
        let a1 = a.drop_first();
        let b1 = b.drop_first();
        lemme_lex_total(a1, b1);
        if a1 == b1 {
            assert(a.len() == b.len());
            assert forall|i: int| 0 <= i < a.len() implies a[i] == b[i] by {
                if i > 0 {
                    assert(a[i] == a1[i - 1]);
                    assert(b[i] == b1[i - 1]);
                }
            }
            assert(a =~= b);
        }
    } else if a.len() == 0 && b.len() == 0 {
        assert(a =~= b);
    }
}

/// L'ordre des chaînes est strict : `a < b` exclut `b <= a`.
pub proof fn lemme_lex_antisymetrique(a: Seq<char>, b: Seq<char>)
    ensures
        lex_inf(a, b) ==> !lex_inf_egal(b, a),
    decreases a.len(),
{
    if a.len() > 0 && b.len() > 0 && a[0] == b[0] {
        lemme_lex_antisymetrique(a.drop_first(), b.drop_first());
        if a == b {
            assert(a.drop_first() == b.drop_first());
        }
    }
}

// ───────────────────────── Semaines banalisées ─────────────────────────

/// Lecture d'une date au format « %Y-%m-%d » par chrono : la date lue
/// (année, mois, jour), ou le texte de l'erreur de lecture.
pub uninterp spec fn lecture_date_iso(s: Seq<char>) -> Result<(int, int, int), Seq<char>>;

/// Lit une date « AAAA-MM-JJ » avec `chrono::NaiveDate::parse_from_str(s, "%Y-%m-%d")`.
///
/// Le contrat nomme le résultat (`lecture_date_iso`), fonction de la seule
/// chaîne, et affirme qu'une date lue est une date civile valide dans les
/// bornes de chrono ; le texte d'erreur est celui de l'affichage de
/// `chrono::ParseError`. La grammaire acceptée n'est pas décrite.
#[verifier::external_body]
fn lire_date_iso(s: &str) -> (r: Result<(i32, u32, u32), String>)
    ensures
        match r {
            Ok((a, m, j)) => lecture_date_iso(s@) == Ok::<(int, int, int), Seq<char>>(
                (a as int, m as int, j as int),
            ) && date_valide(a as int, m as int, j as int),
            Err(e) => lecture_date_iso(s@) == Err::<(int, int, int), Seq<char>>(e@),
        },
{
    match chrono::NaiveDate::parse_from_str(s, "%Y-%m-%d") {
        Ok(d) => Ok((d.year(), d.month(), d.day())),
        Err(e) => Err(e.to_string()),
    }
}

/// Refus d'une date de début de semaine, la date ayant été lue (ou non) :
/// format invalide, puis jour autre que lundi.
pub open spec fn erreur_lundi_lue(
    date: Seq<char>,
    lecture: Result<(int, int, int), Seq<char>>,
) -> Option<Seq<char>> {
    match lecture {
        Err(e) => Some("Format de date invalide : '"@ + date + "'. "@ + e),
        Ok((a, m, j)) => if jour_semaine_iso(a, m, j) == 0 {
            None
        } else {
            Some(
                "La date '"@ + date
                    + "' n'est pas un lundi. La date de début doit être un lundi."@,
            )
        },
    }
}

pub open spec fn erreur_lundi(date: Seq<char>) -> Option<Seq<char>> {
    erreur_lundi_lue(date, lecture_date_iso(date))
}

pub open spec fn vue_lecture(lecture: Result<DateCivile, String>) -> Result<(int, int, int), Seq<char>> {
    match lecture {
        Ok(d) => Ok(d@),
        Err(e) => Err(e@),
    }
}

/// Conclut le contrôle d'une date de début de semaine à partir de sa lecture.
pub fn conclure_lundi(date: &str, lecture: Result<DateCivile, String>) -> (r: Result<(), String>)
    ensures
        match r {
            Ok(()) => erreur_lundi_lue(date@, vue_lecture(lecture)) is None,
            Err(m) => erreur_lundi_lue(date@, vue_lecture(lecture)) == Some(m@),
        },
{
    match lecture {
        Err(e) => {
            let mut m = String::new();
            ajouter_texte(&mut m, "Format de date invalide : '");
            ajouter_texte(&mut m, date);
            ajouter_texte(&mut m, "'. ");
            ajouter_texte(&mut m, e.as_str());
            Err(m)
        },
        Ok(d) => {
            if d.jours_depuis_lundi() != 0 {
                Err(
                    message_avec_heure(
                        "La date '",
                        date,
                        "' n'est pas un lundi. La date de début doit être un lundi.",
                    ),
                )
            } else {
                Ok(())
            }
        },
    }
}

/// Vérifie qu'une date « AAAA-MM-JJ » tombe un lundi.
pub fn est_lundi(date: &str) -> (r: Result<(), String>)
    ensures
        match r {
            Ok(()) => erreur_lundi(date@) is None,
            Err(m) => erreur_lundi(date@) == Some(m@),
        },
{
    let lecture = match lire_date_iso(date) {
        Ok((a, m, j)) => Ok(DateCivile::depuis_valide(a, m, j)),
        Err(e) => Err(e),
    };
    conclure_lundi(date, lecture)
}


proof fn lemme_deux_chiffres(x: nat)
    requires
        x < 100,
    ensures
        deux_chiffres(x).len() == 2,
        tous_chiffres(deux_chiffres(x)),
        valeur_decimale(deux_chiffres(x)) == x,
        deux_chiffres(x)[0] != ':' && deux_chiffres(x)[1] != ':',
        deux_chiffres(x)[0] != '+',
{
    let s = deux_chiffres(x);
    if x < 10 {
        assert(s =~= seq!['0', chiffre(x)]);
    } else {
        reveal_with_fuel(decimal, 2);
        assert(decimal(x / 10) =~= seq![chiffre(x / 10)]);
        assert(s =~= seq![chiffre(x / 10), chiffre(x % 10)]);
    }
    assert(s.drop_last().drop_last() =~= Seq::<char>::empty());
    reveal_with_fuel(valeur_decimale, 3);
}

proof fn lemme_analyse_deux_chiffres(x: nat)
    requires
        x < 100,
    ensures
        analyse_u32(deux_chiffres(x)) == Some(x),
{
    lemme_deux_chiffres(x);
}

/// Les heures « HH:MM » écrites sur deux chiffres se relisent.
pub proof fn lemme_relecture(h: nat, m: nat)
    requires
        h < 24,
        m < 60,
    ensures
        minutes_de(deux_chiffres(h) + seq![':'] + deux_chiffres(m)) == Some(h * 60 + m),
{
    let a = deux_chiffres(h);
    let b = deux_chiffres(m);
    lemme_deux_chiffres(h);
    lemme_deux_chiffres(m);
    lemme_analyse_deux_chiffres(h);
    lemme_analyse_deux_chiffres(m);
    let s = a + seq![':'] + b;
    assert(s.len() == 5);
    let s4 = s.drop_last();
    let s3 = s4.drop_last();
    let s2 = s3.drop_last();
    let s1 = s2.drop_last();
    let s0 = s1.drop_last();
    assert(s0.len() == 0);
    assert(s1 =~= seq![a[0]]);
    assert(s2 =~= seq![a[0], a[1]]);
    assert(s3 =~= seq![a[0], a[1], ':']);
    assert(s4 =~= seq![a[0], a[1], ':', b[0]]);
    assert(nb_occurrences(s0, ':') == 0);
    assert(nb_occurrences(s1, ':') == 0);
    assert(nb_occurrences(s2, ':') == 0);
    assert(nb_occurrences(s3, ':') == 1);
    assert(nb_occurrences(s4, ':') == 1);
    assert(nb_occurrences(s, ':') == 1);
    assert(premier_indice(s0, ':') == 0);
    assert(premier_indice(s1, ':') == 1);
    assert(premier_indice(s2, ':') == 2);
    assert(premier_indice(s3, ':') == 2);
    assert(premier_indice(s4, ':') == 2);
    assert(premier_indice(s, ':') == 2);
    assert(partie_heures(s) =~= a);
    assert(partie_minutes(s) =~= b);
}

} // verus!
