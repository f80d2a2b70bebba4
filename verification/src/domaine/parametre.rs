//! Plage horaire d'ouverture des activités et déplacement des créneaux qui
//! en sortent.
use vstd::prelude::*;

use crate::domaine::planning::{
    erreur_heure, lire_minutes, minutes_de, valider_heure, CreateCreneau,
};
use crate::texte::{
    ajouter_texte, chiffre, decimal, deux_chiffres, ecrire_deux_chiffres, inferieur, lex_inf, lex_inf_egal,
    pousser,
};

verus! {

pub struct ParametresPlanning {
    pub id: i64,
    pub heure_ouverture: String,
    pub heure_fermeture: String,
}

// ───────────────────────── Plage horaire ─────────────────────────

pub open spec fn message_plage(ouverture: Seq<char>, fermeture: Seq<char>) -> Seq<char> {
    "Plage horaire invalide : l'heure d'ouverture ("@ + ouverture
        + ") doit être avant l'heure de fermeture ("@ + fermeture + ")."@
}

/// Refus d'une plage : heure d'ouverture, heure de fermeture, puis ouverture
/// pas avant la fermeture (ordre des chaînes).
pub open spec fn erreur_plage(ouverture: Seq<char>, fermeture: Seq<char>) -> Option<Seq<char>> {
    if erreur_heure(ouverture) is Some {
        erreur_heure(ouverture)
    } else if erreur_heure(fermeture) is Some {
        erreur_heure(fermeture)
    } else if lex_inf_egal(fermeture, ouverture) {
        Some(message_plage(ouverture, fermeture))
    } else {
        None
    }
}

/// Valide une plage horaire d'ouverture : heures « HH:MM » valides et
/// ouverture avant fermeture.
pub fn valider_plage_horaire(heure_ouverture: &str, heure_fermeture: &str) -> (r: Result<
    (),
    String,
>)
    ensures
        match r {
            Ok(()) => erreur_plage(heure_ouverture@, heure_fermeture@) is None,
            Err(m) => erreur_plage(heure_ouverture@, heure_fermeture@) == Some(m@),
        },
{
    valider_heure(heure_ouverture)?;
    valider_heure(heure_fermeture)?;
    if !inferieur(heure_ouverture, heure_fermeture) {
        proof {
            crate::domaine::planning::lemme_lex_total(heure_ouverture@, heure_fermeture@);
        }
        let mut m = String::new();
        ajouter_texte(&mut m, "Plage horaire invalide : l'heure d'ouverture (");
        ajouter_texte(&mut m, heure_ouverture);
        ajouter_texte(&mut m, ") doit être avant l'heure de fermeture (");
        ajouter_texte(&mut m, heure_fermeture);
        ajouter_texte(&mut m, ").");
        return Err(m);
    }
    proof {
        crate::domaine::planning::lemme_lex_antisymetrique(heure_ouverture@, heure_fermeture@);
    }
    Ok(())
}

pub open spec fn message_debut_avant_ouverture(
    debut: Seq<char>,
    ouverture: Seq<char>,
    fermeture: Seq<char>,
) -> Seq<char> {
    "L'heure de début ("@ + debut + ") est avant l'ouverture de l'activité ("@ + ouverture
        + "). Les créneaux doivent être compris entre "@ + ouverture + " et "@ + fermeture
        + "."@
}

pub open spec fn message_fin_apres_fermeture(
    fin: Seq<char>,
    ouverture: Seq<char>,
    fermeture: Seq<char>,
) -> Seq<char> {
    "L'heure de fin ("@ + fin + ") est après la fermeture de l'activité ("@ + fermeture
        + "). Les créneaux doivent être compris entre "@ + ouverture + " et "@ + fermeture
        + "."@
}

/// Refus d'un créneau hors de la plage (ordre des chaînes) : début avant
/// l'ouverture, puis fin après la fermeture.
pub open spec fn erreur_creneau_plage(
    debut: Seq<char>,
    fin: Seq<char>,
    ouverture: Seq<char>,
    fermeture: Seq<char>,
) -> Option<Seq<char>> {
    if lex_inf(debut, ouverture) {
        Some(message_debut_avant_ouverture(debut, ouverture, fermeture))
    } else if lex_inf(fermeture, fin) {
        Some(message_fin_apres_fermeture(fin, ouverture, fermeture))
    } else {
        None
    }
}

/// Vérifie qu'un créneau est entièrement compris dans la plage d'ouverture.
pub fn valider_creneau_dans_plage(
    creneau: &CreateCreneau,
    heure_ouverture: &str,
    heure_fermeture: &str,
) -> (r: Result<(), String>)
    ensures
        match r {
            Ok(()) => erreur_creneau_plage(
                creneau.heure_debut@,
                creneau.heure_fin@,
                heure_ouverture@,
                heure_fermeture@,
            ) is None,
            Err(m) => erreur_creneau_plage(
                creneau.heure_debut@,
                creneau.heure_fin@,
                heure_ouverture@,
                heure_fermeture@,
            ) == Some(m@),
        },
{
    if inferieur(creneau.heure_debut.as_str(), heure_ouverture) {
        let mut m = String::new();
        ajouter_texte(&mut m, "L'heure de début (");
        ajouter_texte(&mut m, creneau.heure_debut.as_str());
        ajouter_texte(&mut m, ") est avant l'ouverture de l'activité (");
        ajouter_texte(&mut m, heure_ouverture);
        ajouter_texte(&mut m, "). Les créneaux doivent être compris entre ");
        ajouter_texte(&mut m, heure_ouverture);
        ajouter_texte(&mut m, " et ");
        ajouter_texte(&mut m, heure_fermeture);
        ajouter_texte(&mut m, ".");
        return Err(m);
    }
    if inferieur(heure_fermeture, creneau.heure_fin.as_str()) {
        let mut m = String::new();
        ajouter_texte(&mut m, "L'heure de fin (");
        ajouter_texte(&mut m, creneau.heure_fin.as_str());
        ajouter_texte(&mut m, ") est après la fermeture de l'activité (");
        ajouter_texte(&mut m, heure_fermeture);
        ajouter_texte(&mut m, "). Les créneaux doivent être compris entre ");
        ajouter_texte(&mut m, heure_ouverture);
        ajouter_texte(&mut m, " et ");
        ajouter_texte(&mut m, heure_fermeture);
        ajouter_texte(&mut m, ".");
        return Err(m);
    }
    Ok(())
}

// ───────────────────────── Heures et minutes ─────────────────────────

/// Convertit une heure « HH:MM » en minutes depuis minuit.
pub fn heure_en_minutes(heure: &str) -> (r: Option<u32>)
    ensures
        match minutes_de(heure@) {
            Some(n) => r == Some(n as u32),
            None => r is None,
        },
{
    lire_minutes(heure)
}

/// « HH:MM » d'un nombre de minutes (`{:02}:{:02}` des heures et des minutes).
pub open spec fn heure_texte(n: nat) -> Seq<char> {
    deux_chiffres(n / 60) + seq![':'] + deux_chiffres(n % 60)
}

proof fn lemme_deux_chiffres_exacts(x: nat)
    requires
        x < 100,
    ensures
        deux_chiffres(x) == seq![chiffre(x / 10), chiffre(x % 10)],
{
    if x >= 10 {
        reveal_with_fuel(decimal, 2);
        assert(decimal(x / 10) =~= seq![chiffre(x / 10)]);
    }
    assert(deux_chiffres(x) =~= seq![chiffre(x / 10), chiffre(x % 10)]);
}

proof fn lemme_heure_texte_chiffres(n: nat)
    requires
        n < 1440,
    ensures
        heure_texte(n) == seq![
            chiffre(n / 60 / 10),
            chiffre(n / 60 % 10),
            ':',
            chiffre(n % 60 / 10),
            chiffre(n % 60 % 10),
        ],
{
    lemme_deux_chiffres_exacts(n / 60);
    lemme_deux_chiffres_exacts(n % 60);
    assert(heure_texte(n) =~= seq![
        chiffre(n / 60 / 10),
        chiffre(n / 60 % 10),
        ':',
        chiffre(n % 60 / 10),
        chiffre(n % 60 % 10),
    ]);
}

/// Pour les heures écrites par `minutes_en_heure`, l'ordre des chaînes est
/// celui des horaires : la comparaison de textes « HH:MM » compare les heures.
pub proof fn loi_ordre_des_heures(n1: nat, n2: nat)
    requires
        n1 < 1440,
        n2 < 1440,
    ensures
        lex_inf(heure_texte(n1), heure_texte(n2)) <==> n1 < n2,
{
    lemme_heure_texte_chiffres(n1);
    lemme_heure_texte_chiffres(n2);
    let a = heure_texte(n1);
    let b = heure_texte(n2);
    let (h1, m1, h2, m2) = (n1 / 60, n1 % 60, n2 / 60, n2 % 60);
    assert(n1 == 60 * h1 + m1 && n2 == 60 * h2 + m2);
    assert(h1 == 10 * (h1 / 10) + h1 % 10 && h2 == 10 * (h2 / 10) + h2 % 10);
    assert(m1 == 10 * (m1 / 10) + m1 % 10 && m2 == 10 * (m2 / 10) + m2 % 10);
    assert(h1 / 10 < 10 && h2 / 10 < 10 && m1 / 10 < 6 && m2 / 10 < 6);
    let a1 = a.drop_first();
    let a2 = a1.drop_first();
    let a3 = a2.drop_first();
    let a4 = a3.drop_first();
    let b1 = b.drop_first();
    let b2 = b1.drop_first();
    let b3 = b2.drop_first();
    let b4 = b3.drop_first();
    assert(a4.drop_first().len() == 0 && b4.drop_first().len() == 0);
    reveal_with_fuel(lex_inf, 6);
}

/// Convertit des minutes depuis minuit en « HH:MM ».
pub fn minutes_en_heure(minutes: u32) -> (r: String)
    ensures
        r@ == heure_texte(minutes as nat),
{
    let mut r = String::new();
    ecrire_deux_chiffres(&mut r, (minutes / 60) as u64);
    pousser(&mut r, ':');
    ecrire_deux_chiffres(&mut r, (minutes % 60) as u64);
    r
}

/// Une heure lue compte moins de 24 × 60 minutes.
pub proof fn lemme_minutes_bornees(s: Seq<char>)
    ensures
        minutes_de(s) matches Some(n) ==> n < 1440,
{
}

// ───────────────────────── Place d'un créneau déplacé ─────────────────────────

/// Intervalle occupé lu depuis deux heures, s'il est lisible.
pub open spec fn lecture_intervalle(o: (String, String)) -> Option<(u32, u32)> {
    match (minutes_de(o.0@), minutes_de(o.1@)) {
        (Some(a), Some(b)) => Some((a as u32, b as u32)),
        _ => None,
    }
}

pub open spec fn intervalles(occupes: Seq<(String, String)>) -> Seq<Option<(u32, u32)>> {
    occupes.map_values(|o: (String, String)| lecture_intervalle(o))
}

/// `[s, s + d)` chevauche l'intervalle non vide `[a, b)`.
pub open spec fn chevauche(s: int, d: int, a: int, b: int) -> bool {
    a < b && a < s + d && s < b
}

pub open spec fn sans_chevauchement(s: int, d: int, p: Seq<Option<(u32, u32)>>) -> bool {
    forall|i: int|
        0 <= i < p.len() ==> match #[trigger] p[i] {
            Some((a, b)) => !chevauche(s, d, a as int, b as int),
            None => true,
        }
}

/// Le créneau `[s, s + d)` tient dans la plage sans chevaucher d'intervalle occupé.
pub open spec fn place_libre(s: int, d: int, ouv: int, ferm: int, p: Seq<Option<(u32, u32)>>) -> bool {
    ouv <= s && s + d <= ferm && sans_chevauchement(s, d, p)
}

pub open spec fn distance(s: int, c: int) -> int {
    if s >= c {
        s - c
    } else {
        c - s
    }
}

/// `s` est au moins aussi proche de `c` que `t`, le plus tôt l'emportant à
/// distance égale.
pub open spec fn au_moins_aussi_proche(s: int, t: int, c: int) -> bool {
    distance(s, c) < distance(t, c) || (distance(s, c) == distance(t, c) && s <= t)
}

/// `s` est la place libre la plus proche du début d'origine `c`.
pub open spec fn meilleure_place(
    s: int,
    c: int,
    d: int,
    ouv: int,
    ferm: int,
    p: Seq<Option<(u32, u32)>>,
) -> bool {
    place_libre(s, d, ouv, ferm, p) && forall|t: int|
        #[trigger] place_libre(t, d, ouv, ferm, p) ==> au_moins_aussi_proche(s, t, c)
}

/// Début retenu pour un créneau `[debut, fin)` déplacé dans la plage
/// `[ouverture, fermeture]` sans chevaucher les intervalles `occupes`.
pub open spec fn place_deplacement(
    debut: Seq<char>,
    fin: Seq<char>,
    ouverture: Seq<char>,
    fermeture: Seq<char>,
    occupes: Seq<(String, String)>,
) -> Option<int> {
    match (minutes_de(debut), minutes_de(fin), minutes_de(ouverture), minutes_de(fermeture)) {
        (Some(db), Some(f), Some(o), Some(fe)) => {
            let d = f - db;
            let p = intervalles(occupes);
            if f > db && exists|s: int| place_libre(s, d, o as int, fe as int, p) {
                Some(choose|s: int| meilleure_place(s, db as int, d, o as int, fe as int, p))
            } else {
                None
            }
        },
        _ => None,
    }
}

/// Durée du créneau en minutes (sens seulement si les heures sont lisibles).
pub open spec fn duree_creneau(debut: Seq<char>, fin: Seq<char>) -> int {
    minutes_de(fin).unwrap() - minutes_de(debut).unwrap()
}

/// Entrées sur lesquelles le calcul de place soustrait une ouverture plus
/// grande que la fermeture (dépassement de capacité de `u32`).
pub open spec fn deplacement_deborde(
    debut: Seq<char>,
    fin: Seq<char>,
    ouverture: Seq<char>,
    fermeture: Seq<char>,
) -> bool {
    match (minutes_de(debut), minutes_de(fin), minutes_de(ouverture), minutes_de(fermeture)) {
        (Some(db), Some(f), Some(o), Some(fe)) => f > db && o > fe,
        _ => false,
    }
}

/// Deux places les plus proches sont la même.
pub proof fn loi_meilleure_place_unique(
    s1: int,
    s2: int,
    c: int,
    d: int,
    ouv: int,
    ferm: int,
    p: Seq<Option<(u32, u32)>>,
)
    requires
        meilleure_place(s1, c, d, ouv, ferm, p),
        meilleure_place(s2, c, d, ouv, ferm, p),
    ensures
        s1 == s2,
{
    assert(place_libre(s2, d, ouv, ferm, p));
    assert(place_libre(s1, d, ouv, ferm, p));
}

fn intervalles_occupes(occupes: &[(String, String)]) -> (p: Vec<Option<(u32, u32)>>)
    ensures
        p@ == intervalles(occupes@),
        forall|i: int|
            0 <= i < p@.len() ==> (#[trigger] p@[i] matches Some((a, b)) ==> a < 1440 && b
                < 1440),
{
    let mut p: Vec<Option<(u32, u32)>> = Vec::new();
    let mut i: usize = 0;
    while i < occupes.len()
        invariant
            i <= occupes@.len(),
            p@ == intervalles(occupes@).subrange(0, i as int),
            forall|j: int|
                0 <= j < p@.len() ==> (#[trigger] p@[j] matches Some((a, b)) ==> a < 1440 && b
                    < 1440),
        decreases occupes.len() - i,
    {
        let a = heure_en_minutes(occupes[i].0.as_str());
        let b = heure_en_minutes(occupes[i].1.as_str());
        proof {
            lemme_minutes_bornees(occupes@[i as int].0@);
            lemme_minutes_bornees(occupes@[i as int].1@);
        }
        let e = match (a, b) {
            (Some(a), Some(b)) => Some((a, b)),
            _ => None,
        };
        p.push(e);
        assert(intervalles(occupes@).subrange(0, i + 1) =~= intervalles(occupes@).subrange(
            0,
            i as int,
        ).push(e));
        i = i + 1;
    }
    assert(intervalles(occupes@).subrange(0, occupes@.len() as int) =~= intervalles(occupes@));
    p
}

/// Le créneau `[s, s + d)` est-il libre ?
fn est_libre(s: u32, d: u32, ouv: u32, ferm: u32, p: &Vec<Option<(u32, u32)>>) -> (r: bool)
    requires
        s < 1440,
        d < 1440,
    ensures
        r == place_libre(s as int, d as int, ouv as int, ferm as int, p@),
{
    if s < ouv || s + d > ferm {
        return false;
    }
    let mut i: usize = 0;
    while i < p.len()
        invariant
            s < 1440,
            d < 1440,
            i <= p@.len(),
            forall|j: int|
                0 <= j < i ==> match #[trigger] p@[j] {
                    Some((a, b)) => !chevauche(s as int, d as int, a as int, b as int),
                    None => true,
                },
        decreases p.len() - i,
    {
        match p[i] {
            Some((a, b)) => {
                if a < b && a < s + d && s < b {
                    assert(!sans_chevauchement(s as int, d as int, p@)) by {
                        assert(p@[i as int] == Some((a, b)));
                    }
                    return false;
                }
            },
            None => {},
        }
        i = i + 1;
    }
    true
}

/// Le meilleur candidat retenu est au moins aussi proche de `c` que `x`.
spec fn domine(m: Option<u32>, x: int, c: int) -> bool {
    m matches Some(v) && au_moins_aussi_proche(v as int, x, c)
}

/// Le plus proche de `c` entre `m` (s'il existe) et `x`.
fn garder_plus_proche(m: Option<u32>, x: u32, c: u32) -> (r: Option<u32>)
    ensures
        r is Some,
        r == Some(x) || r == m,
        au_moins_aussi_proche(r->0 as int, x as int, c as int),
        m matches Some(v) ==> au_moins_aussi_proche(r->0 as int, v as int, c as int),
{
    match m {
        None => Some(x),
        Some(v) => {
            let dx = if x >= c {
                x - c
            } else {
                c - x
            };
            let dv = if v >= c {
                v - c
            } else {
                c - v
            };
            if dx < dv || (dx == dv && x < v) {
                Some(x)
            } else {
                Some(v)
            }
        },
    }
}

/// Le plus petit des débuts « juste avant un intervalle occupé » qui ne
/// précède pas `t`, borné par `init`.
spec fn borne_gauche(p: Seq<Option<(u32, u32)>>, t: int, d: int, init: int) -> int
    decreases p.len(),
{
    if p.len() == 0 {
        init
    } else {
        let r = borne_gauche(p.drop_last(), t, d, init);
        match p.last() {
            Some((a, b)) => if a < b && a - d >= t && a - d < r {
                a - d
            } else {
                r
            },
            None => r,
        }
    }
}

proof fn lemme_borne_gauche(p: Seq<Option<(u32, u32)>>, t: int, d: int, init: int)
    requires
        t <= init,
    ensures
        t <= borne_gauche(p, t, d, init) <= init,
        borne_gauche(p, t, d, init) == init || exists|j: int|
            0 <= j < p.len() && (#[trigger] p[j] matches Some((a, b)) && a < b
                && borne_gauche(p, t, d, init) == a - d),
        forall|j: int|
            0 <= j < p.len() ==> (#[trigger] p[j] matches Some((a, b)) ==> (a < b && a - d >= t
                ==> borne_gauche(p, t, d, init) <= a - d)),
    decreases p.len(),
{
    if p.len() > 0 {
        let q = p.drop_last();
        lemme_borne_gauche(q, t, d, init);
        assert forall|j: int| 0 <= j < q.len() implies q[j] == p[j] by {}
        let r = borne_gauche(q, t, d, init);
        if r != init {
            let j = choose|j: int|
                0 <= j < q.len() && (#[trigger] q[j] matches Some((a, b)) && a < b && r == a - d);
            assert(p[j] == q[j]);
        }
        assert(p[p.len() - 1] == p.last());
    }
}

/// Le plus grand des débuts « juste après un intervalle occupé » qui ne
/// dépasse pas `t`, borné par `init`.
spec fn borne_droite(p: Seq<Option<(u32, u32)>>, t: int, init: int) -> int
    decreases p.len(),
{
    if p.len() == 0 {
        init
    } else {
        let r = borne_droite(p.drop_last(), t, init);
        match p.last() {
            Some((a, b)) => if a < b && b <= t && b > r {
                b as int
            } else {
                r
            },
            None => r,
        }
    }
}

proof fn lemme_borne_droite(p: Seq<Option<(u32, u32)>>, t: int, init: int)
    requires
        init <= t,
    ensures
        init <= borne_droite(p, t, init) <= t,
        borne_droite(p, t, init) == init || exists|j: int|
            0 <= j < p.len() && (#[trigger] p[j] matches Some((a, b)) && a < b
                && borne_droite(p, t, init) == b),
        forall|j: int|
            0 <= j < p.len() ==> (#[trigger] p[j] matches Some((a, b)) ==> (a < b && b <= t
                ==> b <= borne_droite(p, t, init))),
    decreases p.len(),
{
    if p.len() > 0 {
        let q = p.drop_last();
        lemme_borne_droite(q, t, init);
        assert forall|j: int| 0 <= j < q.len() implies q[j] == p[j] by {}
        let r = borne_droite(q, t, init);
        if r != init {
            let j = choose|j: int|
                0 <= j < q.len() && (#[trigger] q[j] matches Some((a, b)) && a < b && r == b);
            assert(p[j] == q[j]);
        }
        assert(p[p.len() - 1] == p.last());
    }
}

/// Une place libre avant le début d'origine est dominée par le plus petit
/// candidat « juste avant un intervalle » (ou la borne) qui la suit.
proof fn lemme_domine_gauche(
    t: int,
    c: int,
    d: int,
    ouv: int,
    ferm: int,
    p: Seq<Option<(u32, u32)>>,
)
    requires
        place_libre(t, d, ouv, ferm, p),
        t < c,
        d > 0,
    ensures
        ({
            let g = borne_gauche(p, t, d, if c < ferm - d { c } else { ferm - d });
            &&& place_libre(g, d, ouv, ferm, p)
            &&& au_moins_aussi_proche(g, t, c)
            &&& (g == (if c < ferm - d { c } else { ferm - d }) || exists|j: int|
                0 <= j < p.len() && (#[trigger] p[j] matches Some((a, b)) && a < b && g == a - d))
        }),
{
    let init = if c < ferm - d {
        c
    } else {
        ferm - d
    };
    lemme_borne_gauche(p, t, d, init);
    let g = borne_gauche(p, t, d, init);
    assert forall|i: int| 0 <= i < p.len() implies match #[trigger] p[i] {
        Some((a, b)) => !chevauche(g, d, a as int, b as int),
        None => true,
    } by {
        match p[i] {
            Some((a, b)) => {
                assert(!chevauche(t, d, a as int, b as int));
            },
            None => {},
        }
    }
}

/// Une place libre après le début d'origine est dominée par le plus grand
/// candidat « juste après un intervalle » (ou la borne) qui la précède.
proof fn lemme_domine_droite(
    t: int,
    c: int,
    d: int,
    ouv: int,
    ferm: int,
    p: Seq<Option<(u32, u32)>>,
)
    requires
        place_libre(t, d, ouv, ferm, p),
        c < t,
        d > 0,
    ensures
        ({
            let g = borne_droite(p, t, if c > ouv { c } else { ouv });
            &&& place_libre(g, d, ouv, ferm, p)
            &&& au_moins_aussi_proche(g, t, c)
            &&& (g == (if c > ouv { c } else { ouv }) || exists|j: int|
                0 <= j < p.len() && (#[trigger] p[j] matches Some((a, b)) && a < b && g == b))
        }),
{
    let init = if c > ouv {
        c
    } else {
        ouv
    };
    lemme_borne_droite(p, t, init);
    let g = borne_droite(p, t, init);
    assert forall|i: int| 0 <= i < p.len() implies match #[trigger] p[i] {
        Some((a, b)) => !chevauche(g, d, a as int, b as int),
        None => true,
    } by {
        match p[i] {
            Some((a, b)) => {
                assert(!chevauche(t, d, a as int, b as int));
            },
            None => {},
        }
    }
}

/// Cherche la place libre la plus proche pour placer un créneau entièrement
/// dans la plage `[heure_ouverture, heure_fermeture]`, sur le même jour, sans
/// chevaucher `occupes` ; à distance égale, la plus tôt. `None` si une heure
/// est illisible, si le créneau est vide ou à l'envers, ou si aucune place ne
/// convient.
pub fn trouver_place_deplacement(
    heure_debut: &str,
    heure_fin: &str,
    heure_ouverture: &str,
    heure_fermeture: &str,
    occupes: &[(String, String)],
) -> (r: Option<(String, String)>)
    requires
        !deplacement_deborde(heure_debut@, heure_fin@, heure_ouverture@, heure_fermeture@),
    ensures
        match place_deplacement(
            heure_debut@,
            heure_fin@,
            heure_ouverture@,
            heure_fermeture@,
            occupes@,
        ) {
            Some(s) => r matches Some((x, y)) && x@ == heure_texte(s as nat) && y@ == heure_texte(
                (s + duree_creneau(heure_debut@, heure_fin@)) as nat,
            ),
            None => r is None,
        },
{
    proof {
        lemme_minutes_bornees(heure_debut@);
        lemme_minutes_bornees(heure_fin@);
        lemme_minutes_bornees(heure_ouverture@);
        lemme_minutes_bornees(heure_fermeture@);
    }
    let debut = match heure_en_minutes(heure_debut) {
        Some(v) => v,
        None => return None,
    };
    let fin = match heure_en_minutes(heure_fin) {
        Some(v) => v,
        None => return None,
    };
    let ouverture = match heure_en_minutes(heure_ouverture) {
        Some(v) => v,
        None => return None,
    };
    let fermeture = match heure_en_minutes(heure_fermeture) {
        Some(v) => v,
        None => return None,
    };
    if fin < debut {
        return None;
    }
    let duree = fin - debut;
    let ghost p_spec = intervalles(occupes@);
    if duree == 0 {
        return None;
    }
    if duree > fermeture - ouverture {
        assert forall|s: int| !place_libre(s, duree as int, ouverture as int, fermeture as int, p_spec) by {}
        return None;
    }
    let p = intervalles_occupes(occupes);
    let derniere = fermeture - duree;
    let c0 = if debut < ouverture {
        ouverture
    } else if debut > derniere {
        derniere
    } else {
        debut
    };
    let ghost d = duree as int;
    let ghost o = ouverture as int;
    let ghost fe = fermeture as int;
    let ghost c = debut as int;
    let mut meilleur: Option<u32> = None;
    if est_libre(c0, duree, ouverture, fermeture, &p) {
        meilleur = Some(c0);
    }
    let mut i: usize = 0;
    while i < p.len()
        invariant
            p@ == p_spec,
            forall|j: int|
                0 <= j < p@.len() ==> (#[trigger] p@[j] matches Some((a, b)) ==> a < 1440 && b
                    < 1440),
            i <= p@.len(),
            duree < 1440,
            d == duree,
            o == ouverture,
            fe == fermeture,
            c == debut,
            ouverture <= derniere,
            derniere == fermeture - duree,
            fermeture < 1440,
            meilleur matches Some(m) ==> place_libre(m as int, d, o, fe, p_spec),
            place_libre(c0 as int, d, o, fe, p_spec) ==> domine(meilleur, c0 as int, c),
            forall|j: int|
                0 <= j < i ==> (#[trigger] p_spec[j] matches Some((a, b)) ==> (a < b ==> ((
                place_libre(b as int, d, o, fe, p_spec) ==> domine(meilleur, b as int, c)) && (a
                >= duree && place_libre(a - d, d, o, fe, p_spec) ==> domine(meilleur, a - d, c))))),
        decreases p.len() - i,
    {
        let ghost avant = meilleur;
        match p[i] {
            Some((a, b)) => {
                if a < b {
                    if ouverture <= b && b <= derniere && est_libre(b, duree, ouverture, fermeture, &p) {
                        meilleur = garder_plus_proche(meilleur, b, debut);
                    }
                    if a >= duree {
                        let x = a - duree;
                        if ouverture <= x && x <= derniere && est_libre(x, duree, ouverture, fermeture, &p) {
                            meilleur = garder_plus_proche(meilleur, x, debut);
                        }
                    }
                }
            },
            None => {},
        }
        i = i + 1;
    }
    match meilleur {
        None => {
            assert forall|t: int| !place_libre(t, d, o, fe, p_spec) by {
                if place_libre(t, d, o, fe, p_spec) {
                    lemme_place_dominee(t, c, d, o, fe, c0 as int, p_spec);
                }
            }
            None
        },
        Some(s) => {
            assert forall|t: int| place_libre(t, d, o, fe, p_spec) implies au_moins_aussi_proche(
                s as int,
                t,
                c,
            ) by {
                lemme_place_dominee(t, c, d, o, fe, c0 as int, p_spec);
            }
            assert(meilleure_place(s as int, c, d, o, fe, p_spec));
            proof {
                let choisi = choose|x: int| meilleure_place(x, c, d, o, fe, p_spec);
                loi_meilleure_place_unique(s as int, choisi, c, d, o, fe, p_spec);
            }
            Some((minutes_en_heure(s), minutes_en_heure(s + duree)))
        },
    }
}

/// Toute place libre est dominée par un candidat examiné : le début d'origine
/// ramené dans la plage, une fin d'intervalle, ou un début d'intervalle moins
/// la durée.
proof fn lemme_place_dominee(
    t: int,
    c: int,
    d: int,
    ouv: int,
    ferm: int,
    c0: int,
    p: Seq<Option<(u32, u32)>>,
)
    requires
        place_libre(t, d, ouv, ferm, p),
        d > 0,
        ouv >= 0,
        c0 == (if c < ouv {
            ouv
        } else if c > ferm - d {
            ferm - d
        } else {
            c
        }),
    ensures
        place_libre(c0, d, ouv, ferm, p) && au_moins_aussi_proche(c0, t, c) || exists|j: int|
            0 <= j < p.len() && (#[trigger] p[j] matches Some((a, b)) && a < b && ((place_libre(
                b as int,
                d,
                ouv,
                ferm,
                p,
            ) && au_moins_aussi_proche(b as int, t, c)) || (a >= d && place_libre(
                a - d,
                d,
                ouv,
                ferm,
                p,
            ) && au_moins_aussi_proche(a - d, t, c)))),
{
    if t < c {
        lemme_domine_gauche(t, c, d, ouv, ferm, p);
    } else if c < t {
        lemme_domine_droite(t, c, d, ouv, ferm, p);
    }
}



// ───────────────────────── Lois du déplacement ─────────────────────────

spec fn garder(m: Option<int>, x: int, c: int) -> Option<int> {
    match m {
        None => Some(x),
        Some(v) => if distance(x, c) < distance(v, c) || (distance(x, c) == distance(v, c) && x
            < v) {
            Some(x)
        } else {
            Some(v)
        },
    }
}

/// Meilleur candidat parmi le début ramené dans la plage et les bornes des
/// `k` premiers intervalles.
spec fn meilleur_jusqua(
    p: Seq<Option<(u32, u32)>>,
    c: int,
    d: int,
    ouv: int,
    ferm: int,
    c0: int,
    k: nat,
) -> Option<int>
    decreases k,
{
    if k == 0 {
        if place_libre(c0, d, ouv, ferm, p) {
            Some(c0)
        } else {
            None
        }
    } else {
        let m = meilleur_jusqua(p, c, d, ouv, ferm, c0, (k - 1) as nat);
        match p[k - 1] {
            Some((a, b)) => if a < b {
                let m1 = if place_libre(b as int, d, ouv, ferm, p) {
                    garder(m, b as int, c)
                } else {
                    m
                };
                if a >= d && place_libre(a - d, d, ouv, ferm, p) {
                    garder(m1, a - d, c)
                } else {
                    m1
                }
            } else {
                m
            },
            None => m,
        }
    }
}

spec fn domine_spec(m: Option<int>, x: int, c: int) -> bool {
    m matches Some(v) && au_moins_aussi_proche(v, x, c)
}

proof fn lemme_meilleur_jusqua(
    p: Seq<Option<(u32, u32)>>,
    c: int,
    d: int,
    ouv: int,
    ferm: int,
    c0: int,
    k: nat,
)
    requires
        k <= p.len(),
    ensures
        meilleur_jusqua(p, c, d, ouv, ferm, c0, k) matches Some(v) ==> place_libre(
            v,
            d,
            ouv,
            ferm,
            p,
        ),
        place_libre(c0, d, ouv, ferm, p) ==> domine_spec(
            meilleur_jusqua(p, c, d, ouv, ferm, c0, k),
            c0,
            c,
        ),
        forall|j: int|
            0 <= j < k ==> (#[trigger] p[j] matches Some((a, b)) ==> (a < b ==> ((place_libre(
                b as int,
                d,
                ouv,
                ferm,
                p,
            ) ==> domine_spec(meilleur_jusqua(p, c, d, ouv, ferm, c0, k), b as int, c)) && (a
                >= d && place_libre(a - d, d, ouv, ferm, p) ==> domine_spec(
                meilleur_jusqua(p, c, d, ouv, ferm, c0, k),
                a - d,
                c,
            ))))),
    decreases k,
{
    if k > 0 {
        lemme_meilleur_jusqua(p, c, d, ouv, ferm, c0, (k - 1) as nat);
    }
}

/// S'il existe une place libre, il en existe une plus proche que toutes les
/// autres.
proof fn lemme_existe_meilleure(
    t: int,
    c: int,
    d: int,
    ouv: int,
    ferm: int,
    p: Seq<Option<(u32, u32)>>,
)
    requires
        place_libre(t, d, ouv, ferm, p),
        d > 0,
        ouv >= 0,
    ensures
        exists|s: int| meilleure_place(s, c, d, ouv, ferm, p),
{
    let c0 = if c < ouv {
        ouv
    } else if c > ferm - d {
        ferm - d
    } else {
        c
    };
    lemme_meilleur_jusqua(p, c, d, ouv, ferm, c0, p.len());
    let m = meilleur_jusqua(p, c, d, ouv, ferm, c0, p.len());
    lemme_place_dominee(t, c, d, ouv, ferm, c0, p);
    let s = m.unwrap();
    assert forall|u: int| place_libre(u, d, ouv, ferm, p) implies au_moins_aussi_proche(s, u, c) by {
        lemme_place_dominee(u, c, d, ouv, ferm, c0, p);
    }
    assert(meilleure_place(s, c, d, ouv, ferm, p));
}

/// La place retenue pour un créneau déplacé tient dans la plage, ne
/// chevauche aucun intervalle occupé lisible et non vide, et aucune autre
/// place libre n'est plus proche du début d'origine (à distance égale, la
/// plus tôt est retenue).
pub proof fn loi_place_retenue(
    debut: Seq<char>,
    fin: Seq<char>,
    ouverture: Seq<char>,
    fermeture: Seq<char>,
    occupes: Seq<(String, String)>,
)
    ensures
        place_deplacement(debut, fin, ouverture, fermeture, occupes) matches Some(s) ==> {
            let o = minutes_de(ouverture).unwrap() as int;
            let fe = minutes_de(fermeture).unwrap() as int;
            let d = duree_creneau(debut, fin);
            &&& o <= s && s + d <= fe
            &&& d > 0
            &&& sans_chevauchement(s, d, intervalles(occupes))
            &&& forall|t: int|
                #[trigger] place_libre(t, d, o, fe, intervalles(occupes))
                    ==> au_moins_aussi_proche(s, t, minutes_de(debut).unwrap() as int)
        },
{
    match (minutes_de(debut), minutes_de(fin), minutes_de(ouverture), minutes_de(fermeture)) {
        (Some(db), Some(f), Some(o), Some(fe)) => {
            let d = f - db;
            let p = intervalles(occupes);
            if f > db && exists|s: int| place_libre(s, d, o as int, fe as int, p) {
                let t = choose|s: int| place_libre(s, d, o as int, fe as int, p);
                lemme_existe_meilleure(t, db as int, d, o as int, fe as int, p);
            }
        },
        _ => {},
    }
}

/// Un créneau déjà libre dans la plage garde sa place.
pub proof fn loi_place_deja_libre(
    debut: Seq<char>,
    fin: Seq<char>,
    ouverture: Seq<char>,
    fermeture: Seq<char>,
    occupes: Seq<(String, String)>,
)
    requires
        minutes_de(debut) is Some,
        minutes_de(fin) is Some,
        minutes_de(ouverture) is Some,
        minutes_de(fermeture) is Some,
        minutes_de(debut).unwrap() < minutes_de(fin).unwrap(),
        place_libre(
            minutes_de(debut).unwrap() as int,
            duree_creneau(debut, fin),
            minutes_de(ouverture).unwrap() as int,
            minutes_de(fermeture).unwrap() as int,
            intervalles(occupes),
        ),
    ensures
        place_deplacement(debut, fin, ouverture, fermeture, occupes) == Some(
            minutes_de(debut).unwrap() as int,
        ),
{
    let db = minutes_de(debut).unwrap() as int;
    let d = duree_creneau(debut, fin);
    let o = minutes_de(ouverture).unwrap() as int;
    let fe = minutes_de(fermeture).unwrap() as int;
    let p = intervalles(occupes);
    assert(meilleure_place(db, db, d, o, fe, p));
    let x = choose|x: int| meilleure_place(x, db, d, o, fe, p);
    loi_meilleure_place_unique(x, db, db, d, o, fe, p);
}

/// Relire l'heure écrite pour un nombre de minutes de la journée redonne ce
/// nombre : `heure_en_minutes(minutes_en_heure(n)) == Some(n)`.
pub proof fn loi_aller_retour_minutes(n: nat)
    requires
        n < 1440,
    ensures
        minutes_de(heure_texte(n)) == Some(n),
{
    crate::domaine::planning::lemme_relecture(n / 60, n % 60);
}

// ───────────────────────── Impacts d'une réduction de plage ─────────────────────────

/// Action appliquée à un créneau lors d'une réduction de plage.
#[derive(PartialEq, Eq, Structural, Clone, Copy, Debug)]
pub enum ImpactAction {
    Supprime,
    Deplace,
    DeplaceImpossible,
}

/// Impact d'une réduction de plage sur un créneau.
pub struct ImpactCreneau {
    pub creneau_id: i64,
    pub activite_id: i64,
    pub activite_nom: String,
    pub jour_semaine: i64,
    pub heure_debut: String,
    pub heure_fin: String,
    pub annee_scolaire: String,
    pub action: ImpactAction,
    pub nouveau_debut: Option<String>,
    pub nouveau_fin: Option<String>,
    pub raison: Option<String>,
}

} // verus!
