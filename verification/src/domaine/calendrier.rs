//! Dates du calendrier grégorien proleptique (celui de `chrono::NaiveDate`).
use chrono::Datelike;
use vstd::prelude::*;

verus! {

/// Plus petite année d'une date chrono.
pub const ANNEE_MIN: i32 = -262143i32;

/// Plus grande année d'une date chrono.
pub const ANNEE_MAX: i32 = 262142i32;

pub open spec fn bissextile(a: int) -> bool {
    a % 4 == 0 && (a % 100 != 0 || a % 400 == 0)
}

pub open spec fn jours_dans_mois(a: int, m: int) -> int {
    if m == 2 {
        if bissextile(a) {
            29
        } else {
            28
        }
    } else if m == 4 || m == 6 || m == 9 || m == 11 {
        30
    } else {
        31
    }
}

/// Date civile existante, dans les bornes de chrono.
pub open spec fn date_valide(a: int, m: int, j: int) -> bool {
    &&& ANNEE_MIN <= a <= ANNEE_MAX
    &&& 1 <= m <= 12
    &&& 1 <= j <= jours_dans_mois(a, m)
}

/// Nombre de jours de l'année qui précèdent le mois `m`.
pub open spec fn jours_avant_mois(a: int, m: int) -> int
    decreases m,
{
    if m <= 1 {
        0
    } else {
        jours_avant_mois(a, m - 1) + jours_dans_mois(a, m - 1)
    }
}

/// Rang du jour dans l'année, à partir de 1 (`Datelike::ordinal`).
pub open spec fn quantieme(a: int, m: int, j: int) -> int {
    jours_avant_mois(a, m) + j
}

/// Jour de la semaine, 0 pour lundi à 6 pour dimanche
/// (`Weekday::num_days_from_monday`). Décompte des jours depuis le 1er mars
/// d'une année décalée de 400 000 ans (un nombre entier de semaines), le
/// 1er mars de l'an 0 étant un mercredi.
pub open spec fn jour_semaine_iso(a: int, m: int, j: int) -> int {
    let aa = (if m <= 2 {
        a - 1
    } else {
        a
    }) + 400000;
    let mp = if m > 2 {
        m - 3
    } else {
        m + 9
    };
    (365 * aa + aa / 4 - aa / 100 + aa / 400 + (153 * mp + 2) / 5 + j - 1 + 2) % 7
}

/// Ordre chronologique strict.
pub open spec fn avant(x: (int, int, int), y: (int, int, int)) -> bool {
    x.0 < y.0 || (x.0 == y.0 && (x.1 < y.1 || (x.1 == y.1 && x.2 < y.2)))
}

pub fn est_bissextile(a: i32) -> (r: bool)
    ensures
        r == bissextile(a as int),
{
    let x = a as i64;
    // `%` de Rust est le reste tronqué : un reste nul l'est aussi au sens euclidien.
    x % 4 == 0 && (x % 100 != 0 || x % 400 == 0)
}

pub fn nb_jours_mois(a: i32, m: u32) -> (r: u32)
    ensures
        r == jours_dans_mois(a as int, m as int),
{
    if m == 2 {
        if est_bissextile(a) {
            29
        } else {
            28
        }
    } else if m == 4 || m == 6 || m == 9 || m == 11 {
        30
    } else {
        31
    }
}

/// Date du calendrier (année, mois, jour), toujours valide.
#[derive(Clone, Copy)]
pub struct DateCivile {
    annee: i32,
    mois: u32,
    jour: u32,
}

impl View for DateCivile {
    type V = (int, int, int);

    closed spec fn view(&self) -> (int, int, int) {
        (self.annee as int, self.mois as int, self.jour as int)
    }
}

impl DateCivile {
    #[verifier::type_invariant]
    spec fn bien_formee(self) -> bool {
        date_valide(self.annee as int, self.mois as int, self.jour as int)
    }

    /// Date à partir d'une année, d'un mois et d'un jour qui forment une date valide.
    pub fn depuis_valide(annee: i32, mois: u32, jour: u32) -> (d: DateCivile)
        requires
            date_valide(annee as int, mois as int, jour as int),
        ensures
            d@ == (annee as int, mois as int, jour as int),
    {
        DateCivile { annee, mois, jour }
    }

    /// `NaiveDate::from_ymd_opt` : la date si elle existe dans les bornes.
    pub fn from_ymd_opt(annee: i32, mois: u32, jour: u32) -> (r: Option<DateCivile>)
        ensures
            r is Some <==> date_valide(annee as int, mois as int, jour as int),
            r matches Some(d) ==> d@ == (annee as int, mois as int, jour as int),
    {
        if ANNEE_MIN <= annee && annee <= ANNEE_MAX && 1 <= mois && mois <= 12 && 1 <= jour && jour
            <= nb_jours_mois(annee, mois) {
            Some(DateCivile { annee, mois, jour })
        } else {
            None
        }
    }

    pub fn annee(&self) -> (r: i32)
        ensures
            r == self@.0,
            date_valide(self@.0, self@.1, self@.2),
    {
        proof {
            use_type_invariant(self);
        }
        self.annee
    }

    pub fn mois(&self) -> (r: u32)
        ensures
            r == self@.1,
            date_valide(self@.0, self@.1, self@.2),
    {
        proof {
            use_type_invariant(self);
        }
        self.mois
    }

    pub fn jour(&self) -> (r: u32)
        ensures
            r == self@.2,
            date_valide(self@.0, self@.1, self@.2),
    {
        proof {
            use_type_invariant(self);
        }
        self.jour
    }

    /// Rang du jour dans l'année (1 pour le 1er janvier).
    pub fn quantieme(&self) -> (r: u32)
        ensures
            r == quantieme(self@.0, self@.1, self@.2),
            1 <= r <= 366,
    {
        proof {
            use_type_invariant(self);
        }
        let mut total: u32 = 0;
        let mut m: u32 = 1;
        while m < self.mois
            invariant
                1 <= m <= self.mois <= 12,
                total == jours_avant_mois(self.annee as int, m as int),
                total <= 31 * (m - 1),
            decreases self.mois - m,
        {
            total = total + nb_jours_mois(self.annee, m);
            m = m + 1;
        }
        proof {
            lemme_jours_avant_mois(self.annee as int, self.mois as int);
        }
        total + self.jour
    }

    /// Jour de la semaine, 0 pour lundi à 6 pour dimanche.
    pub fn jours_depuis_lundi(&self) -> (r: u32)
        ensures
            r == jour_semaine_iso(self@.0, self@.1, self@.2),
            r < 7,
    {
        proof {
            use_type_invariant(self);
        }
        let decale: i64 = if self.mois <= 2 {
            self.annee as i64 - 1
        } else {
            self.annee as i64
        } + 400000;
        let aa = decale as u64;
        let mp: u64 = if self.mois > 2 {
            (self.mois - 3) as u64
        } else {
            (self.mois + 9) as u64
        };
        let total = 365 * aa + aa / 4 - aa / 100 + aa / 400 + (153 * mp + 2) / 5 + self.jour as u64
            - 1 + 2;
        (total % 7) as u32
    }

    /// Ordre chronologique strict.
    pub fn est_avant(&self, autre: &DateCivile) -> (r: bool)
        ensures
            r == avant(self@, autre@),
    {
        self.annee < autre.annee || (self.annee == autre.annee && (self.mois < autre.mois || (
        self.mois == autre.mois && self.jour < autre.jour)))
    }
}

proof fn lemme_jours_avant_mois(a: int, m: int)
    requires
        1 <= m <= 12,
    ensures
        jours_avant_mois(a, m) + jours_dans_mois(a, m) <= 366,
    decreases m,
{
    reveal_with_fuel(jours_avant_mois, 12);
}

proof fn lemme_jours_avant_croissant(a: int, m1: int, m2: int)
    requires
        1 <= m1 < m2,
    ensures
        jours_avant_mois(a, m1) + jours_dans_mois(a, m1) <= jours_avant_mois(a, m2),
    decreases m2,
{
    if m2 > m1 + 1 {
        lemme_jours_avant_croissant(a, m1, m2 - 1);
    }
}

/// Dans une même année, le rang du jour suit l'ordre des dates.
pub proof fn lemme_quantieme_croissant(x: (int, int, int), y: (int, int, int))
    requires
        date_valide(x.0, x.1, x.2),
        date_valide(y.0, y.1, y.2),
        x.0 == y.0,
        !avant(y, x),
    ensures
        quantieme(x.0, x.1, x.2) <= quantieme(y.0, y.1, y.2),
{
    if x.1 < y.1 {
        lemme_jours_avant_croissant(x.0, x.1, y.1);
    }
}

/// Le jour qui suit une date du calendrier.
pub open spec fn lendemain(d: (int, int, int)) -> (int, int, int) {
    if d.2 < jours_dans_mois(d.0, d.1) {
        (d.0, d.1, d.2 + 1)
    } else if d.1 < 12 {
        (d.0, d.1 + 1, 1)
    } else {
        (d.0 + 1, 1, 1)
    }
}

/// Nombre de jours écoulés, à une constante près, selon la formule du jour
/// de la semaine.
spec fn rang_du_jour(a: int, m: int, j: int) -> int {
    let aa = (if m <= 2 {
        a - 1
    } else {
        a
    }) + 400000;
    let mp = if m > 2 {
        m - 3
    } else {
        m + 9
    };
    365 * aa + aa / 4 - aa / 100 + aa / 400 + (153 * mp + 2) / 5 + j - 1 + 2
}

proof fn lemme_saut_multiple(x: int)
    requires
        x > 0,
    ensures
        x / 4 - (x - 1) / 4 == (if x % 4 == 0 { 1int } else { 0int }),
        x / 100 - (x - 1) / 100 == (if x % 100 == 0 { 1int } else { 0int }),
        x / 400 - (x - 1) / 400 == (if x % 400 == 0 { 1int } else { 0int }),
{
}

proof fn lemme_rang_suivant(d: (int, int, int))
    requires
        date_valide(d.0, d.1, d.2),
    ensures
        rang_du_jour(lendemain(d).0, lendemain(d).1, lendemain(d).2) == rang_du_jour(d.0, d.1, d.2) + 1,
{
    let (a, m, j) = d;
    if j < jours_dans_mois(a, m) {
    } else if m == 2 {
        let x = a + 400000;
        lemme_saut_multiple(x);
        assert(x % 4 == a % 4 && x % 100 == a % 100 && x % 400 == a % 400);
    } else {
    }
}

/// Le jour de la semaine suit le calendrier : le lendemain d'une date (y
/// compris d'un mois ou d'une année à l'autre) est le jour de semaine suivant,
/// et le 1er septembre 2025 est un lundi. Ainsi une date est un lundi
/// exactement quand elle est à un multiple de 7 jours d'un lundi connu.
pub proof fn loi_jour_suivant(d: (int, int, int))
    requires
        date_valide(d.0, d.1, d.2),
        date_valide(lendemain(d).0, lendemain(d).1, lendemain(d).2),
    ensures
        jour_semaine_iso(lendemain(d).0, lendemain(d).1, lendemain(d).2) == (jour_semaine_iso(
            d.0,
            d.1,
            d.2,
        ) + 1) % 7,
        jour_semaine_iso(2025, 9, 1) == 0,
{
    lemme_rang_suivant(d);
    let n = lendemain(d);
    assert(jour_semaine_iso(n.0, n.1, n.2) == rang_du_jour(n.0, n.1, n.2) % 7);
    assert(jour_semaine_iso(d.0, d.1, d.2) == rang_du_jour(d.0, d.1, d.2) % 7);
    let t = rang_du_jour(d.0, d.1, d.2);
    assert((t + 1) % 7 == (t % 7 + 1) % 7);
}

/// Date du jour dans le fuseau local, lue par
/// `chrono::Local::now().naive_local().date()`.
///
/// Le contrat affirme seulement que c'est une date valide dans les bornes
/// de chrono ; laquelle dépend de l'horloge.
#[verifier::external_body]
fn date_locale_du_jour() -> (r: (i32, u32, u32))
    ensures
        date_valide(r.0 as int, r.1 as int, r.2 as int),
{
    let d = chrono::Local::now().naive_local().date();
    (d.year(), d.month(), d.day())
}

/// Date du jour (horloge locale).
pub fn aujourd_hui() -> (d: DateCivile)
    ensures
        date_valide(d@.0, d@.1, d@.2),
{
    let (a, m, j) = date_locale_du_jour();
    DateCivile::depuis_valide(a, m, j)
}

} // verus!
