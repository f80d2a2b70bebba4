//! Requêtes de la recherche de personnes : texte SQL du comptage et de la
//! page demandée, et valeurs à lier à leurs `?`, dans l'ordre.
use vstd::prelude::*;

use crate::domaine::personne::{CriteresRecherchePersonnes, Pagination};
use crate::domaine::planning::nb_occurrences;
use crate::texte::{ajouter_texte, copie, pousser};

verus! {

/// Filtre du texte libre : quatre colonnes comparées sans tenir compte de la casse.
pub const CONDITION_TEXTE_LIBRE: &'static str = "(LOWER(pp.nom) LIKE LOWER(?) OR LOWER(pp.prenom) LIKE LOWER(?) OR LOWER(pp.email) LIKE LOWER(?) OR LOWER(pp.telephone) LIKE LOWER(?))";

/// Filtre des adhérents : une adhésion pour l'année scolaire liée.
pub const CONDITION_ADHERENT: &'static str = "EXISTS (SELECT 1 FROM adhesions a WHERE a.personne_id = pp.id AND a.annee_scolaire = ?)";

pub const DEBUT_COMPTAGE: &'static str = "SELECT COUNT(*) AS count FROM personnes_physiques pp";

pub const DEBUT_DONNEES: &'static str = "SELECT pp.id, pp.nom, pp.prenom, pp.date_naissance, pp.email, pp.telephone, pp.responsable_id, pp.version\n                 FROM personnes_physiques pp";

pub const TRI: &'static str = " ORDER BY pp.nom, pp.prenom";

pub const LIMITE: &'static str = " LIMIT ? OFFSET ?";

/// Une valeur liée à un `?` de la requête.
pub enum ValeurParam {
    Texte(String),
    Entier(i64),
}

/// Vue d'une valeur liée : (est un texte, le texte, l'entier).
pub open spec fn vue_param(p: ValeurParam) -> (bool, Seq<char>, int) {
    match p {
        ValeurParam::Texte(s) => (true, s@, 0),
        ValeurParam::Entier(n) => (false, Seq::empty(), n as int),
    }
}

pub open spec fn vue_params(v: Seq<ValeurParam>) -> Seq<(bool, Seq<char>, int)> {
    v.map_values(|p: ValeurParam| vue_param(p))
}

/// Les deux requêtes d'une recherche et leurs valeurs.
pub struct PlanRecherche {
    pub sql_comptage: String,
    pub params_comptage: Vec<ValeurParam>,
    pub sql_donnees: String,
    pub params_donnees: Vec<ValeurParam>,
}

/// Motif `LIKE` : le texte entouré de `%`.
pub open spec fn motif(t: Seq<char>) -> Seq<char> {
    seq!['%'] + t + seq!['%']
}

/// Clause `WHERE` : vide sans filtre, sinon `1=1` suivi des filtres actifs.
pub open spec fn clause_where(texte: bool, adherent: bool) -> Seq<char> {
    if texte && adherent {
        " WHERE 1=1 AND "@ + CONDITION_TEXTE_LIBRE@ + " AND "@ + CONDITION_ADHERENT@
    } else if texte {
        " WHERE 1=1 AND "@ + CONDITION_TEXTE_LIBRE@
    } else if adherent {
        " WHERE 1=1 AND "@ + CONDITION_ADHERENT@
    } else {
        Seq::empty()
    }
}

/// Valeurs des filtres : le motif pour chacune des quatre colonnes, puis
/// l'année scolaire.
pub open spec fn valeurs_filtres(texte_libre: Option<Seq<char>>, adherent: bool, annee: Seq<char>) -> Seq<
    (bool, Seq<char>, int),
> {
    let m = (true, motif(texte_libre.unwrap_or(Seq::empty())), 0int);
    (if texte_libre is Some {
        seq![m, m, m, m]
    } else {
        Seq::empty()
    }) + (if adherent {
        seq![(true, annee, 0int)]
    } else {
        Seq::empty()
    })
}

/// Rang du premier résultat de la page.
pub open spec fn decalage(p: Pagination) -> int {
    if p.par_page > 0 {
        (p.page - 1) * p.par_page
    } else {
        0
    }
}

pub open spec fn vue_texte_libre(c: &CriteresRecherchePersonnes) -> Option<Seq<char>> {
    match c.texte_libre {
        Some(t) => Some(t@),
        None => None,
    }
}

/// Valeurs liées aux filtres, dans l'ordre des `?` de la clause `WHERE`.
fn valeurs_des_filtres(criteres: &CriteresRecherchePersonnes, annee_scolaire: &str) -> (r: Vec<
    ValeurParam,
>)
    ensures
        vue_params(r@) == valeurs_filtres(
            vue_texte_libre(criteres),
            criteres.adherent_uniquement,
            annee_scolaire@,
        ),
{
    let mut r: Vec<ValeurParam> = Vec::new();
    match &criteres.texte_libre {
        Some(t) => {
            let mut m = String::new();
            pousser(&mut m, '%');
            ajouter_texte(&mut m, t.as_str());
            pousser(&mut m, '%');
            assert(m@ == motif(t@));
            r.push(ValeurParam::Texte(copie(m.as_str())));
            r.push(ValeurParam::Texte(copie(m.as_str())));
            r.push(ValeurParam::Texte(copie(m.as_str())));
            r.push(ValeurParam::Texte(m));
        },
        None => {},
    }
    if criteres.adherent_uniquement {
        r.push(ValeurParam::Texte(copie(annee_scolaire)));
    }
    assert(vue_params(r@) =~= valeurs_filtres(
        vue_texte_libre(criteres),
        criteres.adherent_uniquement,
        annee_scolaire@,
    ));
    r
}

/// Le plan d'une recherche : la requête de comptage sur les personnes
/// retenues par les filtres, et celle de la page demandée, triée par nom puis
/// prénom et, si `par_page` est non nul, limitée à `par_page` lignes à partir
/// du rang `(page - 1) * par_page` ; chacune avec ses valeurs, dans l'ordre.
pub open spec fn plan_conforme(
    r: PlanRecherche,
    criteres: CriteresRecherchePersonnes,
    pagination: Pagination,
    annee_scolaire: Seq<char>,
) -> bool {
    let clause = clause_where(criteres.texte_libre is Some, criteres.adherent_uniquement);
    let filtres = valeurs_filtres(
        vue_texte_libre(&criteres),
        criteres.adherent_uniquement,
        annee_scolaire,
    );
    &&& r.sql_comptage@ == DEBUT_COMPTAGE@ + clause
    &&& vue_params(r.params_comptage@) == filtres
    &&& r.sql_donnees@ == DEBUT_DONNEES@ + clause + TRI@ + (if pagination.par_page > 0 {
        LIMITE@
    } else {
        Seq::empty()
    })
    &&& vue_params(r.params_donnees@) == filtres + (if pagination.par_page > 0 {
        seq![
            (false, Seq::<char>::empty(), pagination.par_page as int),
            (false, Seq::<char>::empty(), decalage(pagination)),
        ]
    } else {
        Seq::empty()
    })
}

/// Construit la requête de comptage et celle de la page demandée.
pub fn plan_recherche(
    criteres: &CriteresRecherchePersonnes,
    pagination: Pagination,
    annee_scolaire: &str,
) -> (r: PlanRecherche)
    requires
        pagination.par_page > 0 ==> pagination.page >= 1 && (pagination.page - 1) * pagination.par_page
            <= u32::MAX,
    ensures
        plan_conforme(r, *criteres, pagination, annee_scolaire@),
{
    let texte = criteres.texte_libre.is_some();
    let adherent = criteres.adherent_uniquement;
    let mut clause = String::new();
    if texte || adherent {
        ajouter_texte(&mut clause, " WHERE 1=1 AND ");
        if texte {
            ajouter_texte(&mut clause, CONDITION_TEXTE_LIBRE);
        }
        if texte && adherent {
            ajouter_texte(&mut clause, " AND ");
        }
        if adherent {
            ajouter_texte(&mut clause, CONDITION_ADHERENT);
        }
    }
    assert(clause@ =~= clause_where(texte, adherent));

    let mut sql_comptage = copie(DEBUT_COMPTAGE);
    ajouter_texte(&mut sql_comptage, clause.as_str());

    let mut sql_donnees = copie(DEBUT_DONNEES);
    ajouter_texte(&mut sql_donnees, clause.as_str());
    ajouter_texte(&mut sql_donnees, TRI);
    if pagination.par_page > 0 {
        ajouter_texte(&mut sql_donnees, LIMITE);
    }
    proof {
        if pagination.par_page == 0 {
            assert(sql_donnees@ =~= DEBUT_DONNEES@ + clause@ + TRI@ + Seq::<char>::empty());
        }
    }

    let params_comptage = valeurs_des_filtres(criteres, annee_scolaire);
    let mut params_donnees = valeurs_des_filtres(criteres, annee_scolaire);
    let ghost filtres = params_donnees@;
    if pagination.par_page > 0 {
        let decal: u32 = (pagination.page - 1) * pagination.par_page;
        params_donnees.push(ValeurParam::Entier(pagination.par_page as i64));
        params_donnees.push(ValeurParam::Entier(decal as i64));
        assert(vue_params(params_donnees@) =~= vue_params(filtres) + seq![
            (false, Seq::<char>::empty(), pagination.par_page as int),
            (false, Seq::<char>::empty(), decalage(pagination)),
        ]);
    } else {
        assert(vue_params(params_donnees@) =~= vue_params(filtres) + Seq::empty());
    }
    PlanRecherche { sql_comptage, params_comptage, sql_donnees, params_donnees }
}


// ───────────────────────── Marques et valeurs ─────────────────────────

/// Nombre de `c` parmi `s[i..j)`.
spec fn nb_entre(s: Seq<char>, c: char, i: int, j: int) -> nat
    decreases j - i,
{
    if j <= i {
        0
    } else {
        nb_entre(s, c, i, j - 1) + if s[j - 1] == c {
            1nat
        } else {
            0nat
        }
    }
}

proof fn lemme_entre_coupe(s: Seq<char>, c: char, i: int, k: int, j: int)
    requires
        i <= k <= j,
    ensures
        nb_entre(s, c, i, j) == nb_entre(s, c, i, k) + nb_entre(s, c, k, j),
    decreases j - k,
{
    if j > k {
        lemme_entre_coupe(s, c, i, k, j - 1);
    }
}

proof fn lemme_entre_memes(s: Seq<char>, t: Seq<char>, c: char, i: int, j: int)
    requires
        forall|k: int| i <= k < j ==> s[k] == t[k],
    ensures
        nb_entre(s, c, i, j) == nb_entre(t, c, i, j),
    decreases j - i,
{
    if j > i {
        lemme_entre_memes(s, t, c, i, j - 1);
    }
}

proof fn lemme_occurrences_entre(s: Seq<char>, c: char)
    ensures
        nb_occurrences(s, c) == nb_entre(s, c, 0, s.len() as int),
    decreases s.len(),
{
    if s.len() > 0 {
        let d = s.drop_last();
        lemme_occurrences_entre(d, c);
        lemme_entre_memes(d, s, c, 0, d.len() as int);
    }
}

proof fn lemme_occurrences_concat(a: Seq<char>, b: Seq<char>, c: char)
    ensures
        nb_occurrences(a + b, c) == nb_occurrences(a, c) + nb_occurrences(b, c),
    decreases b.len(),
{
    if b.len() > 0 {
        lemme_occurrences_concat(a, b.drop_last(), c);
        assert((a + b).drop_last() =~= a + b.drop_last());
        assert((a + b).last() == b.last());
    } else {
        assert(a + b =~= a);
    }
}

proof fn lemme_marques_condition_texte_libre()
    ensures
        nb_occurrences(CONDITION_TEXTE_LIBRE@, '?') == 4,
{
    reveal_strlit("(LOWER(pp.nom) LIKE LOWER(?) OR LOWER(pp.prenom) LIKE LOWER(?) OR LOWER(pp.email) LIKE LOWER(?) OR LOWER(pp.telephone) LIKE LOWER(?))");
    let s = CONDITION_TEXTE_LIBRE@;
    assert(s.len() == 133);
    lemme_occurrences_entre(s, '?');
    reveal_with_fuel(nb_entre, 26);
    assert(nb_entre(s, '?', 0, 25) == 0);
    assert(nb_entre(s, '?', 25, 50) == 1);
    assert(nb_entre(s, '?', 50, 75) == 1);
    assert(nb_entre(s, '?', 75, 100) == 1);
    assert(nb_entre(s, '?', 100, 125) == 0);
    assert(nb_entre(s, '?', 125, 133) == 1);
    lemme_entre_coupe(s, '?', 0, 25, 50);
    lemme_entre_coupe(s, '?', 0, 50, 75);
    lemme_entre_coupe(s, '?', 0, 75, 100);
    lemme_entre_coupe(s, '?', 0, 100, 125);
    lemme_entre_coupe(s, '?', 0, 125, 133);
}

proof fn lemme_marques_condition_adherent()
    ensures
        nb_occurrences(CONDITION_ADHERENT@, '?') == 1,
{
    reveal_strlit("EXISTS (SELECT 1 FROM adhesions a WHERE a.personne_id = pp.id AND a.annee_scolaire = ?)");
    let s = CONDITION_ADHERENT@;
    assert(s.len() == 87);
    lemme_occurrences_entre(s, '?');
    reveal_with_fuel(nb_entre, 26);
    assert(nb_entre(s, '?', 0, 25) == 0);
    assert(nb_entre(s, '?', 25, 50) == 0);
    assert(nb_entre(s, '?', 50, 75) == 0);
    assert(nb_entre(s, '?', 75, 87) == 1);
    lemme_entre_coupe(s, '?', 0, 25, 50);
    lemme_entre_coupe(s, '?', 0, 50, 75);
    lemme_entre_coupe(s, '?', 0, 75, 87);
}

proof fn lemme_marques_debut_comptage()
    ensures
        nb_occurrences(DEBUT_COMPTAGE@, '?') == 0,
{
    reveal_strlit("SELECT COUNT(*) AS count FROM personnes_physiques pp");
    let s = DEBUT_COMPTAGE@;
    assert(s.len() == 52);
    lemme_occurrences_entre(s, '?');
    reveal_with_fuel(nb_entre, 26);
    assert(nb_entre(s, '?', 0, 25) == 0);
    assert(nb_entre(s, '?', 25, 50) == 0);
    assert(nb_entre(s, '?', 50, 52) == 0);
    lemme_entre_coupe(s, '?', 0, 25, 50);
    lemme_entre_coupe(s, '?', 0, 50, 52);
}

proof fn lemme_marques_debut_donnees()
    ensures
        nb_occurrences(DEBUT_DONNEES@, '?') == 0,
{
    reveal_strlit("SELECT pp.id, pp.nom, pp.prenom, pp.date_naissance, pp.email, pp.telephone, pp.responsable_id, pp.version\n                 FROM personnes_physiques pp");
    let s = DEBUT_DONNEES@;
    assert(s.len() == 150);
    lemme_occurrences_entre(s, '?');
    reveal_with_fuel(nb_entre, 26);
    assert(nb_entre(s, '?', 0, 25) == 0);
    assert(nb_entre(s, '?', 25, 50) == 0);
    assert(nb_entre(s, '?', 50, 75) == 0);
    assert(nb_entre(s, '?', 75, 100) == 0);
    assert(nb_entre(s, '?', 100, 125) == 0);
    assert(nb_entre(s, '?', 125, 150) == 0);
    lemme_entre_coupe(s, '?', 0, 25, 50);
    lemme_entre_coupe(s, '?', 0, 50, 75);
    lemme_entre_coupe(s, '?', 0, 75, 100);
    lemme_entre_coupe(s, '?', 0, 100, 125);
    lemme_entre_coupe(s, '?', 0, 125, 150);
}

proof fn lemme_marques_tri()
    ensures
        nb_occurrences(TRI@, '?') == 0,
{
    reveal_strlit(" ORDER BY pp.nom, pp.prenom");
    let s = TRI@;
    assert(s.len() == 27);
    lemme_occurrences_entre(s, '?');
    reveal_with_fuel(nb_entre, 26);
    assert(nb_entre(s, '?', 0, 25) == 0);
    assert(nb_entre(s, '?', 25, 27) == 0);
    lemme_entre_coupe(s, '?', 0, 25, 27);
}

proof fn lemme_marques_limite()
    ensures
        nb_occurrences(LIMITE@, '?') == 2,
{
    reveal_strlit(" LIMIT ? OFFSET ?");
    let s = LIMITE@;
    assert(s.len() == 17);
    lemme_occurrences_entre(s, '?');
    reveal_with_fuel(nb_entre, 26);
    assert(nb_entre(s, '?', 0, 17) == 2);
}


proof fn lemme_marques_liaisons()
    ensures
        nb_occurrences(" WHERE 1=1 AND "@, '?') == 0,
        nb_occurrences(" AND "@, '?') == 0,
{
    reveal_strlit(" WHERE 1=1 AND ");
    reveal_strlit(" AND ");
    reveal_with_fuel(nb_occurrences, 16);
}

/// Chaque requête du plan d'une recherche compte autant de marques `?` que
/// de valeurs à lier.
pub proof fn loi_autant_de_valeurs_que_de_marques(
    r: PlanRecherche,
    criteres: CriteresRecherchePersonnes,
    pagination: Pagination,
    annee_scolaire: Seq<char>,
)
    requires
        plan_conforme(r, criteres, pagination, annee_scolaire),
    ensures
        nb_occurrences(r.sql_comptage@, '?') == r.params_comptage@.len(),
        nb_occurrences(r.sql_donnees@, '?') == r.params_donnees@.len(),
{
    let texte = criteres.texte_libre is Some;
    let adherent = criteres.adherent_uniquement;
    let clause = clause_where(texte, adherent);
    lemme_marques_liaisons();
    lemme_marques_condition_texte_libre();
    lemme_marques_condition_adherent();
    lemme_marques_debut_comptage();
    lemme_marques_debut_donnees();
    lemme_marques_tri();
    lemme_marques_limite();
    let debut = " WHERE 1=1 AND "@;
    if texte && adherent {
        lemme_occurrences_concat(debut, CONDITION_TEXTE_LIBRE@, '?');
        lemme_occurrences_concat(debut + CONDITION_TEXTE_LIBRE@, " AND "@, '?');
        lemme_occurrences_concat(debut + CONDITION_TEXTE_LIBRE@ + " AND "@, CONDITION_ADHERENT@, '?');
    } else if texte {
        lemme_occurrences_concat(debut, CONDITION_TEXTE_LIBRE@, '?');
    } else if adherent {
        lemme_occurrences_concat(debut, CONDITION_ADHERENT@, '?');
    }
    assert(nb_occurrences(clause, '?') == (if texte { 4int } else { 0int }) + (if adherent {
        1int
    } else {
        0int
    }));
    lemme_occurrences_concat(DEBUT_COMPTAGE@, clause, '?');
    lemme_occurrences_concat(DEBUT_DONNEES@, clause, '?');
    lemme_occurrences_concat(DEBUT_DONNEES@ + clause, TRI@, '?');
    let fin: Seq<char> = if pagination.par_page > 0 {
        LIMITE@
    } else {
        Seq::empty()
    };
    lemme_occurrences_concat(DEBUT_DONNEES@ + clause + TRI@, fin, '?');
    assert(nb_occurrences(Seq::<char>::empty(), '?') == 0);
    assert(r.params_comptage@.len() == vue_params(r.params_comptage@).len());
    assert(r.params_donnees@.len() == vue_params(r.params_donnees@).len());
}

} // verus!
