//! Personnes physiques : année scolaire, âge, majorité, date de naissance,
//! responsable légal des mineurs.
use vstd::prelude::*;

use crate::domaine::adhesion::{adhere_pour, a_adhesion_pour_annee, Adhesion};
use crate::domaine::calendrier::{
    aujourd_hui, avant, date_valide, lemme_quantieme_croissant, quantieme, DateCivile,
};
use crate::erreur::AppError;
use crate::texte::{copie, decimal_signe, ecrire_entier, pousser};

verus! {

pub struct Personne {
    pub id: i64,
    pub nom: String,
    pub prenom: String,
    pub date_naissance: DateCivile,
    pub email: Option<String>,
    pub telephone: Option<String>,
    pub responsable_id: Option<i64>,
}

pub struct CreatePersonne {
    pub nom: String,
    pub prenom: String,
    pub date_naissance: DateCivile,
    pub email: Option<String>,
    pub telephone: Option<String>,
    pub responsable_id: Option<i64>,
}

pub struct UpdatePersonne {
    pub nom: String,
    pub prenom: String,
    pub date_naissance: DateCivile,
    pub email: Option<String>,
    pub telephone: Option<String>,
    pub responsable_id: Option<i64>,
}

pub struct PersonneDetail {
    pub personne: Personne,
    pub adhesions: Vec<Adhesion>,
    pub a_adhesion_annee_cours: bool,
}

/// Critères d'une recherche de personnes : texte cherché dans le nom, le
/// prénom, l'adresse et le téléphone, et restriction aux adhérents de
/// l'année scolaire.
pub struct CriteresRecherchePersonnes {
    pub texte_libre: Option<String>,
    pub adherent_uniquement: bool,
}

/// Page demandée (à partir de 1) et taille de page ; une taille nulle
/// demande tous les résultats.
pub struct Pagination {
    pub page: u32,
    pub par_page: u32,
}

/// Une page de résultats avec le nombre total de personnes trouvées.
pub struct ResultatRecherchePersonnes {
    pub donnees: Vec<Personne>,
    pub total: u32,
    pub page: u32,
    pub pages: u32,
}

// ───────────────────────── Année scolaire ─────────────────────────

/// Année scolaire « AAAA-AAAA » d'une date : septembre ouvre une nouvelle année.
pub open spec fn annee_scolaire(d: (int, int, int)) -> Seq<char> {
    if d.1 >= 9 {
        decimal_signe(d.0) + seq!['-'] + decimal_signe(d.0 + 1)
    } else {
        decimal_signe(d.0 - 1) + seq!['-'] + decimal_signe(d.0)
    }
}

/// Calcule l'année scolaire à partir d'une date donnée.
/// Septembre (mois >= 9) démarre une nouvelle année scolaire.
pub fn annee_scolaire_from_date(date: DateCivile) -> (r: String)
    ensures
        r@ == annee_scolaire(date@),
{
    let y = date.annee();
    let (premiere, seconde) = if date.mois() >= 9 {
        (y, y + 1)
    } else {
        (y - 1, y)
    };
    let mut r = String::new();
    ecrire_entier(&mut r, premiere as i64);
    pousser(&mut r, '-');
    ecrire_entier(&mut r, seconde as i64);
    r
}

/// Retourne l'année scolaire courante au format "YYYY-YYYY".
pub fn current_annee_scolaire() -> (r: String)
    ensures
        exists|j: (int, int, int)| date_valide(j.0, j.1, j.2) && r@ == annee_scolaire(j),
{
    let d = aujourd_hui();
    annee_scolaire_from_date(d)
}

// ───────────────────────── Âge et majorité ─────────────────────────

/// Âge en années révolues au jour `j` : différence des années, moins un si
/// le rang du jour dans l'année n'a pas encore atteint celui de la naissance.
pub open spec fn age(naissance: (int, int, int), j: (int, int, int)) -> int {
    if quantieme(j.0, j.1, j.2) < quantieme(naissance.0, naissance.1, naissance.2) {
        j.0 - naissance.0 - 1
    } else {
        j.0 - naissance.0
    }
}

/// L'âge ne diminue pas avec le temps : qui est majeur à une date l'est à
/// toute date ultérieure.
pub proof fn loi_age_croissant(naissance: (int, int, int), j1: (int, int, int), j2: (int, int, int))
    requires
        date_valide(naissance.0, naissance.1, naissance.2),
        date_valide(j1.0, j1.1, j1.2),
        date_valide(j2.0, j2.1, j2.2),
        !avant(j2, j1),
    ensures
        age(naissance, j1) <= age(naissance, j2),
        age(naissance, j1) >= 18 ==> age(naissance, j2) >= 18,
{
    if j1.0 == j2.0 {
        lemme_quantieme_croissant(j1, j2);
    }
}

/// Âge à une date donnée.
pub fn age_a_la_date(date_naissance: DateCivile, jour: DateCivile) -> (r: i32)
    ensures
        r == age(date_naissance@, jour@),
{
    let mut a = jour.annee() - date_naissance.annee();
    if jour.quantieme() < date_naissance.quantieme() {
        a = a - 1;
    }
    a
}

/// Âge aujourd'hui.
pub fn age_from_date_naissance(date_naissance: DateCivile) -> (r: i32)
    ensures
        exists|j: (int, int, int)| date_valide(j.0, j.1, j.2) && r == age(date_naissance@, j),
{
    let j = aujourd_hui();
    age_a_la_date(date_naissance, j)
}

/// Mineur à une date donnée : moins de 18 ans.
pub fn est_mineur_au(date_naissance: DateCivile, jour: DateCivile) -> (r: bool)
    ensures
        r == (age(date_naissance@, jour@) < 18),
{
    age_a_la_date(date_naissance, jour) < 18
}

/// Mineur aujourd'hui.
pub fn est_mineur(date_naissance: DateCivile) -> (r: bool)
    ensures
        exists|j: (int, int, int)| date_valide(j.0, j.1, j.2) && r == (age(date_naissance@, j) < 18),
{
    age_from_date_naissance(date_naissance) < 18
}

// ───────────────────────── Date de naissance ─────────────────────────

pub open spec fn erreur_naissance(naissance: (int, int, int), j: (int, int, int)) -> Option<
    Seq<char>,
> {
    if avant(naissance, (1920, 1, 1)) {
        Some("La date de naissance doit être après 1920"@)
    } else if avant(j, naissance) {
        Some("La date de naissance ne peut pas être dans le futur"@)
    } else {
        None
    }
}

/// Une date de naissance va du 1er janvier 1920 au jour donné.
pub fn valider_date_naissance_au(date_naissance: DateCivile, jour: DateCivile) -> (r: Result<
    (),
    String,
>)
    ensures
        match r {
            Ok(()) => erreur_naissance(date_naissance@, jour@) is None,
            Err(m) => erreur_naissance(date_naissance@, jour@) == Some(m@),
        },
{
    let min_date = DateCivile::depuis_valide(1920, 1, 1);
    if date_naissance.est_avant(&min_date) {
        return Err(copie("La date de naissance doit être après 1920"));
    }
    if jour.est_avant(&date_naissance) {
        return Err(copie("La date de naissance ne peut pas être dans le futur"));
    }
    Ok(())
}

/// Une date de naissance va du 1er janvier 1920 à aujourd'hui.
pub fn valider_date_naissance(date_naissance: DateCivile) -> (r: Result<(), String>)
    ensures
        exists|j: (int, int, int)|
            date_valide(j.0, j.1, j.2) && match r {
                Ok(()) => erreur_naissance(date_naissance@, j) is None,
                Err(m) => erreur_naissance(date_naissance@, j) == Some(m@),
            },
{
    let j = aujourd_hui();
    valider_date_naissance_au(date_naissance, j)
}

// ───────────────────────── Responsable légal ─────────────────────────

/// Première étape du contrôle du responsable légal : une personne majeure
/// n'en a pas besoin (`Ok(None)`) ; un mineur doit en désigner un, dont
/// l'identifiant est rendu pour être cherché (`Ok(Some(id))`).
pub fn responsable_a_verifier(
    date_naissance: DateCivile,
    responsable_id: Option<i64>,
    jour: DateCivile,
) -> (r: Result<Option<i64>, AppError>)
    ensures
        age(date_naissance@, jour@) >= 18 ==> r == Ok::<Option<i64>, AppError>(None),
        age(date_naissance@, jour@) < 18 ==> match responsable_id {
            Some(id) => r == Ok::<Option<i64>, AppError>(Some(id)),
            None => r matches Err(AppError::Validation(m))
                && m@ == "Un mineur doit avoir un responsable légal"@,
        },
{
    if !est_mineur_au(date_naissance, jour) {
        return Ok(None);
    }
    match responsable_id {
        Some(id) => Ok(Some(id)),
        None => Err(AppError::Validation(copie("Un mineur doit avoir un responsable légal"))),
    }
}

/// Seconde étape : le responsable désigné doit exister et être majeur.
pub fn conclure_responsable(responsable: Option<&Personne>, jour: DateCivile) -> (r: Result<
    (),
    AppError,
>)
    ensures
        match responsable {
            None => r matches Err(AppError::NotFound(m)) && m@ == "Responsable introuvable"@,
            Some(p) => if age(p.date_naissance@, jour@) < 18 {
                r matches Err(AppError::Validation(m))
                    && m@ == "Le responsable ne peut pas être mineur"@
            } else {
                r is Ok
            },
        },
{
    match responsable {
        None => Err(AppError::NotFound(copie("Responsable introuvable"))),
        Some(p) => {
            if est_mineur_au(p.date_naissance, jour) {
                Err(AppError::Validation(copie("Le responsable ne peut pas être mineur")))
            } else {
                Ok(())
            }
        },
    }
}

/// Détail d'une personne : ses adhésions, et si l'une porte sur l'année
/// scolaire en cours.
pub fn detail_personne(personne: Personne, adhesions: Vec<Adhesion>, annee_en_cours: &str) -> (r:
    PersonneDetail)
    ensures
        r.personne == personne,
        r.adhesions@ == adhesions@,
        r.a_adhesion_annee_cours == adhere_pour(adhesions@, annee_en_cours@),
{
    let a = a_adhesion_pour_annee(adhesions.as_slice(), annee_en_cours);
    PersonneDetail { personne, adhesions, a_adhesion_annee_cours: a }
}

} // verus!
