//! Compatibilité entre le binaire et la base : une migration appliquée que le
//! binaire ne connaît pas vient d'une version plus récente et bloque.
use vstd::prelude::*;

use crate::erreur::{texte_erreur, AppError};
use crate::texte::{contient, contient_texte, copie, egal, en_minuscules, minuscules};

verus! {

/// Version de l'application.
pub const VERSION: &'static str = "0.1.0";

pub fn version_app() -> (r: String)
    ensures
        r@ == VERSION@,
{
    copie(VERSION)
}

pub struct Compatibilite {
    pub compatible: bool,
    pub version_installee: String,
    pub migrations_inconnues: Vec<String>,
}

/// Base compatible, sans migration inconnue.
pub fn compatible() -> (r: Compatibilite)
    ensures
        r.compatible,
        r.version_installee@ == VERSION@,
        r.migrations_inconnues@.len() == 0,
{
    Compatibilite { compatible: true, version_installee: version_app(), migrations_inconnues: Vec::new() }
}

/// Noms des migrations connues du binaire, dans l'ordre d'application.
pub open spec fn migrations_connues() -> Seq<Seq<char>> {
    seq![
        "20260630000001_create_personnes_physiques.sql"@,
        "20260630000002_create_adhesions.sql"@,
        "20260703000001_create_activites.sql"@,
        "20260703000002_create_tarifs_activite.sql"@,
        "20260703000003_create_activite_personnes.sql"@,
        "20260710000001_create_creneaux_activite.sql"@,
        "20260710000002_create_semaines_banalisees.sql"@,
        "20260802000001_create_parametres.sql"@,
    ]
}

pub fn noms_migrations() -> (r: Vec<&'static str>)
    ensures
        r@.map_values(|s: &str| s@) == migrations_connues(),
{
    let r = vec![
        "20260630000001_create_personnes_physiques.sql",
        "20260630000002_create_adhesions.sql",
        "20260703000001_create_activites.sql",
        "20260703000002_create_tarifs_activite.sql",
        "20260703000003_create_activite_personnes.sql",
        "20260710000001_create_creneaux_activite.sql",
        "20260710000002_create_semaines_banalisees.sql",
        "20260802000001_create_parametres.sql",
    ];
    assert(r@.map_values(|s: &str| s@) =~= migrations_connues());
    r
}

/// Les noms de `noms` absents de `connus`, dans leur ordre.
pub open spec fn inconnues(noms: Seq<Seq<char>>, connus: Seq<Seq<char>>) -> Seq<Seq<char>>
    decreases noms.len(),
{
    if noms.len() == 0 {
        Seq::empty()
    } else if connus.contains(noms.last()) {
        inconnues(noms.drop_last(), connus)
    } else {
        inconnues(noms.drop_last(), connus).push(noms.last())
    }
}

pub open spec fn vues(noms: Seq<String>) -> Seq<Seq<char>> {
    noms.map_values(|s: String| s@)
}

/// Une base est compatible exactement quand chacune de ses migrations
/// appliquées est connue ; chaque migration inconnue relevée vient de la base
/// et n'est pas connue.
pub proof fn loi_compatible_ssi_tout_connu(noms: Seq<Seq<char>>, connus: Seq<Seq<char>>)
    ensures
        inconnues(noms, connus).len() == 0 <==> forall|i: int|
            0 <= i < noms.len() ==> connus.contains(#[trigger] noms[i]),
        forall|j: int|
            0 <= j < inconnues(noms, connus).len() ==> noms.contains(
                #[trigger] inconnues(noms, connus)[j],
            ) && !connus.contains(inconnues(noms, connus)[j]),
    decreases noms.len(),
{
    if noms.len() > 0 {
        let debut = noms.drop_last();
        loi_compatible_ssi_tout_connu(debut, connus);
        let r = inconnues(debut, connus);
        assert forall|j: int| 0 <= j < inconnues(noms, connus).len() implies noms.contains(
            #[trigger] inconnues(noms, connus)[j],
        ) && !connus.contains(inconnues(noms, connus)[j]) by {
            if j < r.len() {
                let x = r[j];
                let i = choose|i: int| 0 <= i < debut.len() && debut[i] == x;
                assert(noms[i] == x);
            } else {
                assert(noms[noms.len() - 1] == noms.last());
            }
        }
        if inconnues(noms, connus).len() == 0 {
            assert forall|i: int| 0 <= i < noms.len() implies connus.contains(#[trigger] noms[i]) by {
                if i < noms.len() - 1 {
                    assert(debut[i] == noms[i]);
                }
            }
        }
        if forall|i: int| 0 <= i < noms.len() ==> connus.contains(#[trigger] noms[i]) {
            assert(connus.contains(noms[noms.len() - 1]));
            assert forall|i: int| 0 <= i < debut.len() implies connus.contains(#[trigger] debut[i]) by {
                assert(noms[i] == debut[i]);
            }
        }
    }
}

fn est_connu(nom: &str, connus: &[&str]) -> (r: bool)
    ensures
        r == connus@.map_values(|s: &str| s@).contains(nom@),
{
    let ghost vc = connus@.map_values(|s: &str| s@);
    let mut i: usize = 0;
    while i < connus.len()
        invariant
            vc == connus@.map_values(|s: &str| s@),
            i <= connus@.len(),
            forall|j: int| 0 <= j < i ==> vc[j] != nom@,
        decreases connus.len() - i,
    {
        if egal(connus[i], nom) {
            assert(vc[i as int] == nom@);
            return true;
        }
        i = i + 1;
    }
    false
}

/// Message d'une base sans table de suivi des migrations (base vierge).
pub open spec fn table_absente(e: AppError) -> bool {
    contient(minuscules(texte_erreur(e)), "no such table"@)
}

/// Conclut sur une erreur de lecture de la table de suivi, son texte ayant
/// été mis en minuscules : une table absente (base vierge) est compatible,
/// une autre erreur est rendue telle quelle.
pub fn conclure_erreur_lecture(e: AppError, texte_minuscule: &str) -> (r: Result<Compatibilite, AppError>)
    ensures
        contient(texte_minuscule@, "no such table"@) ==> (r matches Ok(c) && c.compatible
            && c.version_installee@ == VERSION@ && c.migrations_inconnues@.len() == 0),
        !contient(texte_minuscule@, "no such table"@) ==> r == Err::<Compatibilite, AppError>(e),
{
    if contient_texte(texte_minuscule, "no such table") {
        Ok(compatible())
    } else {
        Err(e)
    }
}

/// Conclut la vérification de compatibilité à partir des noms lus dans la
/// table de suivi des migrations (ou de l'erreur de lecture) : une base
/// vierge est compatible, une autre erreur est rendue telle quelle.
pub fn evaluer_compatibilite(resultat: Result<Vec<String>, AppError>, connus: &[&str]) -> (r:
    Result<Compatibilite, AppError>)
    ensures
        match resultat {
            Err(e) => if table_absente(e) {
                r matches Ok(c) && c.compatible && c.version_installee@ == VERSION@
                    && c.migrations_inconnues@.len() == 0
            } else {
                r == Err::<Compatibilite, AppError>(e)
            },
            Ok(noms) => r matches Ok(c) && vues(c.migrations_inconnues@) == inconnues(
                vues(noms@),
                connus@.map_values(|s: &str| s@),
            ) && c.compatible == (c.migrations_inconnues@.len() == 0) && c.version_installee@
                == VERSION@,
        },
{
    let noms = match resultat {
        Ok(noms) => noms,
        Err(e) => {
            let texte = e.message();
            let bas = en_minuscules(texte.as_str());
            return conclure_erreur_lecture(e, bas.as_str());
        },
    };
    let ghost vc = connus@.map_values(|s: &str| s@);
    let mut migrations_inconnues: Vec<String> = Vec::new();
    let mut i: usize = 0;
    while i < noms.len()
        invariant
            vc == connus@.map_values(|s: &str| s@),
            i <= noms@.len(),
            vues(migrations_inconnues@) == inconnues(vues(noms@.subrange(0, i as int)), vc),
        decreases noms.len() - i,
    {
        let ghost avant = noms@.subrange(0, i as int);
        assert(vues(noms@.subrange(0, i + 1)).drop_last() =~= vues(avant));
        assert(vues(noms@.subrange(0, i + 1)).last() == noms@[i as int]@);
        if !est_connu(noms[i].as_str(), connus) {
            migrations_inconnues.push(copie(noms[i].as_str()));
            assert(vues(migrations_inconnues@) =~= inconnues(vues(avant), vc).push(noms@[i as int]@));
        }
        i = i + 1;
    }
    assert(noms@.subrange(0, noms@.len() as int) =~= noms@);
    let vide = migrations_inconnues.len() == 0;
    Ok(Compatibilite { compatible: vide, version_installee: version_app(), migrations_inconnues })
}

} // verus!
