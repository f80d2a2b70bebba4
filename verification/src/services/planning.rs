//! Règles des commandes du planning : conflits entre créneaux d'une même
//! activité, créneaux verrouillés par des inscrits, collisions d'horaires
//! d'une personne inscrite à plusieurs activités.
use vstd::prelude::*;

use crate::domaine::planning::{jour_semaine_texte, nom_jour, Collision, CreneauActivite};
use crate::erreur::AppError;
use crate::infrastructure::audit::MESSAGE_CONFLIT;
use crate::texte::{
    ajouter_texte, copie, decimal_signe, ecrire_entier, inferieur, lex_inf,
};

verus! {

pub open spec fn message_conflit_creneau(c: CreneauActivite) -> Seq<char> {
    "Conflit d'horaire avec un créneau existant : jour "@ + decimal_signe(c.jour_semaine as int)
        + " ("@ + nom_jour(c.jour_semaine as int) + "), "@ + c.heure_debut@ + "–"@
        + c.heure_fin@ + "."@
}

/// Refuse un créneau qui chevauche un créneau existant de la même activité :
/// le premier des créneaux en conflit est cité.
pub fn refuser_conflits(conflits: &[CreneauActivite]) -> (r: Result<(), AppError>)
    ensures
        conflits@.len() == 0 ==> r is Ok,
        conflits@.len() > 0 ==> (r matches Err(AppError::Conflict(m)) && m@
            == message_conflit_creneau(conflits@[0])),
{
    if conflits.len() == 0 {
        return Ok(());
    }
    let c = &conflits[0];
    let mut m = String::new();
    ajouter_texte(&mut m, "Conflit d'horaire avec un créneau existant : jour ");
    ecrire_entier(&mut m, c.jour_semaine);
    ajouter_texte(&mut m, " (");
    ajouter_texte(&mut m, jour_semaine_texte(c.jour_semaine));
    ajouter_texte(&mut m, "), ");
    ajouter_texte(&mut m, c.heure_debut.as_str());
    ajouter_texte(&mut m, "–");
    ajouter_texte(&mut m, c.heure_fin.as_str());
    ajouter_texte(&mut m, ".");
    Err(AppError::Conflict(m))
}

/// Opération sur un créneau qu'empêchent des inscrits.
#[derive(PartialEq, Eq, Structural, Clone, Copy, Debug)]
pub enum OperationCreneau {
    Suppression,
    Modification,
}

pub open spec fn message_inscrits(op: OperationCreneau) -> Seq<char> {
    match op {
        OperationCreneau::Suppression => "Impossible de supprimer un créneau : des personnes sont inscrites à cette activité pour cette année. Retirez d'abord les inscrits."@,
        OperationCreneau::Modification => "Impossible de modifier un créneau : des personnes sont inscrites à cette activité pour cette année. Retirez d'abord les inscrits."@,
    }
}

/// Un créneau d'une activité qui compte des inscrits ne se supprime ni ne se
/// modifie.
pub fn refuser_si_inscrits(nb_inscrits: i64, op: OperationCreneau) -> (r: Result<(), AppError>)
    ensures
        nb_inscrits <= 0 ==> r is Ok,
        nb_inscrits > 0 ==> (r matches Err(AppError::Validation(m)) && m@ == message_inscrits(op)),
{
    if nb_inscrits > 0 {
        let m = match op {
            OperationCreneau::Suppression => copie(
                "Impossible de supprimer un créneau : des personnes sont inscrites à cette activité pour cette année. Retirez d'abord les inscrits.",
            ),
            OperationCreneau::Modification => copie(
                "Impossible de modifier un créneau : des personnes sont inscrites à cette activité pour cette année. Retirez d'abord les inscrits.",
            ),
        };
        return Err(AppError::Validation(m));
    }
    Ok(())
}

/// Mise à jour versionnée sans effet : l'enregistrement existe (sa version a
/// changé entre-temps) ou pas.
pub fn erreur_mise_a_jour(existe: bool, introuvable: &str) -> (r: AppError)
    ensures
        existe ==> (r matches AppError::Conflict(m) && m@ == MESSAGE_CONFLIT@),
        !existe ==> (r matches AppError::NotFound(m) && m@ == introuvable@),
{
    if existe {
        AppError::Conflict(copie(MESSAGE_CONFLIT))
    } else {
        AppError::NotFound(copie(introuvable))
    }
}

/// Deux créneaux se chevauchent : même jour, horaires qui se croisent
/// (ordre des chaînes).
pub open spec fn creneaux_se_chevauchent(a: CreneauActivite, b: CreneauActivite) -> bool {
    a.jour_semaine == b.jour_semaine && lex_inf(a.heure_debut@, b.heure_fin@) && lex_inf(
        b.heure_debut@,
        a.heure_fin@,
    )
}

/// Le chevauchement de créneaux est symétrique.
pub proof fn loi_chevauchement_symetrique(a: CreneauActivite, b: CreneauActivite)
    ensures
        creneaux_se_chevauchent(a, b) == creneaux_se_chevauchent(b, a),
{
}

/// Premier couple (créneau visé, créneau d'une autre activité) qui se
/// chevauchent, dans l'ordre des créneaux visés puis des autres ; rend
/// l'indice du créneau visé.
pub open spec fn collision_dans(cibles: Seq<CreneauActivite>, autres: Seq<CreneauActivite>) -> Option<
    int,
>
    decreases cibles.len(),
{
    if cibles.len() == 0 {
        None
    } else {
        match collision_dans(cibles.drop_last(), autres) {
            Some(i) => Some(i),
            None => if exists|j: int|
                0 <= j < autres.len() && creneaux_se_chevauchent(cibles.last(), #[trigger] autres[j]) {
                Some(cibles.len() - 1)
            } else {
                None
            },
        }
    }
}

/// Aucune collision n'est rendue exactement quand aucun créneau visé ne
/// chevauche un créneau de l'autre activité ; le créneau visé rendu en
/// chevauche un, et aucun créneau visé avant lui n'en chevauche.
pub proof fn loi_collision(cibles: Seq<CreneauActivite>, autres: Seq<CreneauActivite>)
    ensures
        collision_dans(cibles, autres) is None <==> forall|i: int, j: int|
            0 <= i < cibles.len() && 0 <= j < autres.len() ==> !creneaux_se_chevauchent(
                #[trigger] cibles[i],
                #[trigger] autres[j],
            ),
        collision_dans(cibles, autres) matches Some(i) ==> {
            &&& 0 <= i < cibles.len()
            &&& exists|j: int|
                0 <= j < autres.len() && creneaux_se_chevauchent(cibles[i], #[trigger] autres[j])
            &&& forall|k: int, j: int|
                0 <= k < i && 0 <= j < autres.len() ==> !creneaux_se_chevauchent(
                    #[trigger] cibles[k],
                    #[trigger] autres[j],
                )
        },
    decreases cibles.len(),
{
    if cibles.len() > 0 {
        let debut = cibles.drop_last();
        loi_collision(debut, autres);
        assert forall|k: int| 0 <= k < debut.len() implies #[trigger] debut[k] == cibles[k] by {}
        match collision_dans(debut, autres) {
            Some(i) => {
                assert(debut[i] == cibles[i]);
                assert forall|k: int, j: int|
                    0 <= k < i && 0 <= j < autres.len() implies !creneaux_se_chevauchent(
                    #[trigger] cibles[k],
                    #[trigger] autres[j],
                ) by {
                    assert(debut[k] == cibles[k]);
                    assert(!creneaux_se_chevauchent(debut[k], autres[j]));
                }
            },
            None => {
                assert forall|k: int, j: int|
                    0 <= k < cibles.len() - 1 && 0 <= j < autres.len() implies !creneaux_se_chevauchent(
                    #[trigger] cibles[k],
                    #[trigger] autres[j],
                ) by {
                    assert(debut[k] == cibles[k]);
                    assert(!creneaux_se_chevauchent(debut[k], autres[j]));
                }
                if collision_dans(cibles, autres) is None {
                    assert forall|i: int, j: int|
                        0 <= i < cibles.len() && 0 <= j < autres.len() implies !creneaux_se_chevauchent(
                        #[trigger] cibles[i],
                        #[trigger] autres[j],
                    ) by {
                        if i < cibles.len() - 1 {
                            assert(debut[i] == cibles[i]);
                        }
                    }
                }
            },
        }
    }
}

/// Une collision ne se produit que le même jour : le créneau visé rendu a,
/// parmi les créneaux de l'autre activité, un créneau du même jour dont
/// l'horaire croise le sien ; quand aucun créneau visé n'a de créneau de
/// l'autre activité le même jour avec un horaire qui croise le sien, aucune
/// collision n'est rendue. Des créneaux tous de jours différents ne se
/// heurtent jamais.
pub proof fn loi_collision_meme_jour(cibles: Seq<CreneauActivite>, autres: Seq<CreneauActivite>)
    ensures
        collision_dans(cibles, autres) matches Some(i) ==> 0 <= i < cibles.len() && exists|j: int|
            0 <= j < autres.len() && (#[trigger] autres[j]).jour_semaine == cibles[i].jour_semaine
                && lex_inf(cibles[i].heure_debut@, autres[j].heure_fin@) && lex_inf(
                autres[j].heure_debut@,
                cibles[i].heure_fin@,
            ),
        (forall|i: int, j: int|
            0 <= i < cibles.len() && 0 <= j < autres.len() ==> !((#[trigger] cibles[i]).jour_semaine
                == (#[trigger] autres[j]).jour_semaine && lex_inf(
                cibles[i].heure_debut@,
                autres[j].heure_fin@,
            ) && lex_inf(autres[j].heure_debut@, cibles[i].heure_fin@))) ==> collision_dans(
            cibles,
            autres,
        ) is None,
        (forall|i: int, j: int|
            0 <= i < cibles.len() && 0 <= j < autres.len() ==> (#[trigger] cibles[i]).jour_semaine
                != (#[trigger] autres[j]).jour_semaine) ==> collision_dans(cibles, autres) is None,
{
    loi_collision(cibles, autres);
    if collision_dans(cibles, autres) is Some {
        let i = collision_dans(cibles, autres).unwrap();
        let j = choose|j: int|
            0 <= j < autres.len() && creneaux_se_chevauchent(cibles[i], #[trigger] autres[j]);
        assert(autres[j].jour_semaine == cibles[i].jour_semaine);
        assert(cibles[i].jour_semaine == autres[j].jour_semaine && lex_inf(
            cibles[i].heure_debut@,
            autres[j].heure_fin@,
        ) && lex_inf(autres[j].heure_debut@, cibles[i].heure_fin@));
    }
}

fn chevauche_un(c: &CreneauActivite, autres: &[CreneauActivite]) -> (r: bool)
    ensures
        r == exists|j: int| 0 <= j < autres@.len() && creneaux_se_chevauchent(*c, #[trigger] autres@[j]),
{
    let mut j: usize = 0;
    while j < autres.len()
        invariant
            j <= autres@.len(),
            forall|k: int| 0 <= k < j ==> !creneaux_se_chevauchent(*c, #[trigger] autres@[k]),
        decreases autres.len() - j,
    {
        let a = &autres[j];
        if c.jour_semaine == a.jour_semaine && inferieur(c.heure_debut.as_str(), a.heure_fin.as_str())
            && inferieur(a.heure_debut.as_str(), c.heure_fin.as_str()) {
            assert(creneaux_se_chevauchent(*c, autres@[j as int]));
            return true;
        }
        j = j + 1;
    }
    false
}

/// Cherche, parmi les créneaux d'une autre activité de la personne, une
/// collision avec les créneaux de l'activité visée.
pub fn chercher_collision(cibles: &[CreneauActivite], autres: &[CreneauActivite]) -> (r: Option<usize>)
    ensures
        match collision_dans(cibles@, autres@) {
            Some(i) => r == Some(i as usize),
            None => r is None,
        },
{
    let mut i: usize = 0;
    while i < cibles.len()
        invariant
            i <= cibles@.len(),
            collision_dans(cibles@.subrange(0, i as int), autres@) is None,
        decreases cibles.len() - i,
    {
        assert(cibles@.subrange(0, i + 1).drop_last() =~= cibles@.subrange(0, i as int));
        if chevauche_un(&cibles[i], autres) {
            assert(collision_dans(cibles@.subrange(0, i + 1), autres@) == Some(i as int));
            proof {
                lemme_collision_stable(cibles@, autres@, i + 1);
            }
            return Some(i);
        }
        i = i + 1;
    }
    assert(cibles@.subrange(0, cibles@.len() as int) =~= cibles@);
    None
}

proof fn lemme_collision_stable(cibles: Seq<CreneauActivite>, autres: Seq<CreneauActivite>, n: int)
    requires
        0 <= n <= cibles.len(),
        collision_dans(cibles.subrange(0, n), autres) is Some,
    ensures
        collision_dans(cibles, autres) == collision_dans(cibles.subrange(0, n), autres),
    decreases cibles.len() - n,
{
    if n < cibles.len() {
        assert(cibles.subrange(0, n + 1).drop_last() =~= cibles.subrange(0, n));
        lemme_collision_stable(cibles, autres, n + 1);
    } else {
        assert(cibles.subrange(0, n) =~= cibles);
    }
}

/// Collision avec l'activité nommée, sur l'horaire du créneau visé.
pub fn collision_avec(cible: &CreneauActivite, activite_conflit: String) -> (r: Collision)
    ensures
        r.activite_conflit == activite_conflit,
        r.jour_semaine == cible.jour_semaine,
        r.heure_debut == cible.heure_debut,
        r.heure_fin == cible.heure_fin,
{
    Collision {
        activite_conflit,
        jour_semaine: cible.jour_semaine,
        heure_debut: cible.heure_debut.clone(),
        heure_fin: cible.heure_fin.clone(),
    }
}

} // verus!
