//! Réduction de la plage horaire d'ouverture : calcul de l'impact sur les
//! créneaux existants et décision d'application.
//!
//! Règles :
//! - créneau sortant de la plage sans inscrits : supprimé ;
//! - créneau sortant avec inscrits : déplacé vers la place libre la plus
//!   proche, le même jour, sans chevaucher les créneaux de la même activité
//!   qui restent ni ceux déjà déplacés dans la même opération ;
//! - aucune place libre : déplacement impossible, la réduction est bloquée ;
//! - un adhérent d'un créneau déplacé ne doit pas se retrouver inscrit à une
//!   autre activité (même année) dont un créneau chevauche le nouvel horaire.
use vstd::prelude::*;

use crate::domaine::parametre::{
    deplacement_deborde, duree_creneau, heure_en_minutes, heure_texte, intervalles,
    lemme_minutes_bornees, loi_aller_retour_minutes, loi_place_retenue, place_deplacement,
    sans_chevauchement, trouver_place_deplacement, ImpactAction, ImpactCreneau,
};
use crate::domaine::planning::minutes_de;
use crate::domaine::planning::{
    jour_semaine_texte, nom_jour, CreneauActivite, CreneauHorsPlage, Inscription,
};
use crate::erreur::AppError;
use crate::texte::{
    ajouter_texte, copie, decimal, decimal_signe, ecrire_entier, ecrire_naturel, egal, inferieur,
    lex_inf,
};

verus! {

/// Le créneau `id` fait partie des créneaux hors plage.
pub open spec fn est_hors(id: i64, hors: Seq<CreneauHorsPlage>) -> bool {
    exists|k: int| 0 <= k < hors.len() && (#[trigger] hors[k]).creneau_id == id
}

/// Créneau qui reste en place et gêne le déplacement de `hp` : même année,
/// même jour, même activité.
pub open spec fn fixe_pour(
    c: CreneauActivite,
    hp: CreneauHorsPlage,
    hors: Seq<CreneauHorsPlage>,
) -> bool {
    &&& !est_hors(c.id, hors)
    &&& c.annee_scolaire@ == hp.annee_scolaire@
    &&& c.jour_semaine == hp.jour_semaine
    &&& c.activite_id == hp.activite_id
}

/// Horaires des créneaux qui restent et gênent `hp`, dans l'ordre de `tous`.
pub open spec fn fixes(
    tous: Seq<CreneauActivite>,
    hp: CreneauHorsPlage,
    hors: Seq<CreneauHorsPlage>,
) -> Seq<(String, String)>
    decreases tous.len(),
{
    if tous.len() == 0 {
        Seq::empty()
    } else {
        let r = fixes(tous.drop_last(), hp, hors);
        if fixe_pour(tous.last(), hp, hors) {
            r.push((tous.last().heure_debut, tous.last().heure_fin))
        } else {
            r
        }
    }
}

/// Déplacement déjà retenu qui gêne `hp` : même année, même jour, même activité.
pub open spec fn destination_pour(imp: ImpactCreneau, hp: CreneauHorsPlage) -> bool {
    &&& imp.action == ImpactAction::Deplace
    &&& imp.annee_scolaire@ == hp.annee_scolaire@
    &&& imp.jour_semaine == hp.jour_semaine
    &&& imp.activite_id == hp.activite_id
    &&& imp.nouveau_debut is Some
    &&& imp.nouveau_fin is Some
}

/// Nouveaux horaires des créneaux déjà déplacés qui gênent `hp`.
pub open spec fn destinations(impacts: Seq<ImpactCreneau>, hp: CreneauHorsPlage) -> Seq<
    (String, String),
>
    decreases impacts.len(),
{
    if impacts.len() == 0 {
        Seq::empty()
    } else {
        let r = destinations(impacts.drop_last(), hp);
        let imp = impacts.last();
        if destination_pour(imp, hp) {
            r.push((imp.nouveau_debut.unwrap(), imp.nouveau_fin.unwrap()))
        } else {
            r
        }
    }
}

/// L'impact reprend le créneau hors plage.
pub open spec fn reprend(imp: ImpactCreneau, hp: CreneauHorsPlage) -> bool {
    &&& imp.creneau_id == hp.creneau_id
    &&& imp.activite_id == hp.activite_id
    &&& imp.activite_nom == hp.activite_nom
    &&& imp.jour_semaine == hp.jour_semaine
    &&& imp.heure_debut == hp.heure_debut
    &&& imp.heure_fin == hp.heure_fin
    &&& imp.annee_scolaire == hp.annee_scolaire
}

/// Impact d'un créneau hors plage, les intervalles `occupes` étant ceux qui
/// le gênent : supprimé sans inscrits ; sinon déplacé à la place la plus
/// proche, ou déplacement impossible.
pub open spec fn impact_initial(
    imp: ImpactCreneau,
    hp: CreneauHorsPlage,
    occupes: Seq<(String, String)>,
    ouverture: Seq<char>,
    fermeture: Seq<char>,
) -> bool {
    &&& reprend(imp, hp)
    &&& imp.raison is None
    &&& if hp.nb_inscrits == 0 {
        &&& imp.action == ImpactAction::Supprime
        &&& imp.nouveau_debut is None
        &&& imp.nouveau_fin is None
    } else {
        match place_deplacement(hp.heure_debut@, hp.heure_fin@, ouverture, fermeture, occupes) {
            Some(s) => {
                &&& imp.action == ImpactAction::Deplace
                &&& imp.nouveau_debut matches Some(x) && x@ == heure_texte(s as nat)
                &&& imp.nouveau_fin matches Some(y) && y@ == heure_texte(
                    (s + duree_creneau(hp.heure_debut@, hp.heure_fin@)) as nat,
                )
            },
            None => {
                &&& imp.action == ImpactAction::DeplaceImpossible
                &&& imp.nouveau_debut is None
                &&& imp.nouveau_fin is None
            },
        }
    }
}

/// Les impacts de la première passe : un par créneau hors plage, dans le même
/// ordre, chacun gêné par les créneaux restants et les déplacements qui le
/// précèdent.
pub open spec fn impacts_conformes(
    r: Seq<ImpactCreneau>,
    hors: Seq<CreneauHorsPlage>,
    tous: Seq<CreneauActivite>,
    ouverture: Seq<char>,
    fermeture: Seq<char>,
) -> bool {
    &&& r.len() == hors.len()
    &&& forall|k: int|
        0 <= k < r.len() ==> impact_initial(
            #[trigger] r[k],
            hors[k],
            fixes(tous, hors[k], hors) + destinations(r.subrange(0, k), hors[k]),
            ouverture,
            fermeture,
        )
}

/// Aucun créneau avec inscrits ne fait déborder le calcul de place.
pub open spec fn plage_calculable(
    hors: Seq<CreneauHorsPlage>,
    ouverture: Seq<char>,
    fermeture: Seq<char>,
) -> bool {
    forall|k: int|
        0 <= k < hors.len() && (#[trigger] hors[k]).nb_inscrits != 0 ==> !deplacement_deborde(
            hors[k].heure_debut@,
            hors[k].heure_fin@,
            ouverture,
            fermeture,
        )
}

fn est_hors_exec(id: i64, hors: &[CreneauHorsPlage]) -> (r: bool)
    ensures
        r == est_hors(id, hors@),
{
    let mut k: usize = 0;
    while k < hors.len()
        invariant
            k <= hors@.len(),
            forall|j: int| 0 <= j < k ==> (#[trigger] hors@[j]).creneau_id != id,
        decreases hors.len() - k,
    {
        if hors[k].creneau_id == id {
            assert(hors@[k as int].creneau_id == id);
            return true;
        }
        k = k + 1;
    }
    false
}

fn copie_creneau_horaire(c: &CreneauActivite) -> (r: (String, String))
    ensures
        r == (c.heure_debut, c.heure_fin),
{
    (c.heure_debut.clone(), c.heure_fin.clone())
}

/// Les horaires qui gênent `hp` : créneaux restants puis déplacements retenus.
fn occupes_pour(
    hp: &CreneauHorsPlage,
    hors: &[CreneauHorsPlage],
    tous: &[CreneauActivite],
    precedents: &Vec<ImpactCreneau>,
) -> (r: Vec<(String, String)>)
    ensures
        r@ == fixes(tous@, *hp, hors@) + destinations(precedents@, *hp),
{
    let mut r: Vec<(String, String)> = Vec::new();
    let mut j: usize = 0;
    while j < tous.len()
        invariant
            j <= tous@.len(),
            r@ == fixes(tous@.subrange(0, j as int), *hp, hors@),
        decreases tous.len() - j,
    {
        let c = &tous[j];
        assert(tous@.subrange(0, j + 1).drop_last() =~= tous@.subrange(0, j as int));
        if !est_hors_exec(c.id, hors) && egal(c.annee_scolaire.as_str(), hp.annee_scolaire.as_str())
            && c.jour_semaine == hp.jour_semaine && c.activite_id == hp.activite_id {
            r.push(copie_creneau_horaire(c));
        }
        j = j + 1;
    }
    assert(tous@.subrange(0, tous@.len() as int) =~= tous@);
    let ghost base = r@;
    let mut i: usize = 0;
    while i < precedents.len()
        invariant
            i <= precedents@.len(),
            base == fixes(tous@, *hp, hors@),
            r@ == base + destinations(precedents@.subrange(0, i as int), *hp),
        decreases precedents.len() - i,
    {
        let imp = &precedents[i];
        assert(precedents@.subrange(0, i + 1).drop_last() =~= precedents@.subrange(0, i as int));
        if imp.action == ImpactAction::Deplace && egal(
            imp.annee_scolaire.as_str(),
            hp.annee_scolaire.as_str(),
        ) && imp.jour_semaine == hp.jour_semaine && imp.activite_id == hp.activite_id {
            match (&imp.nouveau_debut, &imp.nouveau_fin) {
                (Some(d), Some(f)) => {
                    r.push((d.clone(), f.clone()));
                    assert(r@ =~= base + destinations(
                        precedents@.subrange(0, i + 1),
                        *hp,
                    ));
                },
                _ => {},
            }
        }
        i = i + 1;
    }
    assert(precedents@.subrange(0, precedents@.len() as int) =~= precedents@);
    r
}

fn impact_de_base(hp: &CreneauHorsPlage, action: ImpactAction, place: Option<(String, String)>) -> (r:
    ImpactCreneau)
    ensures
        reprend(r, *hp),
        r.raison is None,
        r.action == action,
        match place {
            Some((d, f)) => r.nouveau_debut == Some(d) && r.nouveau_fin == Some(f),
            None => r.nouveau_debut is None && r.nouveau_fin is None,
        },
{
    let (nouveau_debut, nouveau_fin) = match place {
        Some((d, f)) => (Some(d), Some(f)),
        None => (None, None),
    };
    ImpactCreneau {
        creneau_id: hp.creneau_id,
        activite_id: hp.activite_id,
        activite_nom: hp.activite_nom.clone(),
        jour_semaine: hp.jour_semaine,
        heure_debut: hp.heure_debut.clone(),
        heure_fin: hp.heure_fin.clone(),
        annee_scolaire: hp.annee_scolaire.clone(),
        action,
        nouveau_debut,
        nouveau_fin,
        raison: None,
    }
}

/// Première passe : impact de chaque créneau hors plage, sans le contrôle des
/// adhérents inscrits ailleurs.
pub fn impacts_initiaux(
    heure_ouverture: &str,
    heure_fermeture: &str,
    hors_plage: &[CreneauHorsPlage],
    tous: &[CreneauActivite],
) -> (r: Vec<ImpactCreneau>)
    requires
        plage_calculable(hors_plage@, heure_ouverture@, heure_fermeture@),
    ensures
        impacts_conformes(r@, hors_plage@, tous@, heure_ouverture@, heure_fermeture@),
{
    let mut r: Vec<ImpactCreneau> = Vec::new();
    let mut k: usize = 0;
    while k < hors_plage.len()
        invariant
            k <= hors_plage@.len(),
            plage_calculable(hors_plage@, heure_ouverture@, heure_fermeture@),
            r@.len() == k,
            forall|j: int|
                0 <= j < k ==> impact_initial(
                    #[trigger] r@[j],
                    hors_plage@[j],
                    fixes(tous@, hors_plage@[j], hors_plage@) + destinations(
                        r@.subrange(0, j),
                        hors_plage@[j],
                    ),
                    heure_ouverture@,
                    heure_fermeture@,
                ),
        decreases hors_plage.len() - k,
    {
        let hp = &hors_plage[k];
        let ghost avant = r@;
        let imp = if hp.nb_inscrits == 0 {
            impact_de_base(hp, ImpactAction::Supprime, None)
        } else {
            let occupes = occupes_pour(hp, hors_plage, tous, &r);
            assert(hors_plage@[k as int].nb_inscrits != 0);
            match trouver_place_deplacement(
                hp.heure_debut.as_str(),
                hp.heure_fin.as_str(),
                heure_ouverture,
                heure_fermeture,
                occupes.as_slice(),
            ) {
                Some(place) => impact_de_base(hp, ImpactAction::Deplace, Some(place)),
                None => impact_de_base(hp, ImpactAction::DeplaceImpossible, None),
            }
        };
        r.push(imp);
        assert(r@.subrange(0, k as int) =~= avant);
        assert forall|j: int| 0 <= j < k implies r@.subrange(0, j) == avant.subrange(0, j) by {
            assert(r@.subrange(0, j) =~= avant.subrange(0, j));
        }
        k = k + 1;
    }
    r
}

/// Un créneau déplacé par la première passe garde sa durée, tient dans la
/// nouvelle plage et ne chevauche ni les créneaux restants de la même activité
/// (même année, même jour) ni les créneaux déplacés avant lui.
pub proof fn loi_deplacement_dans_la_plage(
    r: Seq<ImpactCreneau>,
    hors: Seq<CreneauHorsPlage>,
    tous: Seq<CreneauActivite>,
    ouverture: Seq<char>,
    fermeture: Seq<char>,
    k: int,
)
    requires
        impacts_conformes(r, hors, tous, ouverture, fermeture),
        0 <= k < r.len(),
        r[k].action == ImpactAction::Deplace,
    ensures
        r[k].nouveau_debut is Some && r[k].nouveau_fin is Some,
        ({
            let s = minutes_de(r[k].nouveau_debut.unwrap()@);
            let e = minutes_de(r[k].nouveau_fin.unwrap()@);
            &&& s is Some && e is Some
            &&& minutes_de(ouverture) is Some && minutes_de(fermeture) is Some
            &&& minutes_de(ouverture).unwrap() <= s.unwrap()
            &&& s.unwrap() < e.unwrap()
            &&& e.unwrap() <= minutes_de(fermeture).unwrap()
            &&& e.unwrap() - s.unwrap() == duree_creneau(hors[k].heure_debut@, hors[k].heure_fin@)
            &&& sans_chevauchement(
                s.unwrap() as int,
                e.unwrap() - s.unwrap(),
                intervalles(fixes(tous, hors[k], hors) + destinations(r.subrange(0, k), hors[k])),
            )
        }),
{
    let hp = hors[k];
    let occupes = fixes(tous, hp, hors) + destinations(r.subrange(0, k), hp);
    assert(impact_initial(r[k], hp, occupes, ouverture, fermeture));
    loi_place_retenue(hp.heure_debut@, hp.heure_fin@, ouverture, fermeture, occupes);
    let s0 = place_deplacement(hp.heure_debut@, hp.heure_fin@, ouverture, fermeture, occupes).unwrap();
    let d = duree_creneau(hp.heure_debut@, hp.heure_fin@);
    lemme_minutes_bornees(fermeture);
    loi_aller_retour_minutes(s0 as nat);
    loi_aller_retour_minutes((s0 + d) as nat);
}

/// `c` n'est pas un créneau hors plage, et il est de la même année, du même
/// jour et de la même activité que `hp`.
pub open spec fn restant_meme_jour(c: CreneauActivite, hp: CreneauHorsPlage, hors: Seq<CreneauHorsPlage>) -> bool {
    &&& forall|m: int| 0 <= m < hors.len() ==> hors[m].creneau_id != c.id
    &&& c.annee_scolaire@ == hp.annee_scolaire@
    &&& c.jour_semaine == hp.jour_semaine
    &&& c.activite_id == hp.activite_id
}

proof fn lemme_restant(c: CreneauActivite, hp: CreneauHorsPlage, hors: Seq<CreneauHorsPlage>)
    ensures
        restant_meme_jour(c, hp, hors) == fixe_pour(c, hp, hors),
{
    if fixe_pour(c, hp, hors) {
        assert forall|m: int| 0 <= m < hors.len() implies hors[m].creneau_id != c.id by {
            if hors[m].creneau_id == c.id {
                assert(est_hors(c.id, hors));
            }
        }
    }
    if restant_meme_jour(c, hp, hors) && est_hors(c.id, hors) {
        let m = choose|m: int| 0 <= m < hors.len() && (#[trigger] hors[m]).creneau_id == c.id;
        assert(hors[m].creneau_id != c.id);
    }
}

/// `x` est l'horaire d'un créneau de `tous` qui reste en place, de la même
/// année, du même jour et de la même activité que `hp`.
pub open spec fn intervalle_restant(
    tous: Seq<CreneauActivite>,
    hp: CreneauHorsPlage,
    hors: Seq<CreneauHorsPlage>,
    x: (String, String),
) -> bool {
    exists|j: int|
        #![trigger tous[j]]
        0 <= j < tous.len() && restant_meme_jour(tous[j], hp, hors) && x == (
            tous[j].heure_debut,
            tous[j].heure_fin,
        )
}

proof fn lemme_fixes_proviennent(tous: Seq<CreneauActivite>, hp: CreneauHorsPlage, hors: Seq<CreneauHorsPlage>)
    ensures
        forall|i: int|
            0 <= i < fixes(tous, hp, hors).len() ==> intervalle_restant(
                tous,
                hp,
                hors,
                #[trigger] fixes(tous, hp, hors)[i],
            ),
        forall|j: int|
            0 <= j < tous.len() && restant_meme_jour(#[trigger] tous[j], hp, hors) ==> fixes(
                tous,
                hp,
                hors,
            ).contains((tous[j].heure_debut, tous[j].heure_fin)),
    decreases tous.len(),
{
    if tous.len() > 0 {
        let d = tous.drop_last();
        lemme_fixes_proviennent(d, hp, hors);
        let fd = fixes(d, hp, hors);
        let n = tous.len() - 1;
        lemme_restant(tous[n], hp, hors);
        assert forall|i: int| 0 <= i < fixes(tous, hp, hors).len() implies intervalle_restant(
            tous,
            hp,
            hors,
            #[trigger] fixes(tous, hp, hors)[i],
        ) by {
            if i < fd.len() {
                assert(fixes(tous, hp, hors)[i] == fd[i]);
                assert(intervalle_restant(d, hp, hors, fd[i]));
                let j = choose|j: int|
                    #![trigger d[j]]
                    0 <= j < d.len() && restant_meme_jour(d[j], hp, hors) && fd[i] == (
                        d[j].heure_debut,
                        d[j].heure_fin,
                    );
                assert(d[j] == tous[j]);
            } else {
                assert(fixes(tous, hp, hors)[i] == (tous[n].heure_debut, tous[n].heure_fin));
                assert(restant_meme_jour(tous[n], hp, hors));
            }
        }
        assert forall|j: int| 0 <= j < tous.len() && restant_meme_jour(#[trigger] tous[j], hp, hors)
            implies fixes(tous, hp, hors).contains((tous[j].heure_debut, tous[j].heure_fin)) by {
            if j < n {
                assert(d[j] == tous[j]);
                assert(fd.contains((d[j].heure_debut, d[j].heure_fin)));
                let i = choose|i: int| 0 <= i < fd.len() && fd[i] == (d[j].heure_debut, d[j].heure_fin);
                assert(fixes(tous, hp, hors)[i] == fd[i]);
            } else {
                assert(fixes(tous, hp, hors)[fixes(tous, hp, hors).len() - 1] == (tous[n].heure_debut, tous[n].heure_fin));
            }
        }
    }
}

/// `imp` est un déplacement retenu, avec ses deux horaires, de la même
/// année, du même jour et de la même activité que `hp`.
pub open spec fn deplace_meme_jour(imp: ImpactCreneau, hp: CreneauHorsPlage) -> bool {
    &&& imp.action == ImpactAction::Deplace
    &&& imp.annee_scolaire@ == hp.annee_scolaire@
    &&& imp.jour_semaine == hp.jour_semaine
    &&& imp.activite_id == hp.activite_id
    &&& imp.nouveau_debut is Some
    &&& imp.nouveau_fin is Some
}

/// `x` est le nouvel horaire d'un des déplacements `impacts` de la même année,
/// du même jour et de la même activité que `hp`.
pub open spec fn intervalle_deplace(
    impacts: Seq<ImpactCreneau>,
    hp: CreneauHorsPlage,
    x: (String, String),
) -> bool {
    exists|j: int|
        #![trigger impacts[j]]
        0 <= j < impacts.len() && deplace_meme_jour(impacts[j], hp) && x == (
            impacts[j].nouveau_debut.unwrap(),
            impacts[j].nouveau_fin.unwrap(),
        )
}

proof fn lemme_destinations_proviennent(impacts: Seq<ImpactCreneau>, hp: CreneauHorsPlage)
    ensures
        forall|i: int|
            0 <= i < destinations(impacts, hp).len() ==> intervalle_deplace(
                impacts,
                hp,
                #[trigger] destinations(impacts, hp)[i],
            ),
    decreases impacts.len(),
{
    if impacts.len() > 0 {
        let d = impacts.drop_last();
        lemme_destinations_proviennent(d, hp);
        let fd = destinations(d, hp);
        let n = impacts.len() - 1;
        assert forall|i: int| 0 <= i < destinations(impacts, hp).len() implies intervalle_deplace(
            impacts,
            hp,
            #[trigger] destinations(impacts, hp)[i],
        ) by {
            if i < fd.len() {
                assert(destinations(impacts, hp)[i] == fd[i]);
                assert(intervalle_deplace(d, hp, fd[i]));
                let j = choose|j: int|
                    #![trigger d[j]]
                    0 <= j < d.len() && deplace_meme_jour(d[j], hp) && fd[i] == (
                        d[j].nouveau_debut.unwrap(),
                        d[j].nouveau_fin.unwrap(),
                    );
                assert(d[j] == impacts[j]);
            } else {
                assert(destination_pour(impacts[n], hp));
                assert(deplace_meme_jour(impacts[n], hp));
            }
        }
    }
}

/// Les intervalles qui gênent un créneau déplacé par la première passe sont
/// exactement les horaires des créneaux restants de la même activité, de la
/// même année et du même jour que lui, suivis de nouveaux horaires de créneaux
/// de la même activité, même année et même jour déjà déplacés avant lui : un
/// créneau d'un autre jour, d'une autre activité ou d'une autre année n'y
/// figure jamais.
pub proof fn loi_occupes_meme_activite_meme_jour(
    r: Seq<ImpactCreneau>,
    hors: Seq<CreneauHorsPlage>,
    tous: Seq<CreneauActivite>,
    ouverture: Seq<char>,
    fermeture: Seq<char>,
    k: int,
)
    requires
        impacts_conformes(r, hors, tous, ouverture, fermeture),
        0 <= k < r.len(),
    ensures
        impact_initial(
            r[k],
            hors[k],
            fixes(tous, hors[k], hors) + destinations(r.subrange(0, k), hors[k]),
            ouverture,
            fermeture,
        ),
        forall|i: int|
            0 <= i < fixes(tous, hors[k], hors).len() ==> intervalle_restant(
                tous,
                hors[k],
                hors,
                #[trigger] fixes(tous, hors[k], hors)[i],
            ),
        forall|j: int|
            0 <= j < tous.len() && restant_meme_jour(#[trigger] tous[j], hors[k], hors) ==> fixes(
                tous,
                hors[k],
                hors,
            ).contains((tous[j].heure_debut, tous[j].heure_fin)),
        forall|i: int|
            0 <= i < destinations(r.subrange(0, k), hors[k]).len() ==> intervalle_deplace(
                r.subrange(0, k),
                hors[k],
                #[trigger] destinations(r.subrange(0, k), hors[k])[i],
            ),
{
    assert(impact_initial(
        r[k],
        hors[k],
        fixes(tous, hors[k], hors) + destinations(r.subrange(0, k), hors[k]),
        ouverture,
        fermeture,
    ));
    lemme_fixes_proviennent(tous, hors[k], hors);
    lemme_destinations_proviennent(r.subrange(0, k), hors[k]);
}

/// Un des impacts est un déplacement.
pub open spec fn contient_deplacement(impacts: Seq<ImpactCreneau>) -> bool {
    exists|k: int| 0 <= k < impacts.len() && (#[trigger] impacts[k]).action == ImpactAction::Deplace
}

pub fn a_un_deplacement(impacts: &[ImpactCreneau]) -> (r: bool)
    ensures
        r == contient_deplacement(impacts@),
{
    let mut k: usize = 0;
    while k < impacts.len()
        invariant
            k <= impacts@.len(),
            forall|j: int| 0 <= j < k ==> (#[trigger] impacts@[j]).action != ImpactAction::Deplace,
        decreases impacts.len() - k,
    {
        if impacts[k].action == ImpactAction::Deplace {
            assert(impacts@[k as int].action == ImpactAction::Deplace);
            return true;
        }
        k = k + 1;
    }
    false
}


// ───────────────────────── Contrôle des adhérents ─────────────────────────

/// Premier indice `i < n` qui vérifie `p`.
pub open spec fn premier(n: nat, p: spec_fn(int) -> bool) -> Option<int>
    decreases n,
{
    if n == 0 {
        None
    } else {
        match premier((n - 1) as nat, p) {
            Some(i) => Some(i),
            None => if p(n - 1) {
                Some(n - 1)
            } else {
                None
            },
        }
    }
}

proof fn lemme_premier(n: nat, p: spec_fn(int) -> bool)
    ensures
        match premier(n, p) {
            Some(i) => 0 <= i < n && p(i) && forall|j: int| 0 <= j < i ==> !#[trigger] p(j),
            None => forall|j: int| 0 <= j < n ==> !#[trigger] p(j),
        },
    decreases n,
{
    if n > 0 {
        lemme_premier((n - 1) as nat, p);
    }
}

proof fn lemme_premier_stable(n: nat, m: nat, p: spec_fn(int) -> bool)
    requires
        n <= m,
        premier(n, p) is Some,
    ensures
        premier(m, p) == premier(n, p),
    decreases m,
{
    if m > n {
        lemme_premier_stable(n, (m - 1) as nat, p);
    }
}

/// Horaire d'un créneau : (jour, début, fin).
pub open spec fn horaire(c: CreneauActivite) -> (i64, Seq<char>, Seq<char>) {
    (c.jour_semaine, c.heure_debut@, c.heure_fin@)
}

/// Position d'un créneau d'après `tous` (la dernière entrée de cet identifiant).
pub open spec fn position_initiale(tous: Seq<CreneauActivite>, id: i64) -> Option<
    (i64, Seq<char>, Seq<char>),
>
    decreases tous.len(),
{
    if tous.len() == 0 {
        None
    } else if tous.last().id == id {
        Some(horaire(tous.last()))
    } else {
        position_initiale(tous.drop_last(), id)
    }
}

/// Position d'un créneau à l'état final : supprimé, déplacé ou resté en place.
pub open spec fn position_finale(
    tous: Seq<CreneauActivite>,
    impacts: Seq<ImpactCreneau>,
    id: i64,
) -> Option<(i64, Seq<char>, Seq<char>)>
    decreases impacts.len(),
{
    if impacts.len() == 0 {
        position_initiale(tous, id)
    } else {
        let imp = impacts.last();
        if imp.creneau_id == id && imp.action == ImpactAction::Supprime {
            None
        } else if imp.creneau_id == id && imp.action == ImpactAction::Deplace
            && imp.nouveau_debut is Some && imp.nouveau_fin is Some {
            Some((imp.jour_semaine, imp.nouveau_debut.unwrap()@, imp.nouveau_fin.unwrap()@))
        } else {
            position_finale(tous, impacts.drop_last(), id)
        }
    }
}

/// Le déplacement `imp` est contrôlé : un déplacement avec ses deux horaires.
pub open spec fn deplacement_complet(imp: ImpactCreneau) -> bool {
    imp.action == ImpactAction::Deplace && imp.nouveau_debut is Some && imp.nouveau_fin is Some
}

/// Le créneau `c`, de l'activité `autre`, chevauche à l'état final le nouvel
/// horaire de `imp` (même année, même jour).
pub open spec fn creneau_en_conflit(
    c: CreneauActivite,
    autre: i64,
    imp: ImpactCreneau,
    tous: Seq<CreneauActivite>,
    impacts: Seq<ImpactCreneau>,
) -> bool {
    &&& c.activite_id == autre
    &&& c.annee_scolaire@ == imp.annee_scolaire@
    &&& match position_finale(tous, impacts, c.id) {
        Some((jour, d, f)) => jour == imp.jour_semaine && lex_inf(imp.nouveau_debut.unwrap()@, f)
            && lex_inf(d, imp.nouveau_fin.unwrap()@),
        None => false,
    }
}

pub open spec fn pred_creneau(
    autre: i64,
    imp: ImpactCreneau,
    tous: Seq<CreneauActivite>,
    impacts: Seq<ImpactCreneau>,
) -> spec_fn(int) -> bool {
    |j: int| creneau_en_conflit(tous[j], autre, imp, tous, impacts)
}

/// Premier créneau (dans l'ordre de `tous`) de l'activité `autre` en conflit.
pub open spec fn conflit_creneau(
    autre: i64,
    imp: ImpactCreneau,
    tous: Seq<CreneauActivite>,
    impacts: Seq<ImpactCreneau>,
) -> Option<int> {
    premier(tous.len(), pred_creneau(autre, imp, tous, impacts))
}

/// L'inscription `i2` est, pour la même personne que `i1` et la même année,
/// une autre activité que celle de `imp`.
pub open spec fn autre_activite(
    ins: Seq<Inscription>,
    i1: int,
    i2: int,
    imp: ImpactCreneau,
) -> bool {
    &&& ins[i2].personne_id == ins[i1].personne_id
    &&& ins[i2].annee_scolaire@ == imp.annee_scolaire@
    &&& ins[i2].activite_id != imp.activite_id
}

pub open spec fn pred_activite(
    i1: int,
    imp: ImpactCreneau,
    ins: Seq<Inscription>,
    tous: Seq<CreneauActivite>,
    impacts: Seq<ImpactCreneau>,
) -> spec_fn(int) -> bool {
    |i2: int| autre_activite(ins, i1, i2, imp) && conflit_creneau(ins[i2].activite_id, imp, tous, impacts) is Some
}

/// Première inscription de la même personne à une autre activité en conflit.
pub open spec fn conflit_activite(
    i1: int,
    imp: ImpactCreneau,
    ins: Seq<Inscription>,
    tous: Seq<CreneauActivite>,
    impacts: Seq<ImpactCreneau>,
) -> Option<int> {
    premier(ins.len(), pred_activite(i1, imp, ins, tous, impacts))
}

/// L'inscription `i1` est celle d'un adhérent de l'activité de `imp`, même année.
pub open spec fn inscrit_de(ins: Inscription, imp: ImpactCreneau) -> bool {
    ins.activite_id == imp.activite_id && ins.annee_scolaire@ == imp.annee_scolaire@
}

pub open spec fn pred_inscrit(
    imp: ImpactCreneau,
    ins: Seq<Inscription>,
    tous: Seq<CreneauActivite>,
    impacts: Seq<ImpactCreneau>,
) -> spec_fn(int) -> bool {
    |i1: int| inscrit_de(ins[i1], imp) && conflit_activite(i1, imp, ins, tous, impacts) is Some
}

/// Premier adhérent (dans l'ordre des inscriptions) inscrit à une activité en conflit.
pub open spec fn conflit_inscrit(
    imp: ImpactCreneau,
    ins: Seq<Inscription>,
    tous: Seq<CreneauActivite>,
    impacts: Seq<ImpactCreneau>,
) -> Option<int> {
    premier(ins.len(), pred_inscrit(imp, ins, tous, impacts))
}

pub open spec fn pred_nom(ins: Seq<Inscription>, activite: i64) -> spec_fn(int) -> bool {
    |i: int| ins[i].activite_id == activite
}

/// Nom d'une activité : celui de sa première inscription, « ? » sinon.
pub open spec fn nom_activite(ins: Seq<Inscription>, activite: i64) -> Seq<char> {
    match premier(ins.len(), pred_nom(ins, activite)) {
        Some(i) => ins[i].activite_nom@,
        None => "?"@,
    }
}

pub open spec fn raison_conflit(nom: Seq<char>, jour: int, d: Seq<char>, f: Seq<char>) -> Seq<char> {
    "chevauche l'activité « "@ + nom + " » le "@ + nom_jour(jour) + " ("@ + d + "–"@ + f
        + ") avec un adhérent déjà inscrit"@
}

/// Même impact, à l'action et à la raison près.
pub open spec fn meme_creneau(a: ImpactCreneau, b: ImpactCreneau) -> bool {
    &&& reprend_impact(a, b)
    &&& a.nouveau_debut == b.nouveau_debut
    &&& a.nouveau_fin == b.nouveau_fin
}

pub open spec fn reprend_impact(a: ImpactCreneau, b: ImpactCreneau) -> bool {
    &&& a.creneau_id == b.creneau_id
    &&& a.activite_id == b.activite_id
    &&& a.activite_nom == b.activite_nom
    &&& a.jour_semaine == b.jour_semaine
    &&& a.heure_debut == b.heure_debut
    &&& a.heure_fin == b.heure_fin
    &&& a.annee_scolaire == b.annee_scolaire
}

/// Impact après le contrôle des adhérents : un déplacement qui mettrait un
/// adhérent en conflit devient impossible, avec la raison.
pub open spec fn impact_controle(
    r: ImpactCreneau,
    imp: ImpactCreneau,
    ins: Seq<Inscription>,
    tous: Seq<CreneauActivite>,
    impacts: Seq<ImpactCreneau>,
) -> bool {
    &&& meme_creneau(r, imp)
    &&& if deplacement_complet(imp) && conflit_inscrit(imp, ins, tous, impacts) is Some {
        let i1 = conflit_inscrit(imp, ins, tous, impacts).unwrap();
        let i2 = conflit_activite(i1, imp, ins, tous, impacts).unwrap();
        let autre = ins[i2].activite_id;
        let j = conflit_creneau(autre, imp, tous, impacts).unwrap();
        let pos = position_finale(tous, impacts, tous[j].id).unwrap();
        &&& r.action == ImpactAction::DeplaceImpossible
        &&& r.raison matches Some(m) && m@ == raison_conflit(
            nom_activite(ins, autre),
            imp.jour_semaine as int,
            pos.1,
            pos.2,
        )
    } else {
        &&& r.action == imp.action
        &&& r.raison == imp.raison
    }
}

/// Après le contrôle des adhérents, un déplacement maintenu ne met aucun
/// adhérent de l'activité en conflit : aucune autre activité de la même
/// personne (même année) n'a de créneau qui, à l'état final, chevauche le
/// nouvel horaire le même jour.
pub proof fn loi_deplacement_sans_conflit_adherent(
    r: Seq<ImpactCreneau>,
    impacts: Seq<ImpactCreneau>,
    ins: Seq<Inscription>,
    tous: Seq<CreneauActivite>,
    k: int,
)
    requires
        r.len() == impacts.len(),
        forall|j: int| 0 <= j < r.len() ==> impact_controle(#[trigger] r[j], impacts[j], ins, tous, impacts),
        0 <= k < r.len(),
        deplacement_complet(r[k]),
    ensures
        forall|i1: int, i2: int, j: int|
            #![trigger ins[i1], ins[i2], tous[j]]
            0 <= i1 < ins.len() && 0 <= i2 < ins.len() && 0 <= j < tous.len()
                && ins[i1].activite_id == impacts[k].activite_id && ins[i1].annee_scolaire@
                == impacts[k].annee_scolaire@ && ins[i2].personne_id == ins[i1].personne_id
                && ins[i2].annee_scolaire@ == impacts[k].annee_scolaire@ && ins[i2].activite_id
                != impacts[k].activite_id && tous[j].activite_id == ins[i2].activite_id
                && tous[j].annee_scolaire@ == impacts[k].annee_scolaire@ ==> !(position_finale(tous, impacts, tous[j].id) matches Some((jour, d, f)) && jour
                == impacts[k].jour_semaine && lex_inf(impacts[k].nouveau_debut.unwrap()@, f) && lex_inf(
                d,
                impacts[k].nouveau_fin.unwrap()@,
            )),
{
    let imp = impacts[k];
    assert(impact_controle(r[k], imp, ins, tous, impacts));
    assert(deplacement_complet(imp));
    assert(conflit_inscrit(imp, ins, tous, impacts) is None);
    let p1 = pred_inscrit(imp, ins, tous, impacts);
    lemme_premier(ins.len(), p1);
    assert forall|i1: int, i2: int, j: int|
        #![trigger ins[i1], ins[i2], tous[j]]
        0 <= i1 < ins.len() && 0 <= i2 < ins.len() && 0 <= j < tous.len()
                && ins[i1].activite_id == imp.activite_id && ins[i1].annee_scolaire@
                == imp.annee_scolaire@ && ins[i2].personne_id == ins[i1].personne_id
                && ins[i2].annee_scolaire@ == imp.annee_scolaire@ && ins[i2].activite_id
                != imp.activite_id && tous[j].activite_id == ins[i2].activite_id
                && tous[j].annee_scolaire@ == imp.annee_scolaire@ implies !(position_finale(tous, impacts, tous[j].id) matches Some((jour, d, f)) && jour
                == imp.jour_semaine && lex_inf(imp.nouveau_debut.unwrap()@, f) && lex_inf(
                d,
                imp.nouveau_fin.unwrap()@,
            )) by {
        assert(inscrit_de(ins[i1], imp));
        assert(autre_activite(ins, i1, i2, imp));
        assert(!p1(i1));
        let p2 = pred_activite(i1, imp, ins, tous, impacts);
        lemme_premier(ins.len(), p2);
        assert(!p2(i2));
        let p3 = pred_creneau(ins[i2].activite_id, imp, tous, impacts);
        lemme_premier(tous.len(), p3);
        assert(!p3(j));
        assert(!creneau_en_conflit(tous[j], ins[i2].activite_id, imp, tous, impacts));
    }
}

/// Un déplacement bloqué par le contrôle des adhérents l'est à cause d'une
/// personne : une inscription `i1` à l'activité du créneau déplacé et une
/// inscription `i2` de la même personne, la même année, à une autre activité
/// dont un créneau `j` de cette année chevauche à l'état final le nouvel
/// horaire, le même jour. Les inscriptions d'autres personnes ne bloquent
/// jamais un déplacement.
pub proof fn loi_blocage_par_un_adherent(
    r: Seq<ImpactCreneau>,
    impacts: Seq<ImpactCreneau>,
    ins: Seq<Inscription>,
    tous: Seq<CreneauActivite>,
    k: int,
)
    requires
        r.len() == impacts.len(),
        forall|j: int| 0 <= j < r.len() ==> impact_controle(#[trigger] r[j], impacts[j], ins, tous, impacts),
        0 <= k < r.len(),
        impacts[k].action == ImpactAction::Deplace,
        r[k].action == ImpactAction::DeplaceImpossible,
    ensures
        impacts[k].nouveau_debut is Some && impacts[k].nouveau_fin is Some,
        r[k].raison is Some,
        exists|i1: int, i2: int, j: int|
            #![trigger ins[i1], ins[i2], tous[j]]
            0 <= i1 < ins.len() && 0 <= i2 < ins.len() && 0 <= j < tous.len()
                && ins[i1].activite_id == impacts[k].activite_id && ins[i1].annee_scolaire@
                == impacts[k].annee_scolaire@ && ins[i2].personne_id == ins[i1].personne_id
                && ins[i2].annee_scolaire@ == impacts[k].annee_scolaire@ && ins[i2].activite_id
                != impacts[k].activite_id && tous[j].activite_id == ins[i2].activite_id
                && tous[j].annee_scolaire@ == impacts[k].annee_scolaire@ && (position_finale(
                tous,
                impacts,
                tous[j].id,
            ) matches Some((jour, d, f)) && jour == impacts[k].jour_semaine && lex_inf(
                impacts[k].nouveau_debut.unwrap()@,
                f,
            ) && lex_inf(d, impacts[k].nouveau_fin.unwrap()@)),
{
    let imp = impacts[k];
    assert(impact_controle(r[k], imp, ins, tous, impacts));
    assert(deplacement_complet(imp) && conflit_inscrit(imp, ins, tous, impacts) is Some);
    let p1 = pred_inscrit(imp, ins, tous, impacts);
    lemme_premier(ins.len(), p1);
    let i1 = conflit_inscrit(imp, ins, tous, impacts).unwrap();
    assert(p1(i1));
    let p2 = pred_activite(i1, imp, ins, tous, impacts);
    lemme_premier(ins.len(), p2);
    let i2 = conflit_activite(i1, imp, ins, tous, impacts).unwrap();
    assert(p2(i2));
    let p3 = pred_creneau(ins[i2].activite_id, imp, tous, impacts);
    lemme_premier(tous.len(), p3);
    let j = conflit_creneau(ins[i2].activite_id, imp, tous, impacts).unwrap();
    assert(p3(j));
    assert(creneau_en_conflit(tous[j], ins[i2].activite_id, imp, tous, impacts));
    assert(ins[i1].activite_id == imp.activite_id);
}

fn copie_option(o: &Option<String>) -> (r: Option<String>)
    ensures
        r == *o,
{
    match o {
        Some(s) => Some(s.clone()),
        None => None,
    }
}

fn dupliquer(imp: &ImpactCreneau) -> (r: ImpactCreneau)
    ensures
        r == *imp,
{
    ImpactCreneau {
        creneau_id: imp.creneau_id,
        activite_id: imp.activite_id,
        activite_nom: imp.activite_nom.clone(),
        jour_semaine: imp.jour_semaine,
        heure_debut: imp.heure_debut.clone(),
        heure_fin: imp.heure_fin.clone(),
        annee_scolaire: imp.annee_scolaire.clone(),
        action: imp.action,
        nouveau_debut: copie_option(&imp.nouveau_debut),
        nouveau_fin: copie_option(&imp.nouveau_fin),
        raison: copie_option(&imp.raison),
    }
}

pub open spec fn vue_position(p: Option<(i64, String, String)>) -> Option<(i64, Seq<char>, Seq<char>)> {
    match p {
        Some((j, d, f)) => Some((j, d@, f@)),
        None => None,
    }
}

fn position_initiale_exec(tous: &[CreneauActivite], id: i64) -> (r: Option<(i64, String, String)>)
    ensures
        vue_position(r) == position_initiale(tous@, id),
{
    let mut i = tous.len();
    assert(tous@.subrange(0, i as int) =~= tous@);
    while i > 0
        invariant
            i <= tous@.len(),
            position_initiale(tous@, id) == position_initiale(tous@.subrange(0, i as int), id),
        decreases i,
    {
        assert(tous@.subrange(0, i as int).drop_last() =~= tous@.subrange(0, i - 1));
        if tous[i - 1].id == id {
            let c = &tous[i - 1];
            return Some((c.jour_semaine, c.heure_debut.clone(), c.heure_fin.clone()));
        }
        i = i - 1;
    }
    None
}

fn position_finale_exec(tous: &[CreneauActivite], impacts: &[ImpactCreneau], id: i64) -> (r: Option<
    (i64, String, String),
>)
    ensures
        vue_position(r) == position_finale(tous@, impacts@, id),
{
    let mut i = impacts.len();
    assert(impacts@.subrange(0, i as int) =~= impacts@);
    while i > 0
        invariant
            i <= impacts@.len(),
            position_finale(tous@, impacts@, id) == position_finale(
                tous@,
                impacts@.subrange(0, i as int),
                id,
            ),
        decreases i,
    {
        assert(impacts@.subrange(0, i as int).drop_last() =~= impacts@.subrange(0, i - 1));
        let imp = &impacts[i - 1];
        if imp.creneau_id == id {
            if imp.action == ImpactAction::Supprime {
                return None;
            }
            if imp.action == ImpactAction::Deplace {
                match (&imp.nouveau_debut, &imp.nouveau_fin) {
                    (Some(d), Some(f)) => {
                        return Some((imp.jour_semaine, d.clone(), f.clone()));
                    },
                    _ => {},
                }
            }
        }
        i = i - 1;
    }
    position_initiale_exec(tous, id)
}

fn creneau_en_conflit_exec(
    c: &CreneauActivite,
    autre: i64,
    imp: &ImpactCreneau,
    tous: &[CreneauActivite],
    impacts: &[ImpactCreneau],
) -> (r: Option<(i64, String, String)>)
    requires
        deplacement_complet(*imp),
    ensures
        r is Some <==> creneau_en_conflit(*c, autre, *imp, tous@, impacts@),
        r is Some ==> vue_position(r) == position_finale(tous@, impacts@, c.id),
{
    if c.activite_id != autre || !egal(c.annee_scolaire.as_str(), imp.annee_scolaire.as_str()) {
        return None;
    }
    let pos = position_finale_exec(tous, impacts, c.id);
    match pos {
        None => None,
        Some((jour, d, f)) => {
            let nd = match &imp.nouveau_debut {
                Some(x) => x,
                None => {
                    return None;
                },
            };
            let nf = match &imp.nouveau_fin {
                Some(x) => x,
                None => {
                    return None;
                },
            };
            if jour == imp.jour_semaine && inferieur(nd.as_str(), f.as_str()) && inferieur(
                d.as_str(),
                nf.as_str(),
            ) {
                Some((jour, d, f))
            } else {
                None
            }
        },
    }
}

fn conflit_creneau_exec(
    autre: i64,
    imp: &ImpactCreneau,
    tous: &[CreneauActivite],
    impacts: &[ImpactCreneau],
) -> (r: Option<(usize, (i64, String, String))>)
    requires
        deplacement_complet(*imp),
    ensures
        match conflit_creneau(autre, *imp, tous@, impacts@) {
            Some(j) => r matches Some((k, pos)) && k == j && vue_position(Some(pos))
                == position_finale(tous@, impacts@, tous@[j].id),
            None => r is None,
        },
{
    let ghost p = pred_creneau(autre, *imp, tous@, impacts@);
    let mut j: usize = 0;
    while j < tous.len()
        invariant
            j <= tous@.len(),
            p == pred_creneau(autre, *imp, tous@, impacts@),
            deplacement_complet(*imp),
            premier(j as nat, p) is None,
        decreases tous.len() - j,
    {
        match creneau_en_conflit_exec(&tous[j], autre, imp, tous, impacts) {
            Some(pos) => {
                assert(p(j as int));
                assert(premier((j + 1) as nat, p) == Some(j as int));
                proof {
                    lemme_premier_stable((j + 1) as nat, tous@.len(), p);
                }
                return Some((j, pos));
            },
            None => {
                assert(!p(j as int));
            },
        }
        j = j + 1;
    }
    None
}

fn conflit_activite_exec(
    i1: usize,
    imp: &ImpactCreneau,
    ins: &[Inscription],
    tous: &[CreneauActivite],
    impacts: &[ImpactCreneau],
) -> (r: Option<(usize, usize, (i64, String, String))>)
    requires
        deplacement_complet(*imp),
        i1 < ins@.len(),
    ensures
        r matches Some((k, _, _)) ==> k < ins@.len(),
        match conflit_activite(i1 as int, *imp, ins@, tous@, impacts@) {
            Some(i2) => r matches Some((k, j, pos)) && k == i2 && conflit_creneau(
                ins@[i2].activite_id,
                *imp,
                tous@,
                impacts@,
            ) == Some(j as int) && vue_position(Some(pos)) == position_finale(
                tous@,
                impacts@,
                tous@[j as int].id,
            ),
            None => r is None,
        },
{
    let ghost p = pred_activite(i1 as int, *imp, ins@, tous@, impacts@);
    let mut i2: usize = 0;
    while i2 < ins.len()
        invariant
            i2 <= ins@.len(),
            i1 < ins@.len(),
            p == pred_activite(i1 as int, *imp, ins@, tous@, impacts@),
            deplacement_complet(*imp),
            premier(i2 as nat, p) is None,
        decreases ins.len() - i2,
    {
        let b = &ins[i2];
        if b.personne_id == ins[i1].personne_id && egal(
            b.annee_scolaire.as_str(),
            imp.annee_scolaire.as_str(),
        ) && b.activite_id != imp.activite_id {
            match conflit_creneau_exec(b.activite_id, imp, tous, impacts) {
                Some((j, pos)) => {
                    assert(p(i2 as int));
                    assert(premier((i2 + 1) as nat, p) == Some(i2 as int));
                    proof {
                        lemme_premier_stable((i2 + 1) as nat, ins@.len(), p);
                    }
                    return Some((i2, j, pos));
                },
                None => {
                    assert(!p(i2 as int));
                },
            }
        } else {
            assert(!p(i2 as int));
        }
        i2 = i2 + 1;
    }
    None
}

fn conflit_inscrit_exec(
    imp: &ImpactCreneau,
    ins: &[Inscription],
    tous: &[CreneauActivite],
    impacts: &[ImpactCreneau],
) -> (r: Option<(usize, usize, (i64, String, String))>)
    requires
        deplacement_complet(*imp),
    ensures
        r matches Some((k, _, _)) ==> k < ins@.len(),
        match conflit_inscrit(*imp, ins@, tous@, impacts@) {
            Some(i1) => r matches Some((i2, j, pos)) && conflit_activite(
                i1,
                *imp,
                ins@,
                tous@,
                impacts@,
            ) == Some(i2 as int) && conflit_creneau(ins@[i2 as int].activite_id, *imp, tous@, impacts@)
                == Some(j as int) && vue_position(Some(pos)) == position_finale(
                tous@,
                impacts@,
                tous@[j as int].id,
            ),
            None => r is None,
        },
{
    let ghost p = pred_inscrit(*imp, ins@, tous@, impacts@);
    let mut i1: usize = 0;
    while i1 < ins.len()
        invariant
            i1 <= ins@.len(),
            p == pred_inscrit(*imp, ins@, tous@, impacts@),
            deplacement_complet(*imp),
            premier(i1 as nat, p) is None,
        decreases ins.len() - i1,
    {
        if ins[i1].activite_id == imp.activite_id && egal(
            ins[i1].annee_scolaire.as_str(),
            imp.annee_scolaire.as_str(),
        ) {
            match conflit_activite_exec(i1, imp, ins, tous, impacts) {
                Some((i2, j, pos)) => {
                    assert(p(i1 as int));
                    assert(premier((i1 + 1) as nat, p) == Some(i1 as int));
                    proof {
                        lemme_premier_stable((i1 + 1) as nat, ins@.len(), p);
                    }
                    return Some((i2, j, pos));
                },
                None => {
                    assert(!p(i1 as int));
                },
            }
        } else {
            assert(!p(i1 as int));
        }
        i1 = i1 + 1;
    }
    None
}

fn nom_activite_exec(ins: &[Inscription], activite: i64) -> (r: String)
    ensures
        r@ == nom_activite(ins@, activite),
{
    let ghost p = pred_nom(ins@, activite);
    let mut i: usize = 0;
    while i < ins.len()
        invariant
            i <= ins@.len(),
            p == pred_nom(ins@, activite),
            premier(i as nat, p) is None,
        decreases ins.len() - i,
    {
        if ins[i].activite_id == activite {
            assert(p(i as int));
            assert(premier((i + 1) as nat, p) == Some(i as int));
            proof {
                lemme_premier_stable((i + 1) as nat, ins@.len(), p);
            }
            return copie(ins[i].activite_nom.as_str());
        }
        assert(!p(i as int));
        i = i + 1;
    }
    copie("?")
}

/// Seconde passe : un déplacement qui mettrait un adhérent en conflit avec
/// une autre de ses activités (même année, même jour, horaires qui se
/// chevauchent à l'état final) devient impossible.
pub fn controler_adherents(
    impacts: &[ImpactCreneau],
    tous: &[CreneauActivite],
    inscriptions: &[Inscription],
) -> (r: Vec<ImpactCreneau>)
    ensures
        r@.len() == impacts@.len(),
        forall|k: int|
            0 <= k < r@.len() ==> impact_controle(
                #[trigger] r@[k],
                impacts@[k],
                inscriptions@,
                tous@,
                impacts@,
            ),
        forall|k: int|
            0 <= k < r@.len() ==> (#[trigger] r@[k]).action == impacts@[k].action || (
            impacts@[k].action == ImpactAction::Deplace && r@[k].action
                == ImpactAction::DeplaceImpossible),
{
    let mut r: Vec<ImpactCreneau> = Vec::new();
    let mut k: usize = 0;
    while k < impacts.len()
        invariant
            k <= impacts@.len(),
            r@.len() == k,
            forall|j: int|
                0 <= j < k ==> impact_controle(
                    #[trigger] r@[j],
                    impacts@[j],
                    inscriptions@,
                    tous@,
                    impacts@,
                ),
        decreases impacts.len() - k,
    {
        let imp = &impacts[k];
        let mut copie_imp = dupliquer(imp);
        let complet = imp.action == ImpactAction::Deplace && imp.nouveau_debut.is_some()
            && imp.nouveau_fin.is_some();
        if complet {
            match conflit_inscrit_exec(imp, inscriptions, tous, impacts) {
                Some((i2, _j, pos)) => {
                    let (_jour, d, f) = pos;
                    let nom = nom_activite_exec(inscriptions, inscriptions[i2].activite_id);
                    let mut m = String::new();
                    ajouter_texte(&mut m, "chevauche l'activité « ");
                    ajouter_texte(&mut m, nom.as_str());
                    ajouter_texte(&mut m, " » le ");
                    ajouter_texte(&mut m, jour_semaine_texte(imp.jour_semaine));
                    ajouter_texte(&mut m, " (");
                    ajouter_texte(&mut m, d.as_str());
                    ajouter_texte(&mut m, "–");
                    ajouter_texte(&mut m, f.as_str());
                    ajouter_texte(&mut m, ") avec un adhérent déjà inscrit");
                    copie_imp.action = ImpactAction::DeplaceImpossible;
                    copie_imp.raison = Some(m);
                },
                None => {},
            }
        }
        r.push(copie_imp);
        k = k + 1;
    }
    assert forall|k: int| 0 <= k < r@.len() implies (#[trigger] r@[k]).action
        == impacts@[k].action || (impacts@[k].action == ImpactAction::Deplace && r@[k].action
        == ImpactAction::DeplaceImpossible) by {
        assert(impact_controle(r@[k], impacts@[k], inscriptions@, tous@, impacts@));
    }
    r
}


// ───────────────────────── Application d'une nouvelle plage ─────────────────────────

/// Écriture à faire en base pour appliquer une nouvelle plage.
pub enum OperationPlage {
    Supprimer(i64),
    Deplacer(i64, String, String),
}

pub open spec fn vue_operation(o: OperationPlage) -> (i64, Option<(Seq<char>, Seq<char>)>) {
    match o {
        OperationPlage::Supprimer(id) => (id, None),
        OperationPlage::Deplacer(id, d, f) => (id, Some((d@, f@))),
    }
}

/// Écritures, dans l'ordre des impacts : suppression des créneaux supprimés,
/// déplacement des créneaux déplacés.
pub open spec fn plan(impacts: Seq<ImpactCreneau>) -> Seq<(i64, Option<(Seq<char>, Seq<char>)>)>
    decreases impacts.len(),
{
    if impacts.len() == 0 {
        Seq::empty()
    } else {
        let r = plan(impacts.drop_last());
        let imp = impacts.last();
        if imp.action == ImpactAction::Supprime {
            r.push((imp.creneau_id, None))
        } else if deplacement_complet(imp) {
            r.push((imp.creneau_id, Some((imp.nouveau_debut.unwrap()@, imp.nouveau_fin.unwrap()@))))
        } else {
            r
        }
    }
}

pub open spec fn pred_bloquant(impacts: Seq<ImpactCreneau>) -> spec_fn(int) -> bool {
    |k: int| impacts[k].action == ImpactAction::DeplaceImpossible
}

/// Premier créneau dont le déplacement est impossible.
pub open spec fn premier_bloquant(impacts: Seq<ImpactCreneau>) -> Option<int> {
    premier(impacts.len(), pred_bloquant(impacts))
}

pub open spec fn message_bloquant(imp: ImpactCreneau) -> Seq<char> {
    let tete = "Impossible de réduire la plage horaire : le créneau "@ + imp.heure_debut@ + "–"@
        + imp.heure_fin@ + " de l'activité « "@ + imp.activite_nom@ + " » (jour "@
        + decimal_signe(imp.jour_semaine as int) + ") "@;
    match imp.raison {
        Some(r) => tete + "ne peut pas être déplacé : "@ + r@ + "."@,
        None => tete
            + "compte des inscrits et ne trouve aucune place libre dans la nouvelle plage. Élargissez la plage ou retirez d'abord les inscrits."@,
    }
}

/// Nombre d'impacts d'une action donnée.
pub open spec fn nb_action(impacts: Seq<ImpactCreneau>, a: ImpactAction) -> nat
    decreases impacts.len(),
{
    if impacts.len() == 0 {
        0
    } else {
        nb_action(impacts.drop_last(), a) + if impacts.last().action == a {
            1nat
        } else {
            0nat
        }
    }
}

pub open spec fn message_confirmation(n: nat, supprimes: nat, deplaces: nat) -> Seq<char> {
    "La réduction de la plage horaire impacte "@ + decimal(n) + " créneau(x) ("@ + decimal(
        supprimes,
    ) + " à supprimer, "@ + decimal(deplaces) + " à déplacer). Confirmez pour appliquer."@
}

fn compter_action(impacts: &[ImpactCreneau], a: ImpactAction) -> (r: usize)
    ensures
        r == nb_action(impacts@, a),
{
    let mut n: usize = 0;
    let mut k: usize = 0;
    while k < impacts.len()
        invariant
            k <= impacts@.len(),
            n == nb_action(impacts@.subrange(0, k as int), a),
            n <= k,
        decreases impacts.len() - k,
    {
        assert(impacts@.subrange(0, k + 1).drop_last() =~= impacts@.subrange(0, k as int));
        if impacts[k].action == a {
            n = n + 1;
        }
        k = k + 1;
    }
    assert(impacts@.subrange(0, impacts@.len() as int) =~= impacts@);
    n
}

/// Décide d'appliquer une nouvelle plage à partir des impacts calculés :
/// refus si un créneau avec inscrits ne peut pas être déplacé ; refus sans
/// confirmation si un créneau est touché ; sinon, les écritures à faire.
pub fn decider_application(impacts: &[ImpactCreneau], confirmer_suppression: bool) -> (r: Result<
    Vec<OperationPlage>,
    AppError,
>)
    ensures
        match premier_bloquant(impacts@) {
            Some(k) => r matches Err(AppError::Conflict(m)) && m@ == message_bloquant(impacts@[k]),
            None => if impacts@.len() > 0 && !confirmer_suppression {
                r matches Err(AppError::Conflict(m)) && m@ == message_confirmation(
                    impacts@.len(),
                    nb_action(impacts@, ImpactAction::Supprime),
                    nb_action(impacts@, ImpactAction::Deplace),
                )
            } else {
                r matches Ok(ops) && ops@.map_values(|o: OperationPlage| vue_operation(o)) == plan(
                    impacts@,
                )
            },
        },
        r is Ok ==> forall|k: int|
            0 <= k < impacts@.len() ==> (#[trigger] impacts@[k]).action
                != ImpactAction::DeplaceImpossible,
{
    let ghost p = pred_bloquant(impacts@);
    let mut k: usize = 0;
    while k < impacts.len()
        invariant
            k <= impacts@.len(),
            p == pred_bloquant(impacts@),
            premier(k as nat, p) is None,
        decreases impacts.len() - k,
    {
        if impacts[k].action == ImpactAction::DeplaceImpossible {
            assert(p(k as int));
            assert(premier((k + 1) as nat, p) == Some(k as int));
            proof {
                lemme_premier_stable((k + 1) as nat, impacts@.len(), p);
            }
            let b = &impacts[k];
            let mut m = String::new();
            ajouter_texte(&mut m, "Impossible de réduire la plage horaire : le créneau ");
            ajouter_texte(&mut m, b.heure_debut.as_str());
            ajouter_texte(&mut m, "–");
            ajouter_texte(&mut m, b.heure_fin.as_str());
            ajouter_texte(&mut m, " de l'activité « ");
            ajouter_texte(&mut m, b.activite_nom.as_str());
            ajouter_texte(&mut m, " » (jour ");
            ecrire_entier(&mut m, b.jour_semaine);
            ajouter_texte(&mut m, ") ");
            match &b.raison {
                Some(raison) => {
                    ajouter_texte(&mut m, "ne peut pas être déplacé : ");
                    ajouter_texte(&mut m, raison.as_str());
                    ajouter_texte(&mut m, ".");
                },
                None => {
                    ajouter_texte(
                        &mut m,
                        "compte des inscrits et ne trouve aucune place libre dans la nouvelle plage. Élargissez la plage ou retirez d'abord les inscrits.",
                    );
                },
            }
            return Err(AppError::Conflict(m));
        }
        assert(!p(k as int));
        k = k + 1;
    }
    proof {
        lemme_premier(impacts@.len(), p);
    }
    if impacts.len() > 0 && !confirmer_suppression {
        let nb_supprimes = compter_action(impacts, ImpactAction::Supprime);
        let nb_deplaces = compter_action(impacts, ImpactAction::Deplace);
        let mut m = String::new();
        ajouter_texte(&mut m, "La réduction de la plage horaire impacte ");
        ecrire_naturel(&mut m, impacts.len() as u64);
        ajouter_texte(&mut m, " créneau(x) (");
        ecrire_naturel(&mut m, nb_supprimes as u64);
        ajouter_texte(&mut m, " à supprimer, ");
        ecrire_naturel(&mut m, nb_deplaces as u64);
        ajouter_texte(&mut m, " à déplacer). Confirmez pour appliquer.");
        return Err(AppError::Conflict(m));
    }
    assert forall|j: int| 0 <= j < impacts@.len() implies (#[trigger] impacts@[j]).action
        != ImpactAction::DeplaceImpossible by {
        assert(!p(j));
    }
    let mut ops: Vec<OperationPlage> = Vec::new();
    let mut i: usize = 0;
    while i < impacts.len()
        invariant
            i <= impacts@.len(),
            forall|j: int|
                0 <= j < impacts@.len() ==> (#[trigger] impacts@[j]).action
                    != ImpactAction::DeplaceImpossible,
            ops@.map_values(|o: OperationPlage| vue_operation(o)) == plan(
                impacts@.subrange(0, i as int),
            ),
        decreases impacts.len() - i,
    {
        let imp = &impacts[i];
        let ghost avant = ops@;
        assert(impacts@.subrange(0, i + 1).drop_last() =~= impacts@.subrange(0, i as int));
        if imp.action == ImpactAction::Supprime {
            ops.push(OperationPlage::Supprimer(imp.creneau_id));
            assert(ops@.map_values(|o: OperationPlage| vue_operation(o)) =~= avant.map_values(
                |o: OperationPlage| vue_operation(o),
            ).push((imp.creneau_id, None)));
        } else if imp.action == ImpactAction::Deplace {
            match (&imp.nouveau_debut, &imp.nouveau_fin) {
                (Some(d), Some(f)) => {
                    ops.push(OperationPlage::Deplacer(imp.creneau_id, d.clone(), f.clone()));
                    assert(ops@.map_values(|o: OperationPlage| vue_operation(o)) =~= avant.map_values(
                        |o: OperationPlage| vue_operation(o),
                    ).push((imp.creneau_id, Some((d@, f@)))));
                },
                _ => {},
            }
        }
        i = i + 1;
    }
    assert(impacts@.subrange(0, impacts@.len() as int) =~= impacts@);
    Ok(ops)
}


/// La plage peut-elle être calculée sans débordement (voir `plage_calculable`) ?
pub fn est_plage_calculable(
    heure_ouverture: &str,
    heure_fermeture: &str,
    hors_plage: &[CreneauHorsPlage],
) -> (r: bool)
    ensures
        r == plage_calculable(hors_plage@, heure_ouverture@, heure_fermeture@),
{
    let o = heure_en_minutes(heure_ouverture);
    let f = heure_en_minutes(heure_fermeture);
    let mut k: usize = 0;
    while k < hors_plage.len()
        invariant
            k <= hors_plage@.len(),
            o == (match minutes_de(heure_ouverture@) { Some(n) => Some(n as u32), None => None }),
            f == (match minutes_de(heure_fermeture@) { Some(n) => Some(n as u32), None => None }),
            forall|j: int|
                0 <= j < k && (#[trigger] hors_plage@[j]).nb_inscrits != 0 ==> !deplacement_deborde(
                    hors_plage@[j].heure_debut@,
                    hors_plage@[j].heure_fin@,
                    heure_ouverture@,
                    heure_fermeture@,
                ),
        decreases hors_plage.len() - k,
    {
        let hp = &hors_plage[k];
        if hp.nb_inscrits != 0 {
            let d = heure_en_minutes(hp.heure_debut.as_str());
            let e = heure_en_minutes(hp.heure_fin.as_str());
            match (d, e, o, f) {
                (Some(d), Some(e), Some(o), Some(f)) => {
                    if e > d && o > f {
                        assert(deplacement_deborde(
                            hors_plage@[k as int].heure_debut@,
                            hors_plage@[k as int].heure_fin@,
                            heure_ouverture@,
                            heure_fermeture@,
                        ));
                        return false;
                    }
                },
                _ => {},
            }
        }
        k = k + 1;
    }
    true
}

} // verus!
