//! Saisie et affichage de la configuration de connexion.
use vstd::prelude::*;

use crate::erreur::AppError;
use crate::infrastructure::config::{ConnexionConfig, ModeConnexion};
use crate::texte::{
    ajouter_texte, caracteres, chaine_tranche, commence_par, commence_par_car, copie, egal,
    lemme_rogne_bords, lemme_rogne_idempotent, lemme_rogne_sans_bords, rogne, rogner,
};

verus! {

/// Configuration telle que montrée à l'utilisateur : la clé d'accès n'y
/// figure jamais, seulement sa présence.
pub struct ConfigAffichee {
    pub configuree: bool,
    pub mode: Option<ModeConnexion>,
    pub url: Option<String>,
    pub utilisateur: Option<String>,
    pub a_une_cle: bool,
}

pub struct ResultatSauvegarde {
    pub config: ConfigAffichee,
    pub redemarrage_requis: bool,
}

pub open spec fn vue_option(o: Option<String>) -> Option<Seq<char>> {
    match o {
        Some(s) => Some(s@),
        None => None,
    }
}

/// Une clé est présente et non vide.
pub open spec fn cle_presente(token: Option<String>) -> bool {
    token matches Some(t) && t@.len() > 0
}

fn copie_option(o: &Option<String>) -> (r: Option<String>)
    ensures
        vue_option(r) == vue_option(*o),
{
    match o {
        Some(s) => Some(copie(s.as_str())),
        None => None,
    }
}

fn egal_option(a: &Option<String>, b: &Option<String>) -> (r: bool)
    ensures
        r == (vue_option(*a) == vue_option(*b)),
{
    match (a, b) {
        (Some(x), Some(y)) => egal(x.as_str(), y.as_str()),
        (None, None) => true,
        _ => false,
    }
}

/// Forme affichée d'une configuration (ou de son absence).
pub fn vers_config_affichee(config: Option<&ConnexionConfig>) -> (r: ConfigAffichee)
    ensures
        match config {
            None => !r.configuree && r.mode is None && r.url is None && r.utilisateur is None
                && !r.a_une_cle,
            Some(c) => r.configuree && r.mode == Some(c.mode) && vue_option(r.url) == vue_option(
                c.url,
            ) && vue_option(r.utilisateur) == Some(c.utilisateur@) && r.a_une_cle
                == cle_presente(c.token),
        },
{
    match config {
        None => ConfigAffichee {
            configuree: false,
            mode: None,
            url: None,
            utilisateur: None,
            a_une_cle: false,
        },
        Some(c) => {
            let a_une_cle = match &c.token {
                Some(t) => !t.as_str().is_empty(),
                None => false,
            };
            ConfigAffichee {
                configuree: true,
                mode: Some(c.mode),
                url: copie_option(&c.url),
                utilisateur: Some(copie(c.utilisateur.as_str())),
                a_une_cle,
            }
        },
    }
}

/// Turso fournit des URLs `turso://…` ; libsql n'accepte que `libsql://…`.
pub open spec fn url_normalisee(url: Seq<char>) -> Seq<char> {
    if commence_par(url, "turso://"@) {
        "libsql://"@ + url.subrange("turso://"@.len() as int, url.len() as int)
    } else {
        url
    }
}

pub fn normaliser_url(url: String) -> (r: String)
    ensures
        r@ == url_normalisee(url@),
{
    let v = caracteres(url.as_str());
    let prefixe = caracteres("turso://");
    if commence_par_car(&v, &prefixe) {
        let mut r = String::new();
        ajouter_texte(&mut r, "libsql://");
        let reste = chaine_tranche(&v, prefixe.len(), v.len());
        ajouter_texte(&mut r, reste.as_str());
        r
    } else {
        url
    }
}

/// Normaliser deux fois revient à normaliser une fois.
pub proof fn loi_normaliser_url_idempotente(url: Seq<char>)
    ensures
        url_normalisee(url_normalisee(url)) == url_normalisee(url),
{
    reveal_strlit("turso://");
    reveal_strlit("libsql://");
    if commence_par(url, "turso://"@) {
        let n = url_normalisee(url);
        if commence_par(n, "turso://"@) {
            assert(n[1] == "libsql://"@[1]);
            assert(n.subrange(0, 8)[1] == 'u');
        }
    }
}

/// URL saisie pour le mode multi-utilisateurs : sans blancs, normalisée.
pub open spec fn url_saisie(url: String) -> Seq<char> {
    url_normalisee(rogne(url@))
}

/// La saisie retenue, présentée de nouveau, est retenue telle quelle : l'URL
/// sans blancs et normalisée, comme le nom d'utilisateur sans blancs, sont
/// des points fixes du contrôle de la saisie.
pub proof fn loi_saisie_stable(url: Seq<char>, utilisateur: Seq<char>)
    ensures
        url_normalisee(rogne(url_normalisee(rogne(url)))) == url_normalisee(rogne(url)),
        rogne(rogne(utilisateur)) == rogne(utilisateur),
{
    lemme_rogne_idempotent(utilisateur);
    let t = rogne(url);
    let n = url_normalisee(t);
    lemme_rogne_bords(url);
    reveal_strlit("turso://");
    reveal_strlit("libsql://");
    if commence_par(t, "turso://"@) {
        assert(n[0] == 'l');
        if t.len() > 8 {
            assert(n.last() == t.last());
        } else {
            assert(n.last() == '/');
        }
    }
    lemme_rogne_sans_bords(n);
    loi_normaliser_url_idempotente(t);
}

/// Contrôle de la saisie : utilisateur non vide ; en mode multi, URL non vide.
/// Rend l'URL retenue (aucune en mode mono) et l'utilisateur sans blancs.
pub fn preparer_config(mode: ModeConnexion, url: Option<String>, utilisateur: String) -> (r:
    Result<(Option<String>, String), AppError>)
    ensures
        rogne(utilisateur@).len() == 0 ==> (r matches Err(AppError::Validation(m)) && m@
            == "Le nom d'utilisateur est requis."@),
        rogne(utilisateur@).len() > 0 ==> match mode {
            ModeConnexion::Mono => r matches Ok((u, n)) && u is None && n@ == rogne(
                utilisateur@,
            ),
            ModeConnexion::Multi => match url {
                Some(s) if url_saisie(s).len() > 0 => r matches Ok((u, n)) && vue_option(u)
                    == Some(url_saisie(s)) && n@ == rogne(utilisateur@),
                _ => r matches Err(AppError::Validation(m)) && m@
                    == "L'URL de la base est requise en mode multi-utilisateurs."@,
            },
        },
{
    let utilisateur = rogner(utilisateur.as_str());
    if utilisateur.as_str().is_empty() {
        return Err(AppError::Validation(copie("Le nom d'utilisateur est requis.")));
    }
    let url = match mode {
        ModeConnexion::Mono => None,
        ModeConnexion::Multi => {
            let url = match url {
                Some(u) => Some(normaliser_url(rogner(u.as_str()))),
                None => None,
            };
            match url {
                Some(u) => {
                    if u.as_str().is_empty() {
                        return Err(
                            AppError::Validation(
                                copie("L'URL de la base est requise en mode multi-utilisateurs."),
                            ),
                        );
                    }
                    Some(u)
                },
                None => {
                    return Err(
                        AppError::Validation(
                            copie("L'URL de la base est requise en mode multi-utilisateurs."),
                        ),
                    );
                },
            }
        },
    };
    Ok((url, utilisateur))
}

/// Clé retenue : la nouvelle clé sans blancs si elle n'est pas vide, sinon
/// l'ancienne si elle n'est pas vide, sinon aucune.
pub open spec fn cle_retenue(token: Option<String>, ancienne: Option<Seq<char>>) -> Option<
    Seq<char>,
> {
    match token {
        Some(t) if rogne(t@).len() > 0 => Some(rogne(t@)),
        _ => match ancienne {
            Some(a) if a.len() > 0 => Some(a),
            _ => None,
        },
    }
}

/// Un redémarrage est requis quand la connexion change ; au premier
/// lancement, seulement pour passer en mode multi-utilisateurs.
pub open spec fn redemarrage(
    avant: Option<(ModeConnexion, Option<Seq<char>>, Option<Seq<char>>)>,
    mode: ModeConnexion,
    url: Option<Seq<char>>,
    token: Option<Seq<char>>,
) -> bool {
    match avant {
        None => mode == ModeConnexion::Multi,
        Some((m, u, t)) => m != mode || u != url || t != token,
    }
}

pub open spec fn resume(c: ConnexionConfig) -> (ModeConnexion, Option<Seq<char>>, Option<Seq<char>>) {
    (c.mode, vue_option(c.url), vue_option(c.token))
}

/// Construit la configuration à enregistrer à partir de la saisie contrôlée
/// (`preparer_config`) et de la configuration déjà enregistrée, et le
/// résultat montré à l'utilisateur. La clé absente ou vide conserve
/// l'ancienne.
pub fn appliquer_config(
    avant: Option<&ConnexionConfig>,
    mode: ModeConnexion,
    url: Option<String>,
    token: Option<String>,
    utilisateur: String,
) -> (r: (ConnexionConfig, ResultatSauvegarde))
    ensures
        r.0.mode == mode,
        vue_option(r.0.url) == vue_option(url),
        vue_option(r.0.token) == cle_retenue(
            token,
            match avant {
                Some(c) => vue_option(c.token),
                None => None,
            },
        ),
        r.0.utilisateur@ == utilisateur@,
        r.1.redemarrage_requis == redemarrage(
            match avant {
                Some(c) => Some(resume(*c)),
                None => None,
            },
            mode,
            vue_option(url),
            vue_option(r.0.token),
        ),
        r.1.config.configuree && r.1.config.mode == Some(mode) && vue_option(r.1.config.url)
            == vue_option(url) && vue_option(r.1.config.utilisateur) == Some(utilisateur@)
            && r.1.config.a_une_cle == cle_presente(r.0.token),
{
    let ancien: Option<String> = match avant {
        Some(c) => copie_option(&c.token),
        None => None,
    };
    let token: Option<String> = match token {
        Some(t) => {
            let t2 = rogner(t.as_str());
            if !t2.as_str().is_empty() {
                Some(t2)
            } else {
                match ancien {
                    Some(a) => if !a.as_str().is_empty() { Some(a) } else { None },
                    None => None,
                }
            }
        },
        None => match ancien {
            Some(a) => if !a.as_str().is_empty() { Some(a) } else { None },
            None => None,
        },
    };
    let config = ConnexionConfig { mode, url, token, utilisateur };
    let redemarrage_requis = match avant {
        None => config.mode == ModeConnexion::Multi,
        Some(a) => a.mode != config.mode || !egal_option(&a.url, &config.url) || !egal_option(
            &a.token,
            &config.token,
        ),
    };
    let affichee = vers_config_affichee(Some(&config));
    (config, ResultatSauvegarde { config: affichee, redemarrage_requis })
}

/// Ce que `appliquer_config` dit du redémarrage : au premier enregistrement,
/// il est requis exactement pour passer en mode multi-utilisateurs ; ensuite,
/// exactement quand le mode, l'URL ou la clé enregistrés changent.
pub proof fn loi_redemarrage_si_connexion_changee(
    avant: Option<ConnexionConfig>,
    mode: ModeConnexion,
    url: Option<String>,
    enregistree: ConnexionConfig,
    r: ResultatSauvegarde,
)
    requires
        enregistree.mode == mode,
        vue_option(enregistree.url) == vue_option(url),
        r.redemarrage_requis == redemarrage(
            match avant {
                Some(c) => Some(resume(c)),
                None => None,
            },
            mode,
            vue_option(url),
            vue_option(enregistree.token),
        ),
    ensures
        avant is None ==> (r.redemarrage_requis <==> enregistree.mode == ModeConnexion::Multi),
        avant matches Some(c) ==> (r.redemarrage_requis <==> (c.mode != enregistree.mode
            || vue_option(c.url) != vue_option(enregistree.url) || vue_option(c.token)
            != vue_option(enregistree.token))),
{
}

/// Enregistrer de nouveau la configuration qui vient de l'être, avec le même
/// mode, la même URL et le champ de clé laissé vide, conserve la clé retenue
/// et ne demande pas de redémarrage.
pub proof fn loi_reenregistrement_sans_redemarrage(
    mode: ModeConnexion,
    url: Option<Seq<char>>,
    token: Option<String>,
    ancienne: Option<Seq<char>>,
)
    ensures
        cle_retenue(None, cle_retenue(token, ancienne)) == cle_retenue(token, ancienne),
        !redemarrage(
            Some((mode, url, cle_retenue(token, ancienne))),
            mode,
            url,
            cle_retenue(None, cle_retenue(token, ancienne)),
        ),
{
}

/// Contrôle de la saisie d'un test de connexion : URL (normalisée) et clé,
/// sans blancs, toutes deux non vides.
pub fn preparer_test_connexion(url: String, token: String) -> (r: Result<(String, String), AppError>)
    ensures
        (url_saisie(url).len() > 0 && rogne(token@).len() > 0) ==> (r matches Ok((u, t)) && u@
            == url_saisie(url) && t@ == rogne(token@)),
        !(url_saisie(url).len() > 0 && rogne(token@).len() > 0) ==> (r matches Err(
            AppError::Validation(m),
        ) && m@ == "URL et clé d'accès requises pour tester la connexion."@),
{
    let url = normaliser_url(rogner(url.as_str()));
    let token = rogner(token.as_str());
    if url.as_str().is_empty() || token.as_str().is_empty() {
        return Err(
            AppError::Validation(copie("URL et clé d'accès requises pour tester la connexion.")),
        );
    }
    Ok((url, token))
}

} // verus!
