//! Primitives de texte : lecture d'entiers décimaux, écriture décimale,
//! comparaison lexicographique, découpe, recherche de sous-chaîne.
use vstd::prelude::*;

verus! {

// ───────────────────────── Caractères et chaînes ─────────────────────────

/// Ajoute un caractère en fin de chaîne.
///
/// Appelle `String::push` de std ; le contrat affirme que la vue de la chaîne
/// reçoit le caractère en dernière position.
#[verifier::external_body]
pub(crate) fn pousser(s: &mut String, c: char)
    ensures
        final(s)@ == old(s)@.push(c),
{
    s.push(c)
}

/// Les caractères d'une chaîne, dans l'ordre.
pub fn caracteres(s: &str) -> (v: Vec<char>)
    ensures
        v@ == s@,
{
    let n = s.unicode_len();
    let mut v: Vec<char> = Vec::new();
    let mut i: usize = 0;
    while i < n
        invariant
            n == s@.len(),
            i <= n,
            v@ == s@.subrange(0, i as int),
        decreases n - i,
    {
        let c = s.get_char(i);
        v.push(c);
        i = i + 1;
    }
    v
}

/// Ajoute à `s` les caractères `v[debut..fin]`.
pub fn ajouter_tranche(s: &mut String, v: &Vec<char>, debut: usize, fin: usize)
    requires
        debut <= fin <= v@.len(),
    ensures
        final(s)@ == old(s)@ + v@.subrange(debut as int, fin as int),
{
    let mut i = debut;
    while i < fin
        invariant
            debut <= i <= fin <= v@.len(),
            s@ == old(s)@ + v@.subrange(debut as int, i as int),
        decreases fin - i,
    {
        pousser(s, v[i]);
        assert(v@.subrange(debut as int, i + 1) == v@.subrange(debut as int, i as int).push(v@[i as int]));
        i = i + 1;
    }
}

/// La chaîne formée des caractères `v[debut..fin]`.
pub fn chaine_tranche(v: &Vec<char>, debut: usize, fin: usize) -> (r: String)
    requires
        debut <= fin <= v@.len(),
    ensures
        r@ == v@.subrange(debut as int, fin as int),
{
    let mut r = String::new();
    ajouter_tranche(&mut r, v, debut, fin);
    r
}

/// Ajoute à `s` tous les caractères de `t`.
pub fn ajouter_texte(s: &mut String, t: &str)
    ensures
        final(s)@ == old(s)@ + t@,
{
    let v = caracteres(t);
    ajouter_tranche(s, &v, 0, v.len());
    assert(v@.subrange(0, v@.len() as int) == t@);
}

/// Copie d'une chaîne.
pub fn copie(t: &str) -> (r: String)
    ensures
        r@ == t@,
{
    let mut r = String::new();
    ajouter_texte(&mut r, t);
    r
}

// ───────────────────────── Entiers décimaux ─────────────────────────

pub open spec fn est_chiffre(c: char) -> bool {
    '0' <= c && c <= '9'
}

pub open spec fn valeur_chiffre(c: char) -> nat {
    (c as int - '0' as int) as nat
}

pub open spec fn tous_chiffres(s: Seq<char>) -> bool {
    forall|i: int| 0 <= i < s.len() ==> est_chiffre(#[trigger] s[i])
}

/// Valeur d'une suite de chiffres décimaux (poids fort en tête).
pub open spec fn valeur_decimale(s: Seq<char>) -> nat
    decreases s.len(),
{
    if s.len() == 0 {
        0
    } else {
        10 * valeur_decimale(s.drop_last()) + valeur_chiffre(s.last())
    }
}

/// Ce que `u32::from_str` accepte : un `+` facultatif, puis au moins un chiffre
/// ASCII, pour une valeur qui tient sur 32 bits.
pub open spec fn analyse_u32(s: Seq<char>) -> Option<nat> {
    let chiffres = if s.len() > 0 && s[0] == '+' {
        s.drop_first()
    } else {
        s
    };
    if chiffres.len() > 0 && tous_chiffres(chiffres) && valeur_decimale(chiffres) <= u32::MAX {
        Some(valeur_decimale(chiffres))
    } else {
        None
    }
}

proof fn lemme_valeur_croissante(s: Seq<char>, c: char)
    requires
        est_chiffre(c),
    ensures
        valeur_decimale(s.push(c)) == 10 * valeur_decimale(s) + valeur_chiffre(c),
        valeur_decimale(s) <= valeur_decimale(s.push(c)),
{
    assert(s.push(c).drop_last() =~= s);
}

/// Lecture d'un entier non signé 32 bits dans `v[debut..fin]`, comme
/// `u32::from_str`.
pub fn analyser_u32(v: &Vec<char>, debut: usize, fin: usize) -> (r: Option<u32>)
    requires
        debut <= fin <= v@.len(),
    ensures
        match analyse_u32(v@.subrange(debut as int, fin as int)) {
            Some(n) => r == Some(n as u32),
            None => r is None,
        },
{
    let ghost s = v@.subrange(debut as int, fin as int);
    let mut i = debut;
    if i < fin && v[i] == '+' {
        i = i + 1;
    }
    let ghost chiffres = v@.subrange(i as int, fin as int);
    assert(chiffres =~= (if s.len() > 0 && s[0] == '+' { s.drop_first() } else { s }));
    if i == fin {
        return None;
    }
    let depart = i;
    let mut valeur: u64 = 0;
    while i < fin
        invariant
            debut <= depart <= i <= fin <= v@.len(),
            chiffres == v@.subrange(depart as int, fin as int),
            s == v@.subrange(debut as int, fin as int),
            chiffres == (if s.len() > 0 && s[0] == '+' { s.drop_first() } else { s }),
            tous_chiffres(v@.subrange(depart as int, i as int)),
            valeur == valeur_decimale(v@.subrange(depart as int, i as int)),
            valeur <= u32::MAX,
        decreases fin - i,
    {
        let c = v[i];
        if !('0' <= c && c <= '9') {
            assert(chiffres[i - depart] == c);
            assert(!tous_chiffres(chiffres));
            assert(analyse_u32(s) is None);
            return None;
        }
        let ghost avant = v@.subrange(depart as int, i as int);
        assert(v@.subrange(depart as int, i + 1) =~= avant.push(c));
        proof {
            lemme_valeur_croissante(avant, c);
        }
        let chiffre = (c as u32 - '0' as u32) as u64;
        let suivant = valeur * 10 + chiffre;
        if suivant > 0xFFFF_FFFFu64 {
            proof {
                let k = (i + 1 - depart) as int;
                assert(chiffres.subrange(0, k) =~= avant.push(c));
                assert(tous_chiffres(chiffres.subrange(0, k)));
                lemme_prefixe_valeur(chiffres, k);
            }
            assert(analyse_u32(s) is None);
            return None;
        }
        valeur = suivant;
        i = i + 1;
    }
    assert(v@.subrange(depart as int, fin as int) =~= chiffres);
    Some(valeur as u32)
}

/// La valeur d'un préfixe de chiffres ne dépasse pas celle de la suite entière.
proof fn lemme_prefixe_valeur(s: Seq<char>, k: int)
    requires
        0 <= k <= s.len(),
        tous_chiffres(s.subrange(0, k)),
    ensures
        tous_chiffres(s) ==> valeur_decimale(s.subrange(0, k)) <= valeur_decimale(s),
    decreases s.len() - k,
{
    if k < s.len() && tous_chiffres(s) {
        let p = s.subrange(0, k);
        assert(s.subrange(0, k + 1) =~= p.push(s[k]));
        lemme_valeur_croissante(p, s[k]);
        lemme_prefixe_valeur(s, k + 1);
    } else if k == s.len() {
        assert(s.subrange(0, k) =~= s);
    }
}

/// Chiffre décimal d'un entier de 0 à 9.
pub open spec fn chiffre(d: nat) -> char {
    (d + '0' as int) as char
}

/// Écriture décimale d'un entier naturel, sans zéro en tête.
pub open spec fn decimal(n: nat) -> Seq<char>
    decreases n,
{
    if n < 10 {
        seq![chiffre(n)]
    } else {
        decimal(n / 10).push(chiffre(n % 10))
    }
}

/// Écriture décimale d'un entier relatif, avec `-` devant les négatifs.
pub open spec fn decimal_signe(i: int) -> Seq<char> {
    if i < 0 {
        seq!['-'] + decimal((-i) as nat)
    } else {
        decimal(i as nat)
    }
}

fn caractere_chiffre(d: u64) -> (c: char)
    requires
        d < 10,
    ensures
        c == chiffre(d as nat),
{
    let b: u8 = 48u8 + d as u8;
    b as char
}

/// Ajoute l'écriture décimale de `n`.
pub fn ecrire_naturel(s: &mut String, n: u64)
    ensures
        final(s)@ == old(s)@ + decimal(n as nat),
    decreases n,
{
    if n < 10 {
        pousser(s, caractere_chiffre(n));
        assert(old(s)@.push(chiffre(n as nat)) =~= old(s)@ + decimal(n as nat));
    } else {
        ecrire_naturel(s, n / 10);
        pousser(s, caractere_chiffre(n % 10));
        assert(old(s)@ + decimal((n / 10) as nat) + seq![chiffre((n % 10) as nat)] =~= old(s)@
            + decimal(n as nat));
    }
}

/// Ajoute l'écriture décimale de `i`.
pub fn ecrire_entier(s: &mut String, i: i64)
    ensures
        final(s)@ == old(s)@ + decimal_signe(i as int),
{
    if i < 0 {
        pousser(s, '-');
        let absolu: u64 = if i == i64::MIN {
            0x8000_0000_0000_0000u64
        } else {
            (-i) as u64
        };
        ecrire_naturel(s, absolu);
        assert(old(s)@.push('-') + decimal(absolu as nat) =~= old(s)@ + decimal_signe(i as int));
    } else {
        ecrire_naturel(s, i as u64);
    }
}

/// Écriture sur au moins deux chiffres, complétée d'un zéro en tête
/// (le `{:02}` du formatage de std).
pub open spec fn deux_chiffres(n: nat) -> Seq<char> {
    if n < 10 {
        seq!['0', chiffre(n)]
    } else {
        decimal(n)
    }
}

pub fn ecrire_deux_chiffres(s: &mut String, n: u64)
    ensures
        final(s)@ == old(s)@ + deux_chiffres(n as nat),
{
    if n < 10 {
        pousser(s, '0');
        pousser(s, caractere_chiffre(n));
        assert(old(s)@.push('0').push(chiffre(n as nat)) =~= old(s)@ + deux_chiffres(n as nat));
    } else {
        ecrire_naturel(s, n);
    }
}

// ───────────────────────── Comparaison lexicographique ─────────────────────────

/// Ordre de `str` : lexicographique sur les caractères (l'encodage UTF-8
/// préserve l'ordre des points de code, donc l'ordre des octets est celui-ci).
pub open spec fn lex_inf(a: Seq<char>, b: Seq<char>) -> bool
    decreases a.len(),
{
    if a.len() == 0 {
        b.len() > 0
    } else if b.len() == 0 {
        false
    } else if a[0] != b[0] {
        (a[0] as int) < (b[0] as int)
    } else {
        lex_inf(a.drop_first(), b.drop_first())
    }
}

/// `a <= b` pour l'ordre de `str`.
pub open spec fn lex_inf_egal(a: Seq<char>, b: Seq<char>) -> bool {
    lex_inf(a, b) || a == b
}

proof fn lemme_lex_saut(a: Seq<char>, b: Seq<char>, i: int)
    requires
        0 <= i <= a.len(),
        i <= b.len(),
        forall|j: int| 0 <= j < i ==> a[j] == b[j],
    ensures
        lex_inf(a, b) == lex_inf(a.subrange(i, a.len() as int), b.subrange(i, b.len() as int)),
    decreases i,
{
    if i > 0 {
        assert(a[0] == b[0]);
        let a1 = a.drop_first();
        let b1 = b.drop_first();
        lemme_lex_saut(a1, b1, i - 1);
        assert(a1.subrange(i - 1, a1.len() as int) =~= a.subrange(i, a.len() as int));
        assert(b1.subrange(i - 1, b1.len() as int) =~= b.subrange(i, b.len() as int));
    } else {
        assert(a.subrange(0, a.len() as int) =~= a);
        assert(b.subrange(0, b.len() as int) =~= b);
    }
}

/// Comparaison `a < b` sur des suites de caractères.
pub fn inferieur_car(a: &Vec<char>, b: &Vec<char>) -> (r: bool)
    ensures
        r == lex_inf(a@, b@),
{
    let mut i: usize = 0;
    while i < a.len() && i < b.len() && a[i] == b[i]
        invariant
            i <= a@.len(),
            i <= b@.len(),
            forall|j: int| 0 <= j < i ==> a@[j] == b@[j],
        decreases a.len() - i,
    {
        i = i + 1;
    }
    proof {
        lemme_lex_saut(a@, b@, i as int);
    }
    let ghost ra = a@.subrange(i as int, a@.len() as int);
    let ghost rb = b@.subrange(i as int, b@.len() as int);
    if i == a.len() {
        assert(ra.len() == 0);
        i < b.len()
    } else if i == b.len() {
        assert(rb.len() == 0 && ra.len() > 0);
        false
    } else {
        assert(ra[0] == a@[i as int] && rb[0] == b@[i as int]);
        a[i] < b[i]
    }
}

/// Comparaison `a < b` sur des chaînes (ordre de `str`).
pub fn inferieur(a: &str, b: &str) -> (r: bool)
    ensures
        r == lex_inf(a@, b@),
{
    let va = caracteres(a);
    let vb = caracteres(b);
    inferieur_car(&va, &vb)
}

/// Égalité de chaînes.
pub fn egal(a: &str, b: &str) -> (r: bool)
    ensures
        r == (a@ == b@),
{
    let va = caracteres(a);
    let vb = caracteres(b);
    if va.len() != vb.len() {
        return false;
    }
    let mut i: usize = 0;
    while i < va.len()
        invariant
            va@ == a@,
            vb@ == b@,
            va@.len() == vb@.len(),
            i <= va@.len(),
            forall|j: int| 0 <= j < i ==> va@[j] == vb@[j],
        decreases va.len() - i,
    {
        if va[i] != vb[i] {
            return false;
        }
        i = i + 1;
    }
    assert(va@ =~= vb@);
    true
}


// ───────────────────────── Blancs, préfixes, sous-chaînes ─────────────────────────

/// Propriété Unicode `White_Space`, celle de `char::is_whitespace` et donc de
/// `str::trim`.
pub open spec fn est_blanc(c: char) -> bool {
    ||| ('\u{9}' <= c && c <= '\u{d}')
    ||| c == ' '
    ||| c == '\u{85}'
    ||| c == '\u{a0}'
    ||| c == '\u{1680}'
    ||| ('\u{2000}' <= c && c <= '\u{200a}')
    ||| c == '\u{2028}'
    ||| c == '\u{2029}'
    ||| c == '\u{202f}'
    ||| c == '\u{205f}'
    ||| c == '\u{3000}'
}

pub fn blanc(c: char) -> (r: bool)
    ensures
        r == est_blanc(c),
{
    ('\u{9}' <= c && c <= '\u{d}') || c == ' ' || c == '\u{85}' || c == '\u{a0}' || c
        == '\u{1680}' || ('\u{2000}' <= c && c <= '\u{200a}') || c == '\u{2028}' || c
        == '\u{2029}' || c == '\u{202f}' || c == '\u{205f}' || c == '\u{3000}'
}

/// Retire les blancs de tête.
pub open spec fn sans_blancs_tete(s: Seq<char>) -> Seq<char>
    decreases s.len(),
{
    if s.len() > 0 && est_blanc(s[0]) {
        sans_blancs_tete(s.drop_first())
    } else {
        s
    }
}

/// Retire les blancs de queue.
pub open spec fn sans_blancs_queue(s: Seq<char>) -> Seq<char>
    decreases s.len(),
{
    if s.len() > 0 && est_blanc(s.last()) {
        sans_blancs_queue(s.drop_last())
    } else {
        s
    }
}

/// Ce que rend `str::trim`.
pub open spec fn rogne(s: Seq<char>) -> Seq<char> {
    sans_blancs_queue(sans_blancs_tete(s))
}

proof fn lemme_tete_sans_blanc(s: Seq<char>)
    ensures
        sans_blancs_tete(s).len() == 0 || !est_blanc(sans_blancs_tete(s)[0]),
    decreases s.len(),
{
    if s.len() > 0 && est_blanc(s[0]) {
        lemme_tete_sans_blanc(s.drop_first());
    }
}

proof fn lemme_queue_prefixe(s: Seq<char>)
    ensures
        sans_blancs_queue(s).len() <= s.len(),
        sans_blancs_queue(s) == s.subrange(0, sans_blancs_queue(s).len() as int),
        sans_blancs_queue(s).len() == 0 || !est_blanc(sans_blancs_queue(s).last()),
    decreases s.len(),
{
    if s.len() > 0 && est_blanc(s.last()) {
        lemme_queue_prefixe(s.drop_last());
        assert(s.drop_last().subrange(0, sans_blancs_queue(s).len() as int) =~= s.subrange(
            0,
            sans_blancs_queue(s).len() as int,
        ));
    } else {
        assert(s.subrange(0, s.len() as int) =~= s);
    }
}

/// Rogner une chaîne déjà rognée la laisse inchangée.
pub proof fn lemme_rogne_idempotent(s: Seq<char>)
    ensures
        rogne(rogne(s)) == rogne(s),
{
    let t = sans_blancs_tete(s);
    let q = sans_blancs_queue(t);
    lemme_tete_sans_blanc(s);
    lemme_queue_prefixe(t);
    if q.len() > 0 {
        assert(q[0] == t[0]);
    }
    assert(sans_blancs_tete(q) == q);
}

/// Une chaîne rognée est vide ou commence et finit par un caractère qui
/// n'est pas un blanc.
pub proof fn lemme_rogne_bords(s: Seq<char>)
    ensures
        rogne(s).len() == 0 || (!est_blanc(rogne(s)[0]) && !est_blanc(rogne(s).last())),
{
    let t = sans_blancs_tete(s);
    lemme_tete_sans_blanc(s);
    lemme_queue_prefixe(t);
    if rogne(s).len() > 0 {
        assert(rogne(s)[0] == t[0]);
    }
}

/// Une chaîne vide, ou qui commence et finit par un caractère qui n'est pas
/// un blanc, est inchangée par `trim`.
pub proof fn lemme_rogne_sans_bords(s: Seq<char>)
    requires
        s.len() == 0 || (!est_blanc(s[0]) && !est_blanc(s.last())),
    ensures
        rogne(s) == s,
{
}

/// Bornes `[i, j)` de la partie de `v` qui reste après `trim`.
pub fn bornes_rognees(v: &Vec<char>) -> (r: (usize, usize))
    ensures
        r.0 <= r.1 <= v@.len(),
        v@.subrange(r.0 as int, r.1 as int) == rogne(v@),
{
    let n = v.len();
    let mut i: usize = 0;
    assert(v@.subrange(0, n as int) =~= v@);
    while i < n && blanc(v[i])
        invariant
            n == v@.len(),
            i <= n,
            sans_blancs_tete(v@) == sans_blancs_tete(v@.subrange(i as int, n as int)),
        decreases n - i,
    {
        assert(v@.subrange(i as int, n as int).drop_first() =~= v@.subrange(i + 1, n as int));
        i = i + 1;
    }
    let ghost t = v@.subrange(i as int, n as int);
    assert(sans_blancs_tete(t) == t);
    let mut j: usize = n;
    while j > i && blanc(v[j - 1])
        invariant
            i <= j <= n == v@.len(),
            t == v@.subrange(i as int, n as int),
            sans_blancs_queue(t) == sans_blancs_queue(v@.subrange(i as int, j as int)),
        decreases j,
    {
        assert(v@.subrange(i as int, j as int).drop_last() =~= v@.subrange(i as int, j - 1));
        j = j - 1;
    }
    (i, j)
}

/// `str::trim`, rendu en chaîne possédée.
pub fn rogner(s: &str) -> (r: String)
    ensures
        r@ == rogne(s@),
{
    let v = caracteres(s);
    let (i, j) = bornes_rognees(&v);
    chaine_tranche(&v, i, j)
}

/// `p` est un préfixe de `s`.
pub open spec fn commence_par(s: Seq<char>, p: Seq<char>) -> bool {
    p.len() <= s.len() && s.subrange(0, p.len() as int) == p
}

pub fn commence_par_car(v: &Vec<char>, p: &Vec<char>) -> (r: bool)
    ensures
        r == commence_par(v@, p@),
{
    if p.len() > v.len() {
        return false;
    }
    let mut k: usize = 0;
    while k < p.len()
        invariant
            p@.len() <= v@.len(),
            k <= p@.len(),
            forall|j: int| 0 <= j < k ==> v@[j] == p@[j],
        decreases p.len() - k,
    {
        if v[k] != p[k] {
            assert(v@.subrange(0, p@.len() as int)[k as int] != p@[k as int]);
            return false;
        }
        k = k + 1;
    }
    assert(v@.subrange(0, p@.len() as int) =~= p@);
    true
}

/// `n` apparaît dans `h` à la position `i`.
pub open spec fn occurrence_a(h: Seq<char>, n: Seq<char>, i: int) -> bool {
    0 <= i && i + n.len() <= h.len() && h.subrange(i, i + n.len()) == n
}

/// `str::contains` avec un motif `&str`.
pub open spec fn contient(h: Seq<char>, n: Seq<char>) -> bool {
    exists|i: int| occurrence_a(h, n, i)
}

pub fn contient_car(h: &Vec<char>, n: &Vec<char>) -> (r: bool)
    ensures
        r == contient(h@, n@),
{
    if n.len() > h.len() {
        assert forall|i: int| !occurrence_a(h@, n@, i) by {}
        return false;
    }
    let lh = h.len();
    let derniere = lh - n.len();
    let mut i: usize = 0;
    loop
        invariant
            lh == h@.len(),
            derniere + n@.len() == h@.len(),
            i <= derniere,
            forall|j: int| 0 <= j < i ==> !occurrence_a(h@, n@, j),
        decreases derniere - i,
    {
        let mut k: usize = 0;
        let mut identique = true;
        while k < n.len()
            invariant
                lh == h@.len(),
                derniere + n@.len() == h@.len(),
                i <= derniere,
                k <= n@.len(),
                identique ==> forall|j: int| 0 <= j < k ==> h@[i + j] == n@[j],
                !identique ==> !occurrence_a(h@, n@, i as int),
            decreases n.len() - k,
        {
            if h[i + k] != n[k] {
                assert(h@.subrange(i as int, i + n@.len())[k as int] != n@[k as int]);
                identique = false;
            }
            k = k + 1;
        }
        if identique {
            assert(h@.subrange(i as int, i + n@.len()) =~= n@);
            assert(occurrence_a(h@, n@, i as int));
            return true;
        }
        if i == derniere {
            assert forall|j: int| !occurrence_a(h@, n@, j) by {
                if 0 <= j && j + n@.len() <= h@.len() {
                    assert(j <= i);
                }
            }
            return false;
        }
        i = i + 1;
    }
}

/// `h.contains(n)` sur des chaînes.
pub fn contient_texte(h: &str, n: &str) -> (r: bool)
    ensures
        r == contient(h@, n@),
{
    let vh = caracteres(h);
    let vn = caracteres(n);
    contient_car(&vh, &vn)
}

// ───────────────────────── Minuscules ─────────────────────────

pub open spec fn est_ascii(c: char) -> bool {
    (c as int) < 128
}

/// Minuscule ASCII d'un caractère ASCII.
pub open spec fn minuscule_ascii(c: char) -> char {
    if 'A' <= c && c <= 'Z' {
        ((c as int) + 32) as char
    } else {
        c
    }
}

/// Ce que rend `str::to_lowercase` (correspondance de casse Unicode).
pub uninterp spec fn minuscules(s: Seq<char>) -> Seq<char>;

/// Mise en minuscules par `str::to_lowercase` de std.
///
/// Le contrat nomme le résultat (`minuscules`), fonction de la seule chaîne,
/// et en donne la forme sur une chaîne entièrement ASCII : chaque majuscule
/// ASCII devient la minuscule correspondante, le reste est inchangé.
/// Hors ASCII (correspondances Unicode, qui peuvent changer la longueur),
/// rien n'est affirmé de plus.
#[verifier::external_body]
pub(crate) fn en_minuscules(s: &str) -> (r: String)
    ensures
        r@ == minuscules(s@),
        (forall|i: int| 0 <= i < s@.len() ==> est_ascii(#[trigger] s@[i])) ==> r@ == s@.map_values(
            |c: char| minuscule_ascii(c),
        ),
{
    s.to_lowercase()
}

} // verus!
