//! Zeichenkettenbausteine auf `char`-Ebene.
//!
//! Alle Texte des Projekts werden als Folge von Unicode-Zeichen betrachtet
//! (`Seq<char>`). Die Funktionen hier sind die ausführbaren Gegenstücke der
//! Spezifikationsfunktionen, über die die übrigen Module ihre Verträge
//! formulieren.

use vstd::prelude::*;
use vstd::string::*;

verus! {

// ---------------------------------------------------------------------------
// Spezifikation
// ---------------------------------------------------------------------------

/// ASCII-Großbuchstaben werden klein, alles andere bleibt.
pub open spec fn klein(c: char) -> char {
    if 'A' <= c && c <= 'Z' {
        ((c as u32) + 32) as char
    } else {
        c
    }
}

/// ASCII-Kleinschreibung einer ganzen Folge (`to_ascii_lowercase`).
pub open spec fn klein_folge(s: Seq<char>) -> Seq<char> {
    s.map_values(|c: char| klein(c))
}

/// Leerraum im Sinne von `char::is_whitespace` (Unicode `White_Space`).
pub open spec fn leerraum(c: char) -> bool {
    ||| c == ' '
    ||| ('\t' <= c && c <= '\r')
    ||| c == '\u{85}'
    ||| c == '\u{A0}'
    ||| c == '\u{1680}'
    ||| ('\u{2000}' <= c && c <= '\u{200A}')
    ||| c == '\u{2028}'
    ||| c == '\u{2029}'
    ||| c == '\u{202F}'
    ||| c == '\u{205F}'
    ||| c == '\u{3000}'
}

/// Folge ohne führende Zeichen, die `p` erfüllen.
pub open spec fn ohne_vorne(s: Seq<char>, p: spec_fn(char) -> bool) -> Seq<char>
    decreases s.len(),
{
    if s.len() > 0 && p(s[0]) {
        ohne_vorne(s.drop_first(), p)
    } else {
        s
    }
}

/// Folge ohne abschließende Zeichen, die `p` erfüllen.
pub open spec fn ohne_hinten(s: Seq<char>, p: spec_fn(char) -> bool) -> Seq<char>
    decreases s.len(),
{
    if s.len() > 0 && p(s.last()) {
        ohne_hinten(s.drop_last(), p)
    } else {
        s
    }
}

/// `str::trim`.
pub open spec fn getrimmt(s: Seq<char>) -> Seq<char> {
    ohne_hinten(ohne_vorne(s, |c: char| leerraum(c)), |c: char| leerraum(c))
}

/// `str::trim_end`.
pub open spec fn hinten_getrimmt(s: Seq<char>) -> Seq<char> {
    ohne_hinten(s, |c: char| leerraum(c))
}

/// `str::trim_matches(z)`: das Zeichen `z` an beiden Rändern entfernt.
pub open spec fn ohne_rand(s: Seq<char>, z: char) -> Seq<char> {
    ohne_hinten(ohne_vorne(s, ist_zeichen(z)), ist_zeichen(z))
}

/// Das Prädikat „ist das Zeichen `z`".
pub open spec fn ist_zeichen(z: char) -> spec_fn(char) -> bool {
    |c: char| c == z
}

/// `true`, wenn `n` ab Stelle `i` in `h` steht.
pub open spec fn steht_an(h: Seq<char>, n: Seq<char>, i: int) -> bool {
    0 <= i && i + n.len() <= h.len() && h.subrange(i, i + n.len()) == n
}

/// Erste Stelle ab `i`, an der `n` in `h` steht (`str::find`).
pub open spec fn stelle_ab(h: Seq<char>, n: Seq<char>, i: int) -> Option<int>
    decreases h.len() + 1 - i,
{
    if i < 0 || i + n.len() > h.len() {
        None
    } else if h.subrange(i, i + n.len()) == n {
        Some(i)
    } else {
        stelle_ab(h, n, i + 1)
    }
}

/// `str::contains` für Teilfolgen.
pub open spec fn enthaelt(h: Seq<char>, n: Seq<char>) -> bool {
    stelle_ab(h, n, 0) is Some
}

/// Erste Stelle eines Zeichens (`str::find(char)`).
pub open spec fn zeichenstelle(s: Seq<char>, c: char) -> Option<int> {
    stelle_ab(s, seq![c], 0)
}

/// `str::replace` mit nicht leerem Muster: alle Vorkommen von links nach
/// rechts, ohne Überlappung.
pub open spec fn ersetzt(h: Seq<char>, von: Seq<char>, zu: Seq<char>) -> Seq<char>
    decreases h.len(),
{
    if von.len() == 0 {
        h
    } else {
        match stelle_ab(h, von, 0) {
            None => h,
            Some(i) => {
                proof {
                    lemma_stelle_ab(h, von, 0);
                }
                h.subrange(0, i) + zu + ersetzt(h.subrange(i + von.len(), h.len() as int), von, zu)
            },
        }
    }
}

/// `str::starts_with`.
pub open spec fn beginnt_mit(s: Seq<char>, p: Seq<char>) -> bool {
    p.len() <= s.len() && s.subrange(0, p.len() as int) == p
}

/// `str::ends_with`.
pub open spec fn endet_mit(s: Seq<char>, p: Seq<char>) -> bool {
    p.len() <= s.len() && s.subrange(s.len() - p.len(), s.len() as int) == p
}

/// Ziffer als Zeichen.
pub open spec fn ziffer(d: nat) -> char {
    (('0' as u32) + d) as char
}

/// Dezimaldarstellung einer natürlichen Zahl, ohne führende Nullen.
pub open spec fn dezimal(n: nat) -> Seq<char>
    decreases n,
{
    if n < 10 {
        seq![ziffer(n)]
    } else {
        dezimal(n / 10).push(ziffer(n % 10))
    }
}

/// `true`, wenn `c` eine ASCII-Ziffer ist.
pub open spec fn ist_ziffer(c: char) -> bool {
    '0' <= c && c <= '9'
}

/// Zahlenwert einer Ziffernfolge.
pub open spec fn ziffernwert(s: Seq<char>) -> nat
    decreases s.len(),
{
    if s.len() == 0 {
        0
    } else {
        ziffernwert(s.drop_last()) * 10 + ((s.last() as u32) - ('0' as u32)) as nat
    }
}

/// `true`, wenn alle Zeichen Ziffern sind.
pub open spec fn nur_ziffern(s: Seq<char>) -> bool {
    forall|i: int| 0 <= i < s.len() ==> ist_ziffer(#[trigger] s[i])
}

/// Folge aus `n` gleichen Zeichen (`str::repeat`).
pub open spec fn wiederholt(c: char, n: nat) -> Seq<char> {
    Seq::new(n, |i: int| c)
}

/// Die Teile zwischen den Vorkommen von `c` (`str::split(char)`).
pub open spec fn teile(s: Seq<char>, c: char) -> Seq<Seq<char>>
    decreases s.len(),
{
    match zeichenstelle(s, c) {
        None => seq![s],
        Some(i) => {
            proof {
                lemma_stelle_ab(s, seq![c], 0);
            }
            seq![s.subrange(0, i)] + teile(s.subrange(i + 1, s.len() as int), c)
        },
    }
}

/// Folge von Folgen, verbunden durch `trenner` (`[T]::join`).
pub open spec fn verbunden(teile: Seq<Seq<char>>, trenner: Seq<char>) -> Seq<char>
    decreases teile.len(),
{
    if teile.len() == 0 {
        seq![]
    } else if teile.len() == 1 {
        teile[0]
    } else {
        verbunden(teile.drop_last(), trenner) + trenner + teile.last()
    }
}


/// Erste Stelle ab `i`, die kein Leerraum ist, sonst die Länge.
pub open spec fn naechstes_wortzeichen(s: Seq<char>, i: int) -> int
    decreases s.len() - i,
{
    if i < 0 || i >= s.len() {
        s.len() as int
    } else if !leerraum(s[i]) {
        i
    } else {
        naechstes_wortzeichen(s, i + 1)
    }
}

/// Erste Stelle ab `i`, die Leerraum ist, sonst die Länge.
pub open spec fn naechster_leerraum(s: Seq<char>, i: int) -> int
    decreases s.len() - i,
{
    if i < 0 || i >= s.len() {
        s.len() as int
    } else if leerraum(s[i]) {
        i
    } else {
        naechster_leerraum(s, i + 1)
    }
}

/// Die durch Leerraum getrennten Wörter ab Stelle `i` (`str::split_whitespace`).
pub open spec fn woerter_ab(s: Seq<char>, i: int) -> Seq<Seq<char>>
    decreases s.len() - i,
{
    if i < 0 || i >= s.len() {
        seq![]
    } else {
        let j = naechstes_wortzeichen(s, i);
        if j >= s.len() {
            seq![]
        } else {
            let k = naechster_leerraum(s, j);
            proof {
                lemma_naechstes_wortzeichen(s, i);
                lemma_naechster_leerraum(s, j);
            }
            seq![s.subrange(j, k)] + woerter_ab(s, k)
        }
    }
}

/// Die Wörter eines Textes (`str::split_whitespace`).
pub open spec fn woerter(s: Seq<char>) -> Seq<Seq<char>> {
    woerter_ab(s, 0)
}

pub proof fn lemma_naechstes_wortzeichen(s: Seq<char>, i: int)
    requires
        0 <= i <= s.len(),
    ensures
        i <= naechstes_wortzeichen(s, i) <= s.len(),
        naechstes_wortzeichen(s, i) < s.len() ==> !leerraum(s[naechstes_wortzeichen(s, i)]),
        forall|m: int| i <= m < naechstes_wortzeichen(s, i) ==> leerraum(#[trigger] s[m]),
    decreases s.len() - i,
{
    if i < s.len() && leerraum(s[i]) {
        lemma_naechstes_wortzeichen(s, i + 1);
    }
}

pub proof fn lemma_naechster_leerraum(s: Seq<char>, i: int)
    requires
        0 <= i <= s.len(),
    ensures
        i <= naechster_leerraum(s, i) <= s.len(),
        i < s.len() && !leerraum(s[i]) ==> i < naechster_leerraum(s, i),
        naechster_leerraum(s, i) < s.len() ==> leerraum(s[naechster_leerraum(s, i)]),
        forall|m: int| i <= m < naechster_leerraum(s, i) ==> !leerraum(#[trigger] s[m]),
    decreases s.len() - i,
{
    if i < s.len() && !leerraum(s[i]) {
        lemma_naechster_leerraum(s, i + 1);
    }
}

// ---------------------------------------------------------------------------
// Hilfssätze
// ---------------------------------------------------------------------------

/// Die Zeichenfolgen eines Vektors von Zeichenvektoren.
pub open spec fn ansichten(v: Seq<Vec<char>>) -> Seq<Seq<char>> {
    v.map_values(|x: Vec<char>| x@)
}

/// Die Zeichenfolgen einer Liste von Zeichenketten.
pub open spec fn text_folgen(v: Seq<String>) -> Seq<Seq<char>> {
    v.map_values(|s: String| s@)
}

/// Eine gefundene Stelle ist ein Treffer, und davor liegt keiner.
pub proof fn lemma_stelle_ab(h: Seq<char>, n: Seq<char>, i: int)
    requires
        0 <= i,
    ensures
        stelle_ab(h, n, i) matches Some(k) ==> i <= k && steht_an(h, n, k)
            && forall|j: int| i <= j < k ==> !steht_an(h, n, j),
        stelle_ab(h, n, i) is None ==> forall|j: int| i <= j ==> !steht_an(h, n, j),
    decreases h.len() + 1 - i,
{
    if i + n.len() > h.len() {
    } else if h.subrange(i, i + n.len()) == n {
    } else {
        lemma_stelle_ab(h, n, i + 1);
    }
}

/// Führende Zeichen mit `p` abschneiden entspricht einem Teilbereich.
pub proof fn lemma_ohne_vorne(s: Seq<char>, p: spec_fn(char) -> bool, a: int)
    requires
        0 <= a <= s.len(),
        forall|j: int| 0 <= j < a ==> p(#[trigger] s[j]),
        a == s.len() || !p(s[a]),
    ensures
        ohne_vorne(s, p) == s.subrange(a, s.len() as int),
    decreases a,
{
    if a > 0 {
        assert(p(s[0]));
        let t = s.drop_first();
        assert forall|j: int| 0 <= j < a - 1 implies p(#[trigger] t[j]) by {
            assert(t[j] == s[j + 1]);
        }
        if a < s.len() {
            assert(t[a - 1] == s[a]);
        }
        lemma_ohne_vorne(t, p, a - 1);
        assert(t.subrange(a - 1, t.len() as int) =~= s.subrange(a, s.len() as int));
    } else {
        if s.len() > 0 {
            assert(!p(s[0]));
        }
        assert(s.subrange(0, s.len() as int) =~= s);
    }
}

/// Abschließende Zeichen mit `p` abschneiden entspricht einem Teilbereich.
pub proof fn lemma_ohne_hinten(s: Seq<char>, p: spec_fn(char) -> bool, b: int)
    requires
        0 <= b <= s.len(),
        forall|j: int| b <= j < s.len() ==> p(#[trigger] s[j]),
        b == 0 || !p(s[b - 1]),
    ensures
        ohne_hinten(s, p) == s.subrange(0, b),
    decreases s.len() - b,
{
    if b < s.len() {
        assert(p(s.last()));
        let t = s.drop_last();
        assert forall|j: int| b <= j < t.len() implies p(#[trigger] t[j]) by {
            assert(t[j] == s[j]);
        }
        if b > 0 {
            assert(t[b - 1] == s[b - 1]);
        }
        lemma_ohne_hinten(t, p, b);
        assert(t.subrange(0, b) =~= s.subrange(0, b));
    } else {
        if s.len() > 0 {
            assert(!p(s.last()));
        }
        assert(s.subrange(0, b) =~= s);
    }
}

/// Suche in einem Teilbereich ist Suche im Ganzen, verschoben.
pub proof fn lemma_stelle_verschoben(h: Seq<char>, n: Seq<char>, a: int, k: int)
    requires
        0 <= a <= h.len(),
        0 <= k,
    ensures
        stelle_ab(h.subrange(a, h.len() as int), n, k) == match stelle_ab(h, n, a + k) {
            Some(j) => Some(j - a),
            None => None::<int>,
        },
    decreases h.len() + 1 - (a + k),
{
    let t = h.subrange(a, h.len() as int);
    if k + n.len() > t.len() {
    } else {
        assert(t.subrange(k, k + n.len()) =~= h.subrange(a + k, a + k + n.len()));
        if t.subrange(k, k + n.len()) == n {
        } else {
            lemma_stelle_verschoben(h, n, a, k + 1);
        }
    }
}

// ---------------------------------------------------------------------------
// Ausführbare Bausteine
// ---------------------------------------------------------------------------

/// `String::push`: hängt ein Zeichen an eine Zeichenkette an.
#[verifier::external_body]
pub(crate) fn zeichen_anhaengen(s: &mut String, c: char)
    ensures
        final(s)@ == old(s)@.push(c),
{
    s.push(c);
}

/// Die Zeichen einer Zeichenkette.
pub fn zeichen_von(s: &str) -> (v: Vec<char>)
    ensures
        v@ == s@,
{
    let n = s.unicode_len();
    let mut v: Vec<char> = Vec::new();
    let mut i: usize = 0;
    while i < n
        invariant
            n == s@.len(),
            i <= n,
            v@ == s@.subrange(0, i as int),
        decreases n - i,
    {
        let c = s.get_char(i);
        v.push(c);
        i = i + 1;
        assert(v@ =~= s@.subrange(0, i as int));
    }
    assert(v@ =~= s@);
    v
}

/// Zeichenkette aus Zeichen.
pub fn text_aus(v: &[char]) -> (r: String)
    ensures
        r@ == v@,
{
    let mut r = String::new();
    let mut i: usize = 0;
    while i < v.len()
        invariant
            i <= v@.len(),
            r@ == v@.subrange(0, i as int),
        decreases v@.len() - i,
    {
        zeichen_anhaengen(&mut r, v[i]);
        i = i + 1;
        assert(r@ =~= v@.subrange(0, i as int));
    }
    assert(r@ =~= v@);
    r
}

/// Zeichenkette kopieren.
pub fn text_von(s: &str) -> (r: String)
    ensures
        r@ == s@,
{
    s.to_owned()
}

/// Text hinten an eine Zeichenkette anhängen.
pub fn text_anhaengen(s: &mut String, t: &str)
    ensures
        final(s)@ == old(s)@ + t@,
{
    let n = t.unicode_len();
    let mut i: usize = 0;
    while i < n
        invariant
            n == t@.len(),
            i <= n,
            s@ == old(s)@ + t@.subrange(0, i as int),
        decreases n - i,
    {
        zeichen_anhaengen(s, t.get_char(i));
        i = i + 1;
        assert(s@ =~= old(s)@ + t@.subrange(0, i as int));
    }
    assert(t@.subrange(0, n as int) =~= t@);
}

/// Drei Textstücke aneinandergehängt.
pub fn verkettet(a: &str, b: &str, c: &str) -> (r: String)
    ensures
        r@ == a@ + b@ + c@,
{
    let mut r = text_von(a);
    text_anhaengen(&mut r, b);
    text_anhaengen(&mut r, c);
    r
}

/// Zeichen hinten anhängen.
pub fn folge_anhaengen(ziel: &mut Vec<char>, quelle: &[char])
    ensures
        final(ziel)@ == old(ziel)@ + quelle@,
{
    let mut i: usize = 0;
    while i < quelle.len()
        invariant
            i <= quelle@.len(),
            ziel@ == old(ziel)@ + quelle@.subrange(0, i as int),
        decreases quelle@.len() - i,
    {
        ziel.push(quelle[i]);
        i = i + 1;
        assert(ziel@ =~= old(ziel)@ + quelle@.subrange(0, i as int));
    }
    assert(quelle@.subrange(0, i as int) =~= quelle@);
}

/// Teilbereich `[a, b)` als neue Folge.
pub fn teilfolge(v: &[char], a: usize, b: usize) -> (r: Vec<char>)
    requires
        a <= b <= v@.len(),
    ensures
        r@ == v@.subrange(a as int, b as int),
{
    let mut r: Vec<char> = Vec::new();
    let mut i = a;
    while i < b
        invariant
            a <= i <= b,
            b <= v@.len(),
            r@ == v@.subrange(a as int, i as int),
        decreases b - i,
    {
        r.push(v[i]);
        i = i + 1;
        assert(r@ =~= v@.subrange(a as int, i as int));
    }
    r
}

/// Eine Folge kopieren.
pub fn kopie(v: &[char]) -> (r: Vec<char>)
    ensures
        r@ == v@,
{
    let r = teilfolge(v, 0, v.len());
    assert(v@.subrange(0, v@.len() as int) =~= v@);
    r
}

/// Ein einzelnes Zeichen ASCII-klein.
pub fn klein_zeichen(c: char) -> (r: char)
    ensures
        r == klein(c),
{
    if 'A' <= c && c <= 'Z' {
        ((c as u8) + 32) as char
    } else {
        c
    }
}

/// Folge ASCII-klein (`to_ascii_lowercase`).
pub fn klein_von(v: &[char]) -> (r: Vec<char>)
    ensures
        r@ == klein_folge(v@),
{
    let mut r: Vec<char> = Vec::new();
    let mut i: usize = 0;
    while i < v.len()
        invariant
            i <= v@.len(),
            r@ == klein_folge(v@.subrange(0, i as int)),
        decreases v@.len() - i,
    {
        r.push(klein_zeichen(v[i]));
        i = i + 1;
        assert(r@ =~= klein_folge(v@.subrange(0, i as int)));
    }
    assert(v@.subrange(0, i as int) =~= v@);
    r
}

/// Zeichenkette ASCII-klein.
pub fn klein_text(s: &str) -> (r: String)
    ensures
        r@ == klein_folge(s@),
{
    let v = zeichen_von(s);
    let k = klein_von(&v);
    text_aus(&k)
}

/// `char::is_whitespace`.
pub fn ist_leerraum(c: char) -> (r: bool)
    ensures
        r == leerraum(c),
{
    c == ' ' || ('\t' <= c && c <= '\r') || c == '\u{85}' || c == '\u{A0}' || c == '\u{1680}'
        || ('\u{2000}' <= c && c <= '\u{200A}') || c == '\u{2028}' || c == '\u{2029}'
        || c == '\u{202F}' || c == '\u{205F}' || c == '\u{3000}'
}

/// Grenzen nach `trim`: `v[a..b]` ist der getrimmte Inhalt.
pub fn trim_grenzen(v: &[char]) -> (r: (usize, usize))
    ensures
        r.0 <= r.1 <= v@.len(),
        v@.subrange(r.0 as int, r.1 as int) == getrimmt(v@),
        ohne_vorne(v@, |c: char| leerraum(c)) == v@.subrange(r.0 as int, v@.len() as int),
{
    let ghost p = |c: char| leerraum(c);
    let n = v.len();
    let mut a: usize = 0;
    while a < n && ist_leerraum(v[a])
        invariant
            a <= n,
            n == v@.len(),
            forall|j: int| 0 <= j < a ==> leerraum(#[trigger] v@[j]),
        decreases n - a,
    {
        a = a + 1;
    }
    proof {
        assert forall|j: int| 0 <= j < a implies p(#[trigger] v@[j]) by {
            assert(leerraum(v@[j]));
        }
        lemma_ohne_vorne(v@, p, a as int);
    }
    let mut b: usize = n;
    while b > a && ist_leerraum(v[b - 1])
        invariant
            a <= b <= n,
            n == v@.len(),
            forall|j: int| b <= j < n ==> leerraum(#[trigger] v@[j]),
        decreases b,
    {
        b = b - 1;
    }
    proof {
        let t = v@.subrange(a as int, n as int);
        assert forall|j: int| (b - a) <= j < t.len() implies p(#[trigger] t[j]) by {
            assert(t[j] == v@[j + a]);
            assert(leerraum(v@[j + a]));
        }
        if b > a {
            assert(t[b - a - 1] == v@[b - 1]);
        }
        lemma_ohne_hinten(t, p, (b - a) as int);
        assert(t.subrange(0, (b - a) as int) =~= v@.subrange(a as int, b as int));
    }
    (a, b)
}

/// `str::trim` als Zeichenfolge.
pub fn getrimmt_von(v: &[char]) -> (r: Vec<char>)
    ensures
        r@ == getrimmt(v@),
{
    let (a, b) = trim_grenzen(v);
    teilfolge(v, a, b)
}

/// `str::trim`.
pub fn trimme(s: &str) -> (r: String)
    ensures
        r@ == getrimmt(s@),
{
    let v = zeichen_von(s);
    let t = getrimmt_von(&v);
    text_aus(&t)
}

/// `str::trim_end` als Zeichenfolge.
pub fn hinten_getrimmt_von(v: &[char]) -> (r: Vec<char>)
    ensures
        r@ == hinten_getrimmt(v@),
{
    let ghost p = |c: char| leerraum(c);
    let n = v.len();
    let mut b: usize = n;
    while b > 0 && ist_leerraum(v[b - 1])
        invariant
            b <= n,
            n == v@.len(),
            forall|j: int| b <= j < n ==> leerraum(#[trigger] v@[j]),
        decreases b,
    {
        b = b - 1;
    }
    proof {
        assert forall|j: int| b <= j < n implies p(#[trigger] v@[j]) by {
            assert(leerraum(v@[j]));
        }
        lemma_ohne_hinten(v@, p, b as int);
    }
    teilfolge(v, 0, b)
}

/// Zwei Folgen vergleichen.
pub fn gleiche_folge(a: &[char], b: &[char]) -> (r: bool)
    ensures
        r == (a@ == b@),
{
    if a.len() != b.len() {
        return false;
    }
    let mut i: usize = 0;
    while i < a.len()
        invariant
            a@.len() == b@.len(),
            i <= a@.len(),
            forall|j: int| 0 <= j < i ==> a@[j] == b@[j],
        decreases a@.len() - i,
    {
        if a[i] != b[i] {
            return false;
        }
        i = i + 1;
    }
    assert(a@ =~= b@);
    true
}

/// Zwei Zeichenketten vergleichen.
pub fn gleich(a: &str, b: &str) -> (r: bool)
    ensures
        r == (a@ == b@),
{
    let x = zeichen_von(a);
    let y = zeichen_von(b);
    gleiche_folge(&x, &y)
}

/// Steht `n` ab Stelle `i` in `h`?
pub fn steht_an_stelle(h: &[char], n: &[char], i: usize) -> (r: bool)
    ensures
        r == steht_an(h@, n@, i as int),
{
    let hl = h.len();
    if i > hl || n.len() > hl - i {
        return false;
    }
    let mut j: usize = 0;
    while j < n.len()
        invariant
            hl == h@.len(),
            i + n@.len() <= hl,
            j <= n@.len(),
            forall|k: int| 0 <= k < j ==> h@[i + k] == n@[k],
        decreases n@.len() - j,
    {
        if h[i + j] != n[j] {
            assert(h@.subrange(i as int, i + n@.len())[j as int] != n@[j as int]);
            return false;
        }
        j = j + 1;
    }
    assert(h@.subrange(i as int, i + n@.len()) =~= n@);
    true
}

/// Erste Stelle ab `i`, an der `n` in `h` steht.
pub fn finde_ab(h: &[char], n: &[char], i: usize) -> (r: Option<usize>)
    ensures
        match r {
            Some(k) => stelle_ab(h@, n@, i as int) == Some(k as int),
            None => stelle_ab(h@, n@, i as int) is None,
        },
    decreases h@.len() + 1 - i,
{
    let hl = h.len();
    if i > hl || n.len() > hl - i {
        return None;
    }
    if n.len() == 0 {
        assert(h@.subrange(i as int, i as int) =~= n@);
        return Some(i);
    }
    if steht_an_stelle(h, n, i) {
        Some(i)
    } else {
        finde_ab(h, n, i + 1)
    }
}

/// Enthält `h` die Folge `n`?
pub fn enthaelt_folge(h: &[char], n: &[char]) -> (r: bool)
    ensures
        r == enthaelt(h@, n@),
{
    finde_ab(h, n, 0).is_some()
}

/// Alle Vorkommen von `von` durch `zu` ersetzen (`str::replace`).
pub fn ersetze(h: &[char], von: &[char], zu: &[char]) -> (r: Vec<char>)
    requires
        von@.len() > 0,
    ensures
        r@ == ersetzt(h@, von@, zu@),
    decreases h@.len(),
{
    let hl = h.len();
    match finde_ab(h, von, 0) {
        None => teilfolge(h, 0, hl),
        Some(i) => {
            proof {
                lemma_stelle_ab(h@, von@, 0);
            }
            let mut r = teilfolge(h, 0, i);
            folge_anhaengen(&mut r, zu);
            let rest = teilfolge(h, i + von.len(), hl);
            let ersetzt_rest = ersetze(&rest, von, zu);
            folge_anhaengen(&mut r, &ersetzt_rest);
            assert(h@.subrange(0, h@.len() as int) =~= h@);
            r
        },
    }
}

/// Dezimaldarstellung.
pub fn dezimal_von(n: u64) -> (r: Vec<char>)
    ensures
        r@ == dezimal(n as nat),
    decreases n,
{
    let d = ((n % 10) as u8 + 48) as char;
    proof {
        assert(d == ziffer((n % 10) as nat));
    }
    if n < 10 {
        let mut r: Vec<char> = Vec::new();
        r.push(d);
        assert(r@ =~= seq![ziffer(n as nat)]);
        r
    } else {
        let mut r = dezimal_von(n / 10);
        r.push(d);
        r
    }
}

/// Dezimaldarstellung als Zeichenkette (`u64::to_string`).
pub fn dezimal_text(n: u64) -> (r: String)
    ensures
        r@ == dezimal(n as nat),
{
    let v = dezimal_von(n);
    text_aus(&v)
}

/// `n` gleiche Zeichen (`str::repeat`).
pub fn wiederhole(c: char, n: usize) -> (r: Vec<char>)
    ensures
        r@ == wiederholt(c, n as nat),
{
    let mut r: Vec<char> = Vec::new();
    let mut i: usize = 0;
    while i < n
        invariant
            i <= n,
            r@ == wiederholt(c, i as nat),
        decreases n - i,
    {
        r.push(c);
        i = i + 1;
        assert(r@ =~= wiederholt(c, i as nat));
    }
    r
}

/// Erste Stelle eines Zeichens.
pub fn finde_zeichen(s: &[char], c: char) -> (r: Option<usize>)
    ensures
        match r {
            Some(k) => zeichenstelle(s@, c) == Some(k as int),
            None => zeichenstelle(s@, c) is None,
        },
{
    let mut n: Vec<char> = Vec::new();
    n.push(c);
    assert(n@ =~= seq![c]);
    finde_ab(s, &n, 0)
}

/// Zerlegen an einem Trennzeichen (`str::split(char)`).
pub fn zerteile(s: &[char], c: char) -> (r: Vec<Vec<char>>)
    ensures
        ansichten(r@) == teile(s@, c),
    decreases s@.len(),
{
    let sl = s.len();
    match finde_zeichen(s, c) {
        None => {
            let mut r: Vec<Vec<char>> = Vec::new();
            r.push(teilfolge(s, 0, sl));
            assert(s@.subrange(0, s@.len() as int) =~= s@);
            assert(ansichten(r@) =~= seq![s@]);
            r
        },
        Some(i) => {
            proof {
                lemma_stelle_ab(s@, seq![c], 0);
            }
            let kopf = teilfolge(s, 0, i);
            let rest = teilfolge(s, i + 1, sl);
            let weitere = zerteile(&rest, c);
            let mut r: Vec<Vec<char>> = Vec::new();
            r.push(kopf);
            let mut j: usize = 0;
            let ghost anfang = ansichten(r@);
            while j < weitere.len()
                invariant
                    j <= weitere@.len(),
                    ansichten(r@) == anfang + ansichten(weitere@).subrange(0, j as int),
                decreases weitere@.len() - j,
            {
                let ghost vor = r@;
                let stueck = kopie(&weitere[j]);
                r.push(stueck);
                proof {
                    assert(ansichten(r@) =~= ansichten(vor).push(weitere@[j as int]@));
                    assert(ansichten(weitere@).subrange(0, j + 1) =~= ansichten(weitere@).subrange(0, j as int).push(weitere@[j as int]@));
                }
                j = j + 1;
            }
            assert(ansichten(weitere@).subrange(0, j as int) =~= ansichten(weitere@));
            assert(anfang =~= seq![s@.subrange(0, i as int)]);
            r
        },
    }
}

/// Folgen mit Trenner verbinden (`join`).
pub fn verbinde(teile: &Vec<Vec<char>>, trenner: &[char]) -> (r: Vec<char>)
    ensures
        r@ == verbunden(ansichten(teile@), trenner@),
{
    let mut r: Vec<char> = Vec::new();
    let mut i: usize = 0;
    while i < teile.len()
        invariant
            i <= teile@.len(),
            r@ == verbunden(ansichten(teile@).subrange(0, i as int), trenner@),
        decreases teile@.len() - i,
    {
        let ghost vorher = ansichten(teile@).subrange(0, i as int);
        if i > 0 {
            folge_anhaengen(&mut r, trenner);
        }
        folge_anhaengen(&mut r, &teile[i]);
        i = i + 1;
        proof {
            let jetzt = ansichten(teile@).subrange(0, i as int);
            assert(jetzt.drop_last() =~= vorher);
            if i == 1 {
                assert(r@ =~= jetzt[0]);
            }
        }
    }
    assert(ansichten(teile@).subrange(0, i as int) =~= ansichten(teile@));
    r
}

/// Die Wörter eines Textes, durch Leerraum getrennt (`str::split_whitespace`).
pub fn woerter_von(s: &[char]) -> (r: Vec<Vec<char>>)
    ensures
        ansichten(r@) == woerter(s@),
{
    let mut r: Vec<Vec<char>> = Vec::new();
    let mut i: usize = 0;
    while i < s.len()
        invariant
            i <= s@.len(),
            ansichten(r@) + woerter_ab(s@, i as int) == woerter(s@),
        decreases s@.len() - i,
    {
        let mut j = i;
        while j < s.len() && ist_leerraum(s[j])
            invariant
                i <= j <= s@.len(),
                naechstes_wortzeichen(s@, i as int) == naechstes_wortzeichen(s@, j as int),
            decreases s@.len() - j,
        {
            j = j + 1;
        }
        if j == s.len() {
            assert(woerter_ab(s@, i as int) =~= Seq::<Seq<char>>::empty());
            assert(ansichten(r@) + woerter_ab(s@, j as int) =~= ansichten(r@) + woerter_ab(s@, i as int));
            i = j;
        } else {
            let mut k = j;
            while k < s.len() && !ist_leerraum(s[k])
                invariant
                    j <= k <= s@.len(),
                    j < s@.len(),
                    !leerraum(s@[j as int]),
                    naechster_leerraum(s@, j as int) == naechster_leerraum(s@, k as int),
                decreases s@.len() - k,
            {
                k = k + 1;
            }
            proof {
                lemma_naechster_leerraum(s@, j as int);
            }
            let wort = teilfolge(s, j, k);
            let ghost vorher = r@;
            r.push(wort);
            assert(ansichten(r@) =~= ansichten(vorher).push(s@.subrange(j as int, k as int)));
            assert(woerter_ab(s@, i as int) == seq![s@.subrange(j as int, k as int)] + woerter_ab(s@, k as int));
            assert(ansichten(r@) + woerter_ab(s@, k as int) =~= ansichten(vorher) + woerter_ab(s@, i as int));
            i = k;
        }
    }
    assert(woerter_ab(s@, i as int) =~= Seq::<Seq<char>>::empty());
    assert(ansichten(r@) =~= ansichten(r@) + woerter_ab(s@, i as int));
    r
}

/// Zeichenvektoren als Zeichenketten.
pub fn texte_aus(v: &Vec<Vec<char>>) -> (r: Vec<String>)
    ensures
        text_folgen(r@) == ansichten(v@),
{
    let mut r: Vec<String> = Vec::new();
    let mut i: usize = 0;
    while i < v.len()
        invariant
            i <= v@.len(),
            text_folgen(r@) == ansichten(v@).subrange(0, i as int),
        decreases v@.len() - i,
    {
        let ghost vor = r@;
        let t = text_aus(&v[i]);
        r.push(t);
        proof {
            assert(text_folgen(r@) =~= text_folgen(vor).push(v@[i as int]@));
            assert(ansichten(v@).subrange(0, i + 1) =~= ansichten(v@).subrange(0, i as int).push(v@[i as int]@));
        }
        i = i + 1;
    }
    assert(ansichten(v@).subrange(0, i as int) =~= ansichten(v@));
    r
}

/// `str::trim_matches(z)` als Zeichenfolge.
pub fn ohne_rand_von(v: &[char], z: char) -> (r: Vec<char>)
    ensures
        r@ == ohne_rand(v@, z),
{
    let ghost p = ist_zeichen(z);
    let n = v.len();
    let mut a: usize = 0;
    while a < n && v[a] == z
        invariant
            a <= n,
            n == v@.len(),
            forall|j: int| 0 <= j < a ==> #[trigger] v@[j] == z,
        decreases n - a,
    {
        a = a + 1;
    }
    proof {
        assert forall|j: int| 0 <= j < a implies p(#[trigger] v@[j]) by {
            assert(v@[j] == z);
        }
        lemma_ohne_vorne(v@, p, a as int);
    }
    let mut b: usize = n;
    while b > a && v[b - 1] == z
        invariant
            a <= b <= n,
            n == v@.len(),
            forall|j: int| b <= j < n ==> #[trigger] v@[j] == z,
        decreases b,
    {
        b = b - 1;
    }
    proof {
        let t = v@.subrange(a as int, n as int);
        assert forall|j: int| (b - a) <= j < t.len() implies p(#[trigger] t[j]) by {
            assert(t[j] == v@[j + a]);
        }
        if b > a {
            assert(t[b - a - 1] == v@[b - 1]);
        }
        lemma_ohne_hinten(t, p, (b - a) as int);
        assert(t.subrange(0, (b - a) as int) =~= v@.subrange(a as int, b as int));
    }
    teilfolge(v, a, b)
}

/// Endet `h` mit `n`?
pub fn endet_mit_folge(h: &[char], n: &[char]) -> (r: bool)
    ensures
        r == endet_mit(h@, n@),
{
    if n.len() > h.len() {
        return false;
    }
    steht_an_stelle(h, n, h.len() - n.len())
}

/// Beginnt `h` mit `n`?
pub fn beginnt_mit_folge(h: &[char], n: &[char]) -> (r: bool)
    ensures
        r == beginnt_mit(h@, n@),
{
    steht_an_stelle(h, n, 0)
}

/// `str::trim_end_matches(z)` als Zeichenfolge.
pub fn ohne_ende_von(v: &[char], z: char) -> (r: Vec<char>)
    ensures
        r@ == ohne_hinten(v@, ist_zeichen(z)),
{
    let ghost p = ist_zeichen(z);
    let n = v.len();
    let mut b: usize = n;
    while b > 0 && v[b - 1] == z
        invariant
            b <= n,
            n == v@.len(),
            forall|j: int| b <= j < n ==> #[trigger] v@[j] == z,
        decreases b,
    {
        b = b - 1;
    }
    proof {
        assert forall|j: int| b <= j < n implies p(#[trigger] v@[j]) by {
            assert(v@[j] == z);
        }
        lemma_ohne_hinten(v@, p, b as int);
    }
    teilfolge(v, 0, b)
}

/// Kleinschreibung nach Unicode, wie `str::to_lowercase` sie liefert.
pub uninterp spec fn unicode_klein(s: Seq<char>) -> Seq<char>;

/// `str::to_lowercase`: das Ergebnis ist die Unicode-Kleinschreibung des
/// Textes und hängt von nichts anderem ab; wie sie im Einzelnen aussieht, ist
/// hier nicht ausgeschrieben.
#[verifier::external_body]
pub(crate) fn kleingeschrieben(s: &str) -> (r: String)
    ensures
        r@ == unicode_klein(s@),
{
    s.to_lowercase()
}

} // verus!
