//! Programmsymbole: die `DisplayIcon`-Angabe zerlegen und gelesene
//! Bildpunkte für die Oberfläche aufbereiten.
//!
//! Eine Angabe sieht meistens so aus: `C:\Programme\App\app.exe,0`. Die Zahl
//! hinter dem letzten Komma ist der Index in der Datei. Ein fehlendes Symbol
//! ist kein Fehler – jede Funktion liefert `Option` und schweigt.

use vstd::prelude::*;
use crate::zeichen;
use crate::zeichen::{getrimmt_von, teilfolge, text_aus, zeichen_von};
use base64::Engine;

verus! {

/// Kantenlänge, in der Symbole angefordert werden.
pub const KANTE: i32 = 32;

/// Ein Symbol, fertig zum Zeichnen.
#[derive(Debug, Clone, PartialEq, Eq)]
pub struct ProgramIcon {
    pub width: u32,
    pub height: u32,
    /// RGBA-Bildpunkte, zeilenweise von oben, als base64.
    pub rgba: String,
}

// ---------------------------------------------------------------------------
// Angabe zerlegen
// ---------------------------------------------------------------------------

/// Eine ganze Zahl wie `i32::from_str`: optionales Vorzeichen, dann Ziffern,
/// im Wertebereich von `i32`.
pub open spec fn ganzzahl(t: Seq<char>) -> Option<i32> {
    let minus = t.len() > 0 && t[0] == '-';
    let rest = if t.len() > 0 && (t[0] == '-' || t[0] == '+') { t.skip(1) } else { t };
    if rest.len() > 0 && zeichen::nur_ziffern(rest) {
        let w = zeichen::ziffernwert(rest) as int;
        let v = if minus { -w } else { w };
        if i32::MIN <= v <= i32::MAX { Some(v as i32) } else { None }
    } else {
        None
    }
}

/// Anführungszeichen und Leerraum außen entfernt.
pub open spec fn gesaeubert(pfad: Seq<char>) -> Seq<char> {
    zeichen::getrimmt(zeichen::ohne_hinten(zeichen::ohne_vorne(zeichen::getrimmt(pfad), |c: char| c == '"'), |c: char| c == '"'))
}

/// Die letzte Stelle eines Zeichens vor `ende`, sonst -1.
pub open spec fn letztes(s: Seq<char>, c: char, ende: int) -> int
    decreases ende,
{
    if ende <= 0 || ende > s.len() {
        -1
    } else if s[ende - 1] == c {
        ende - 1
    } else {
        letztes(s, c, ende - 1)
    }
}

/// Pfad und Index einer Angabe: hinter dem letzten Komma nur dann ein Index,
/// wenn dort tatsächlich eine Zahl steht; sonst gilt 0.
pub open spec fn zerlegt(quelle: Seq<char>) -> Option<(Seq<char>, i32)> {
    let roh = zeichen::getrimmt(quelle);
    if roh.len() == 0 {
        None
    } else {
        let k = letztes(roh, ',', roh.len() as int);
        if k >= 0 && ganzzahl(zeichen::getrimmt(roh.skip(k + 1))) is Some {
            Some((gesaeubert(roh.take(k)), ganzzahl(zeichen::getrimmt(roh.skip(k + 1)))->0))
        } else {
            Some((gesaeubert(roh), 0))
        }
    }
}

proof fn lemma_letztes(s: Seq<char>, c: char, ende: int)
    requires
        0 <= ende <= s.len(),
    ensures
        -1 <= letztes(s, c, ende) < ende,
    decreases ende,
{
    if ende > 0 && s[ende - 1] != c {
        lemma_letztes(s, c, ende - 1);
    }
}

proof fn lemma_ziffernwert_monoton(t: Seq<char>, i: int)
    requires
        0 <= i <= t.len(),
        zeichen::nur_ziffern(t),
    ensures
        zeichen::ziffernwert(t.take(i)) <= zeichen::ziffernwert(t),
    decreases t.len() - i,
{
    if i < t.len() {
        lemma_ziffernwert_monoton(t, i + 1);
        assert(t.take(i + 1).drop_last() =~= t.take(i));
        assert(zeichen::ist_ziffer(t[i]));
    } else {
        assert(t.take(i) =~= t);
    }
}

/// Eine ganze Zahl lesen wie `i32::from_str`.
pub fn ganzzahl_lesen(t: &[char]) -> (r: Option<i32>)
    ensures
        r == ganzzahl(t@),
{
    let minus = t.len() > 0 && t[0] == '-';
    let start: usize = if t.len() > 0 && (t[0] == '-' || t[0] == '+') { 1 } else { 0 };
    let rest = teilfolge(t, start, t.len());
    assert(rest@ =~= (if t@.len() > 0 && (t@[0] == '-' || t@[0] == '+') { t@.skip(1) } else { t@ }));
    if rest.len() == 0 {
        return None;
    }
    let mut wert: u64 = 0;
    let mut i: usize = 0;
    while i < rest.len()
        invariant
            i <= rest@.len(),
            rest@.len() > 0,
            rest@ == (if t@.len() > 0 && (t@[0] == '-' || t@[0] == '+') { t@.skip(1) } else { t@ }),
            minus == (t@.len() > 0 && t@[0] == '-'),
            forall|k: int| 0 <= k < i ==> zeichen::ist_ziffer(#[trigger] rest@[k]),
            wert == zeichen::ziffernwert(rest@.take(i as int)),
            wert <= 2147483648,
        decreases rest@.len() - i,
    {
        let c = rest[i];
        if !('0' <= c && c <= '9') {
            assert(!zeichen::nur_ziffern(rest@));
            return None;
        }
        assert(rest@.take(i + 1).drop_last() =~= rest@.take(i as int));
        let neu: u64 = wert * 10 + ((c as u32) - ('0' as u32)) as u64;
        if neu > 2147483648 {
            proof {
                if zeichen::nur_ziffern(rest@) {
                    lemma_ziffernwert_monoton(rest@, i + 1);
                }
            }
            return None;
        }
        wert = neu;
        i = i + 1;
    }
    assert(rest@.take(i as int) =~= rest@);
    if minus {
        Some((0 - (wert as i64)) as i32)
    } else if wert <= 2147483647 {
        Some(wert as i32)
    } else {
        None
    }
}

fn ohne_anfuehrungszeichen(v: &[char]) -> (r: Vec<char>)
    ensures
        r@ == zeichen::ohne_hinten(zeichen::ohne_vorne(v@, |c: char| c == '"'), |c: char| c == '"'),
{
    let mut a: usize = 0;
    while a < v.len() && v[a] == '"'
        invariant
            a <= v@.len(),
            forall|j: int| 0 <= j < a ==> #[trigger] v@[j] == '"',
        decreases v@.len() - a,
    {
        a = a + 1;
    }
    proof {
        zeichen::lemma_ohne_vorne(v@, |c: char| c == '"', a as int);
    }
    let mut b = v.len();
    while b > a && v[b - 1] == '"'
        invariant
            a <= b <= v@.len(),
            forall|j: int| b <= j < v@.len() ==> #[trigger] v@[j] == '"',
        decreases b,
    {
        b = b - 1;
    }
    let mitte = teilfolge(v, a, b);
    proof {
        let t = v@.subrange(a as int, v@.len() as int);
        assert forall|j: int| (b - a) <= j < t.len() implies #[trigger] t[j] == '"' by {
            assert(t[j] == v@[a + j]);
        }
        if b > a {
            assert(t[b - a - 1] == v@[b - 1]);
        }
        zeichen::lemma_ohne_hinten(t, |c: char| c == '"', (b - a) as int);
        assert(t.subrange(0, (b - a) as int) =~= mitte@);
    }
    mitte
}

fn saeubere(pfad: &[char]) -> (r: String)
    ensures
        r@ == gesaeubert(pfad@),
{
    let a = getrimmt_von(pfad);
    let b = ohne_anfuehrungszeichen(&a);
    text_aus(&getrimmt_von(&b))
}

/// Quelle in Pfad und Index zerlegen. Anführungszeichen kommen vor und müssen
/// weg; ein Komma im Dateinamen ist kein Indextrenner.
pub fn zerlege(quelle: &str) -> (r: Option<(String, i32)>)
    ensures
        match zerlegt(quelle@) {
            None => r is None,
            Some((p, i)) => r matches Some((rp, ri)) && rp@ == p && ri == i,
        },
{
    let roh = getrimmt_von(&zeichen_von(quelle));
    if roh.len() == 0 {
        return None;
    }
    let mut k = roh.len();
    while k > 0 && roh[k - 1] != ','
        invariant
            k <= roh@.len(),
            letztes(roh@, ',', roh@.len() as int) == letztes(roh@, ',', k as int),
        decreases k,
    {
        k = k - 1;
    }
    if k > 0 {
        let komma = k - 1;
        let rest = getrimmt_von(&teilfolge(&roh, komma + 1, roh.len()));
        assert(roh@.skip(komma + 1) =~= roh@.subrange(komma + 1, roh@.len() as int));
        match ganzzahl_lesen(&rest) {
            Some(index) => {
                let vorne = teilfolge(&roh, 0, komma);
                assert(vorne@ =~= roh@.take(komma as int));
                return Some((saeubere(&vorne), index));
            },
            None => {},
        }
    }
    Some((saeubere(&roh), 0))
}

// ---------------------------------------------------------------------------
// Bildpunkte
// ---------------------------------------------------------------------------

/// Das Zeichen des base64-Standardalphabets für einen Sechs-Bit-Wert.
pub open spec fn base64_zeichen(v: int) -> char {
    if v < 26 {
        ('A' as int + v) as char
    } else if v < 52 {
        ('a' as int + (v - 26)) as char
    } else if v < 62 {
        ('0' as int + (v - 52)) as char
    } else if v == 62 {
        '+'
    } else {
        '/'
    }
}

/// Die base64-Darstellung einer Bytefolge (RFC 4648, Standardalphabet):
/// je drei Bytes vier Zeichen zu sechs Bit; eine unvollständige letzte
/// Gruppe wird mit `=` auf vier Zeichen aufgefüllt.
pub open spec fn base64_kodiert(b: Seq<u8>) -> Seq<char>
    decreases b.len(),
{
    if b.len() == 0 {
        seq![]
    } else if b.len() == 1 {
        let n = b[0] as int * 65536;
        seq![base64_zeichen(n / 262144), base64_zeichen(n / 4096 % 64), '=', '=']
    } else if b.len() == 2 {
        let n = b[0] as int * 65536 + b[1] as int * 256;
        seq![base64_zeichen(n / 262144), base64_zeichen(n / 4096 % 64), base64_zeichen(n / 64 % 64), '=']
    } else {
        let n = b[0] as int * 65536 + b[1] as int * 256 + b[2] as int;
        seq![base64_zeichen(n / 262144), base64_zeichen(n / 4096 % 64), base64_zeichen(n / 64 % 64),
            base64_zeichen(n % 64)] + base64_kodiert(b.skip(3))
    }
}

/// `base64::engine::general_purpose::STANDARD.encode`: die Darstellung mit
/// dem Standardalphabet und Auffüllung, vier Zeichen je angefangener
/// Dreiergruppe.
#[verifier::external_body]
fn base64_text(bytes: &Vec<u8>) -> (r: String)
    requires
        bytes@.len() <= usize::MAX / 4,
    ensures
        r@ == base64_kodiert(bytes@),
        r@.len() == 4 * ((bytes@.len() + 2) / 3),
{
    base64::engine::general_purpose::STANDARD.encode(bytes)
}

/// Abmessungen, die ein echtes Symbol haben kann: positiv und höchstens 512.
pub open spec fn plausibel(breite: i32, hoehe: i32) -> bool {
    0 < breite <= 512 && 0 < hoehe <= 512
}

/// Abmessungen prüfen, bevor Speicher für die Bildpunkte angelegt wird;
/// unplausibel große Werte deuten auf eine beschädigte Datei.
pub fn abmessungen_plausibel(breite: i32, hoehe: i32) -> (r: bool)
    ensures
        r == plausibel(breite, hoehe),
{
    0 < breite && breite <= 512 && 0 < hoehe && hoehe <= 512
}

/// Bildpunkte von BGRA nach RGBA: je Punkt tauschen Blau und Rot.
pub open spec fn getauscht(p: Seq<u8>) -> Seq<u8> {
    Seq::new(p.len(), |i: int| if i % 4 == 0 { p[i + 2] } else if i % 4 == 2 { p[i - 2] } else { p[i] })
}

/// Alle Punkte völlig durchsichtig.
pub open spec fn ohne_alpha(p: Seq<u8>) -> bool {
    forall|i: int| 0 <= i < p.len() && i % 4 == 3 ==> #[trigger] p[i] == 0
}

/// RGBA-Punkte: getauscht, und ohne jeden Alphawert voll deckend – ein
/// Symbol ohne Alphakanal wäre sonst unsichtbar statt fehlend.
pub open spec fn rgba_punkte(bgra: Seq<u8>) -> Seq<u8> {
    let g = getauscht(bgra);
    if ohne_alpha(g) {
        Seq::new(g.len(), |i: int| if i % 4 == 3 { 255u8 } else { g[i] })
    } else {
        g
    }
}

/// Gelesene BGRA-Bildpunkte in ein Symbol für die Oberfläche wandeln.
pub fn rgba_symbol(breite: u32, hoehe: u32, bgra: Vec<u8>) -> (r: ProgramIcon)
    requires
        bgra@.len() % 4 == 0,
        bgra@.len() <= usize::MAX / 4,
    ensures
        r.width == breite,
        r.height == hoehe,
        r.rgba@ == base64_kodiert(rgba_punkte(bgra@)),
{
    let ghost urbild = bgra@;
    let mut p = bgra;
    let n = p.len();
    let mut i: usize = 0;
    while i < n
        invariant
            n == p@.len(),
            n == urbild.len(),
            n % 4 == 0,
            i % 4 == 0,
            i <= n,
            forall|k: int| 0 <= k < i ==> #[trigger] p@[k] == getauscht(urbild)[k],
            forall|k: int| i <= k < n ==> #[trigger] p@[k] == urbild[k],
        decreases n - i,
    {
        let blau = p[i];
        let rot = p[i + 2];
        p.set(i, rot);
        p.set(i + 2, blau);
        i = i + 4;
    }
    assert(p@ =~= getauscht(urbild));
    let mut alle_null = true;
    let mut j: usize = 0;
    while j < n
        invariant
            n == p@.len(),
            n % 4 == 0,
            j % 4 == 0,
            j <= n,
            alle_null == forall|k: int| 0 <= k < j && k % 4 == 3 ==> #[trigger] p@[k] == 0,
        decreases n - j,
    {
        if p[j + 3] != 0 {
            alle_null = false;
        }
        j = j + 4;
    }
    if alle_null {
        let ghost g = p@;
        let mut k: usize = 0;
        while k < n
            invariant
                n == p@.len(),
                n == g.len(),
                n % 4 == 0,
                k % 4 == 0,
                k <= n,
                forall|m: int| 0 <= m < n ==> #[trigger] p@[m] == (if m % 4 == 3 && m < k { 255u8 } else { g[m] }),
            decreases n - k,
        {
            p.set(k + 3, 255);
            k = k + 4;
        }
        assert(p@ =~= Seq::new(g.len(), |m: int| if m % 4 == 3 { 255u8 } else { g[m] }));
    }
    assert(p@ =~= rgba_punkte(urbild));
    ProgramIcon { width: breite, height: hoehe, rgba: base64_text(&p) }
}

/// Symbol zu einer `DisplayIcon`-Angabe ohne Windows-Grafikschnittstelle:
/// es gibt keines.
pub fn hole(quelle: &str) -> (r: Option<ProgramIcon>)
    ensures
        r is None,
{
    None
}

} // verus!
