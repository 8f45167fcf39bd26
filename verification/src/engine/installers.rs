//! Erkennung alter Installationsdateien.
//!
//! Heruntergeladene Setups sind der größte einzelne Posten an Ballast – und
//! der heikelste. Deshalb wird hier nie automatisch gelöscht, nur Dateien ab
//! [`MIN_AGE_DAYS`] Tagen und ab [`MIN_SIZE_BYTES`] werden vorgeschlagen, und
//! der Nutzer wählt einzelne Dateien aus.

use vstd::prelude::*;
use crate::engine::fsutil;
use crate::engine::fsutil::is_older_than;
use crate::engine::types;
use crate::engine::types::ScanItem;
use crate::zeichen;
use crate::zeichen::{enthaelt_folge, gleiche_folge, klein_von, teilfolge, zeichen_von};

verus! {

/// Mindestalter, damit ein frischer Download nicht sofort vorgeschlagen wird.
pub const MIN_AGE_DAYS: u32 = 30;

/// Mindestgröße – kleine Helfer lohnen den Vorschlag nicht.
pub const MIN_SIZE_BYTES: u64 = 5 * 1024 * 1024;

/// Dateiendungen, die auf ein Installationspaket hindeuten.
pub const INSTALLER_EXTENSIONS: [&'static str; 6] = ["exe", "msi", "msu", "msix", "msixbundle", "appx"];

/// Endungen von Archiven, die häufig Installer enthalten.
pub const ARCHIVE_EXTENSIONS: [&'static str; 5] = ["zip", "7z", "rar", "iso", "img"];

/// Namensbestandteile, die einen Installer verraten.
pub const INSTALLER_HINTS: [&'static str; 12] = [
    "setup", "install", "installer", "update", "updater", "redist", "webinstall", "-x64", "-x86", "-arm64",
    "patch", "driver",
];

/// Suchorte für Installationsdateien (Shell-Ordner statt fester Pfade).
pub const SEARCH_PATTERNS: [&'static str; 3] = ["%DOWNLOADS%/*", "%DESKTOP%/*", "%PUBLIC%/Downloads/*"];

/// Bewertung einer Datei.
#[derive(Debug, Clone, Copy, PartialEq, Eq, Structural)]
pub enum Verdict {
    /// Eindeutig ein Installationspaket.
    Installer,
    /// Archiv, das ein Installationspaket enthalten könnte.
    Archive,
    /// Kein Vorschlag.
    Ignore,
}

/// Pfadtrenner unter Windows.
pub open spec fn ist_trenner(c: char) -> bool {
    c == '\\' || c == '/'
}

/// Der Dateiname: das Letzte nach dem letzten Trenner (abschließende
/// Trenner zählen nicht).
pub open spec fn dateiname_von(s: Seq<char>) -> Seq<char> {
    let t = zeichen::ohne_hinten(s, |c: char| ist_trenner(c));
    t.skip(letzte_stelle(t, |c: char| ist_trenner(c), t.len() as int) + 1)
}

/// Die letzte Stelle vor `ende`, deren Zeichen `p` erfüllt, sonst -1.
pub open spec fn letzte_stelle(s: Seq<char>, p: spec_fn(char) -> bool, ende: int) -> int
    decreases ende,
{
    if ende <= 0 || ende > s.len() {
        -1
    } else if p(s[ende - 1]) {
        ende - 1
    } else {
        letzte_stelle(s, p, ende - 1)
    }
}

/// Die Endung eines Namens wie `Path::extension`: der Teil nach dem letzten
/// Punkt; keiner ohne Punkt, bei einem Punkt ganz vorn und bei `..`.
pub open spec fn endung_von(s: Seq<char>) -> Option<Seq<char>> {
    let d = dateiname_von(s);
    let p = letzte_stelle(d, |c: char| c == '.', d.len() as int);
    if d == seq!['.', '.'] || p <= 0 {
        None
    } else {
        Some(d.skip(p + 1))
    }
}

/// Der Name enthält einen der Installer-Hinweise.
pub open spec fn hat_hinweis(klein: Seq<char>) -> bool {
    exists|i: int| 0 <= i < 12 && zeichen::enthaelt(klein, #[trigger] INSTALLER_HINTS[i]@)
}

/// Die Bewertung eines Dateinamens.
pub open spec fn bewertung(name: Seq<char>) -> Verdict {
    let klein = zeichen::klein_folge(name);
    let e = match endung_von(klein) {
        Some(e) => e,
        None => seq![],
    };
    if exists|i: int| 0 <= i < 6 && #[trigger] INSTALLER_EXTENSIONS[i]@ == e {
        if e == "exe"@ && !hat_hinweis(klein) { Verdict::Ignore } else { Verdict::Installer }
    } else if (exists|i: int| 0 <= i < 5 && #[trigger] ARCHIVE_EXTENSIONS[i]@ == e) && hat_hinweis(klein) {
        Verdict::Archive
    } else {
        Verdict::Ignore
    }
}

proof fn lemma_letzte_stelle(s: Seq<char>, p: spec_fn(char) -> bool, ende: int)
    requires
        0 <= ende <= s.len(),
    ensures
        -1 <= letzte_stelle(s, p, ende) < ende,
        letzte_stelle(s, p, ende) >= 0 ==> p(s[letzte_stelle(s, p, ende)]),
    decreases ende,
{
    if ende > 0 && !p(s[ende - 1]) {
        lemma_letzte_stelle(s, p, ende - 1);
    }
}

fn letzte_stelle_von(s: &[char], trenner: bool, ende: usize) -> (r: Option<usize>)
    requires
        ende <= s@.len(),
    ensures
        match r {
            Some(k) => letzte_stelle(s@, if trenner { |c: char| ist_trenner(c) } else { |c: char| c == '.' }, ende as int) == k,
            None => letzte_stelle(s@, if trenner { |c: char| ist_trenner(c) } else { |c: char| c == '.' }, ende as int) == -1,
        },
{
    let ghost p = if trenner { |c: char| ist_trenner(c) } else { |c: char| c == '.' };
    let mut k = ende;
    while k > 0
        invariant
            k <= ende <= s@.len(),
            p == (if trenner { |c: char| ist_trenner(c) } else { |c: char| c == '.' }),
            letzte_stelle(s@, p, ende as int) == letzte_stelle(s@, p, k as int),
        decreases k,
    {
        let c = s[k - 1];
        let treffer = if trenner { c == '\\' || c == '/' } else { c == '.' };
        assert(treffer == p(s@[k - 1]));
        if treffer {
            return Some(k - 1);
        }
        k = k - 1;
    }
    None
}

/// Die Endung eines (kleingeschriebenen) Namens.
pub(crate) fn endung(s: &[char]) -> (r: Option<Vec<char>>)
    ensures
        match endung_von(s@) {
            Some(e) => r is Some && r->0@ == e,
            None => r is None,
        },
{
    let ghost sep = |c: char| ist_trenner(c);
    let mut b = s.len();
    while b > 0 && (s[b - 1] == '\\' || s[b - 1] == '/')
        invariant
            b <= s@.len(),
            sep == (|c: char| ist_trenner(c)),
            forall|j: int| b <= j < s@.len() ==> sep(#[trigger] s@[j]),
        decreases b,
    {
        b = b - 1;
    }
    proof {
        zeichen::lemma_ohne_hinten(s@, sep, b as int);
    }
    let t = teilfolge(s, 0, b);
    proof {
        lemma_letzte_stelle(t@, sep, b as int);
        lemma_letzte_stelle(t@, |c: char| ist_trenner(c), b as int);
    }
    let start: usize = match letzte_stelle_von(&t, true, b) {
        Some(a) => a + 1,
        None => 0,
    };
    let d = teilfolge(&t, start, b);
    assert(d@ =~= dateiname_von(s@));
    let p = letzte_stelle_von(&d, false, d.len());
    proof {
        lemma_letzte_stelle(d@, |c: char| c == '.', d@.len() as int);
    }
    let zwei_punkte = d.len() == 2 && d[0] == '.' && d[1] == '.';
    assert(zwei_punkte == (d@ == seq!['.', '.'])) by {
        if d@ == seq!['.', '.'] {
            assert(d@[0] == '.' && d@[1] == '.');
        }
        if zwei_punkte {
            assert(d@ =~= seq!['.', '.']);
        }
    }
    match p {
        Some(stelle) => {
            if zwei_punkte || stelle == 0 {
                None
            } else {
                let e = teilfolge(&d, stelle + 1, d.len());
                assert(e@ =~= d@.skip(stelle + 1));
                Some(e)
            }
        },
        None => None,
    }
}

fn hat_hinweis_von(klein: &[char]) -> (r: bool)
    ensures
        r == hat_hinweis(klein@),
{
    let mut i: usize = 0;
    while i < 12
        invariant
            i <= 12,
            forall|k: int| 0 <= k < i ==> !zeichen::enthaelt(klein@, #[trigger] INSTALLER_HINTS[k]@),
        decreases 12 - i,
    {
        if enthaelt_folge(klein, &zeichen_von(INSTALLER_HINTS[i])) {
            return true;
        }
        i = i + 1;
    }
    false
}

fn in_liste(e: &[char], liste: &[&'static str]) -> (r: bool)
    ensures
        r == exists|i: int| 0 <= i < liste@.len() && #[trigger] liste@[i]@ == e@,
{
    let mut i: usize = 0;
    while i < liste.len()
        invariant
            i <= liste@.len(),
            forall|k: int| 0 <= k < i ==> #[trigger] liste@[k]@ != e@,
        decreases liste@.len() - i,
    {
        if gleiche_folge(&zeichen_von(liste[i]), e) {
            return true;
        }
        i = i + 1;
    }
    false
}

/// Eine einzelne Datei nach ihrem Namen bewerten – ohne Dateisystemzugriff.
/// `.exe` ist mehrdeutig: ohne Hinweis im Namen gilt sie als portables
/// Programm und wird nicht vorgeschlagen.
pub fn classify(dateiname: &str) -> (r: Verdict)
    ensures
        r == bewertung(dateiname@),
{
    let klein = klein_von(&zeichen_von(dateiname));
    let e = match endung(&klein) {
        Some(e) => e,
        None => Vec::new(),
    };
    let installer = in_liste(&e, &INSTALLER_EXTENSIONS);
    let archiv = in_liste(&e, &ARCHIVE_EXTENSIONS);
    if installer {
        let exe = gleiche_folge(&e, &zeichen_von("exe"));
        if exe && !hat_hinweis_von(&klein) {
            return Verdict::Ignore;
        }
        return Verdict::Installer;
    }
    if archiv && hat_hinweis_von(&klein) {
        return Verdict::Archive;
    }
    Verdict::Ignore
}

/// Ob eine Datei vorgeschlagen wird: eine Datei (kein Ordner), als Installer
/// oder Archiv bewertet, groß genug und alt genug. Dann mit Bewertung, Größe
/// und Alter in ganzen Tagen (0, wenn das Alter unbekannt ist).
pub open spec fn vorschlag(name: Seq<char>, ist_datei: bool, groesse: u64, alter: Option<u64>, min_size: u64, min_age_days: u32)
    -> Option<(Verdict, u64, u64)> {
    if !ist_datei || bewertung(name) == Verdict::Ignore || groesse < min_size || !fsutil::alt_genug(alter, min_age_days) {
        None
    } else {
        Some((bewertung(name), groesse, match alter {
            Some(a) => a / fsutil::TAG_SEKUNDEN,
            None => 0,
        }))
    }
}

/// Prüft anhand dessen, was das Dateisystem über einen Eintrag weiß, ob er
/// vorgeschlagen werden soll.
pub fn qualifies(dateiname: &str, ist_datei: bool, groesse: u64, alter: Option<u64>, min_size: u64, min_age_days: u32)
    -> (r: Option<(Verdict, u64, u64)>)
    ensures
        r == vorschlag(dateiname@, ist_datei, groesse, alter, min_size, min_age_days),
{
    if !ist_datei {
        return None;
    }
    let urteil = classify(dateiname);
    if urteil == Verdict::Ignore {
        return None;
    }
    if groesse < min_size {
        return None;
    }
    if !is_older_than(alter, min_age_days) {
        return None;
    }
    let alter_tage = match alter {
        Some(a) => a / fsutil::TAG_SEKUNDEN,
        None => 0,
    };
    Some((urteil, groesse, alter_tage))
}

// ---------------------------------------------------------------------------
// Vorschläge aus den Suchorten
// ---------------------------------------------------------------------------

/// Was das Dateisystem über einen Eintrag eines Suchorts weiß.
pub struct Fundstelle {
    /// Vollständiger Pfad.
    pub pfad: String,
    /// Der letzte Pfadteil.
    pub name: String,
    /// Eine Datei, kein Ordner.
    pub ist_datei: bool,
    pub groesse: u64,
    /// Alter in Sekunden, falls bekannt.
    pub alter: Option<u64>,
}

/// Einträge einer bestimmten Größe.
pub open spec fn mit_groesse(g: u64) -> spec_fn((Seq<char>, u64, Seq<char>, Option<String>)) -> bool {
    |t: (Seq<char>, u64, Seq<char>, Option<String>)| t.1 == g
}

/// `r` ist `s`, absteigend nach Größe geordnet; gleich große Einträge
/// behalten ihre Reihenfolge.
pub open spec fn groesste_zuerst(
    r: Seq<(Seq<char>, u64, Seq<char>, Option<String>)>,
    s: Seq<(Seq<char>, u64, Seq<char>, Option<String>)>,
) -> bool {
    &&& forall|i: int, j: int| 0 <= i < j < r.len() ==> #[trigger] r[i].1 >= #[trigger] r[j].1
    &&& forall|g: u64| #[trigger] r.filter(mit_groesse(g)) == s.filter(mit_groesse(g))
}

/// Die Art eines Vorschlags im Detailfeld.
pub open spec fn art_text(v: Verdict) -> Seq<char> {
    match v {
        Verdict::Installer => "installer"@,
        Verdict::Archive => "archive"@,
        Verdict::Ignore => Seq::empty(),
    }
}

/// Ob `k` schon einen Vorschlag mit diesem Pfad enthält.
pub open spec fn schon_vorgeschlagen(k: Seq<(Seq<char>, u64, Seq<char>, Option<String>)>, pfad: Seq<char>) -> bool {
    exists|j: int| 0 <= j < k.len() && #[trigger] k[j].0 == pfad
}

/// Die Vorschläge zu den Fundstellen in Fundreihenfolge: jede Datei, die
/// [`qualifies`] mit den Standardschwellen annimmt, einmal je Pfad, mit dem
/// Detail `art|alter in Tagen`.
pub open spec fn kandidaten(f: Seq<Fundstelle>) -> Seq<(Seq<char>, u64, Seq<char>, Option<String>)>
    decreases f.len(),
{
    if f.len() == 0 {
        Seq::empty()
    } else {
        let k = kandidaten(f.drop_last());
        let x = f.last();
        if schon_vorgeschlagen(k, x.pfad@) {
            k
        } else {
            match vorschlag(x.name@, x.ist_datei, x.groesse, x.alter, MIN_SIZE_BYTES, MIN_AGE_DAYS) {
                Some((v, g, a)) => if v == Verdict::Ignore {
                    k
                } else {
                    k.push((x.pfad@, g, art_text(v) + "|"@ + zeichen::dezimal(a as nat), None))
                },
                None => k,
            }
        }
    }
}

/// Alle Fundstellen der auflösbaren Suchorte, der Reihe nach.
pub open spec fn fundstellen(s: Seq<Result<Vec<Fundstelle>, String>>) -> Seq<Fundstelle>
    decreases s.len(),
{
    if s.len() == 0 {
        Seq::empty()
    } else {
        fundstellen(s.drop_last()) + match s.last() {
            Ok(v) => v@,
            Err(_) => Seq::empty(),
        }
    }
}

/// Die Fehler der nicht auflösbaren Suchorte, der Reihe nach.
pub open spec fn suchortfehler(s: Seq<Result<Vec<Fundstelle>, String>>) -> Seq<Seq<char>>
    decreases s.len(),
{
    if s.len() == 0 {
        Seq::empty()
    } else {
        suchortfehler(s.drop_last()) + match s.last() {
            Ok(_) => Seq::empty(),
            Err(e) => seq![e@],
        }
    }
}

proof fn lemma_filter_leer(s: Seq<(Seq<char>, u64, Seq<char>, Option<String>)>, g: u64)
    requires
        forall|i: int| 0 <= i < s.len() ==> #[trigger] s[i].1 != g,
    ensures
        s.filter(mit_groesse(g)) == Seq::<(Seq<char>, u64, Seq<char>, Option<String>)>::empty(),
    decreases s.len(),
{
    reveal(Seq::filter);
    if s.len() > 0 {
        lemma_filter_leer(s.drop_last(), g);
    }
}

/// Einfügen an der Stelle nach allen größeren Einträgen erhält die Ordnung.
proof fn lemma_einfuegen_stabil(
    r: Seq<(Seq<char>, u64, Seq<char>, Option<String>)>,
    rest: Seq<(Seq<char>, u64, Seq<char>, Option<String>)>,
    x: (Seq<char>, u64, Seq<char>, Option<String>),
    p: int,
)
    requires
        0 <= p <= r.len(),
        groesste_zuerst(r, rest),
        forall|i: int| 0 <= i < p ==> #[trigger] r[i].1 > x.1,
        p < r.len() ==> r[p].1 <= x.1,
    ensures
        groesste_zuerst(r.insert(p, x), seq![x] + rest),
{
    let e = r.insert(p, x);
    let vorne = r.subrange(0, p);
    let hinten = r.subrange(p, r.len() as int);
    assert(r =~= vorne + hinten);
    assert(e =~= vorne + (seq![x] + hinten));
    assert forall|i: int, j: int| 0 <= i < j < e.len() implies #[trigger] e[i].1 >= #[trigger] e[j].1 by {
        if j < p {
            assert(e[i] == r[i] && e[j] == r[j]);
        } else if j == p {
            assert(e[i] == r[i]);
        } else if i < p {
            assert(e[i] == r[i] && e[j] == r[j - 1]);
        } else if i == p {
            assert(e[j] == r[j - 1]);
            assert(r[p].1 >= r[j - 1].1 || p == j - 1);
        } else {
            assert(e[i] == r[i - 1] && e[j] == r[j - 1]);
        }
    }
    assert forall|g: u64| #[trigger] e.filter(mit_groesse(g)) == (seq![x] + rest).filter(mit_groesse(g)) by {
        broadcast use Seq::filter_distributes_over_add, Seq::lemma_filter_prepend;
        assert(r.filter(mit_groesse(g)) == vorne.filter(mit_groesse(g)) + hinten.filter(mit_groesse(g)));
        assert(e.filter(mit_groesse(g)) == vorne.filter(mit_groesse(g)) + (seq![x] + hinten).filter(mit_groesse(g)));
        if x.1 == g {
            lemma_filter_leer(vorne, g);
            assert(vorne.filter(mit_groesse(g)) + hinten.filter(mit_groesse(g)) =~= hinten.filter(mit_groesse(g)));
            assert(e.filter(mit_groesse(g)) =~= seq![x] + r.filter(mit_groesse(g)));
        } else {
            assert(e.filter(mit_groesse(g)) =~= r.filter(mit_groesse(g)));
        }
    }
}

/// Vorschläge absteigend nach Größe ordnen; gleich große bleiben in ihrer
/// Reihenfolge.
pub fn groesste_zuerst_ordnen(eintraege: Vec<ScanItem>) -> (r: Vec<ScanItem>)
    ensures
        groesste_zuerst(types::sichten(r@), types::sichten(eintraege@)),
{
    let ghost s = types::sichten(eintraege@);
    let mut offen = eintraege;
    let mut r: Vec<ScanItem> = Vec::new();
    proof {
        assert(types::sichten(r@) =~= s.subrange(s.len() as int, s.len() as int));
        assert(types::sichten(offen@) =~= s.subrange(0, s.len() as int));
    }
    while offen.len() > 0
        invariant
            offen@.len() <= s.len(),
            types::sichten(offen@) == s.subrange(0, offen@.len() as int),
            groesste_zuerst(types::sichten(r@), s.subrange(offen@.len() as int, s.len() as int)),
        decreases offen@.len(),
    {
        let ghost vorher = types::sichten(r@);
        let ghost k = offen@.len() as int;
        let ghost alt = offen@;
        let x = offen.pop().unwrap();
        proof {
            assert(types::sichten(alt)[k - 1] == types::sicht(alt[k - 1]));
            assert(s.subrange(0, k)[k - 1] == s[k - 1]);
            assert(types::sichten(offen@) =~= s.subrange(0, k - 1));
            assert(types::sicht(x) == s[k - 1]);
        }
        let mut p: usize = 0;
        while p < r.len() && r[p].size > x.size
            invariant
                p <= r@.len(),
                vorher == types::sichten(r@),
                forall|i: int| 0 <= i < p ==> #[trigger] vorher[i].1 > x.size,
            decreases r@.len() - p,
        {
            p = p + 1;
        }
        proof {
            assert(s.subrange(k - 1, s.len() as int) =~= seq![types::sicht(x)] + s.subrange(k, s.len() as int));
            lemma_einfuegen_stabil(vorher, s.subrange(k, s.len() as int), types::sicht(x), p as int);
        }
        r.insert(p, x);
        proof {
            assert(types::sichten(r@) =~= vorher.insert(p as int, types::sicht(x)));
        }
    }
    proof {
        assert(s.subrange(0, s.len() as int) =~= s);
    }
    r
}

fn art_von(v: Verdict) -> (r: &'static str)
    ensures
        r@ == art_text(v),
{
    proof {
        reveal_strlit("installer");
        reveal_strlit("archive");
        reveal_strlit("");
    }
    match v {
        Verdict::Installer => "installer",
        Verdict::Archive => "archive",
        Verdict::Ignore => "",
    }
}

/// Ob ein Vorschlag mit diesem Pfad schon in der Liste steht.
fn schon_in(k: &Vec<ScanItem>, pfad: &str) -> (r: bool)
    ensures
        r == schon_vorgeschlagen(types::sichten(k@), pfad@),
{
    let mut j: usize = 0;
    while j < k.len()
        invariant
            j <= k@.len(),
            forall|i: int| 0 <= i < j ==> #[trigger] k@[i].path@ != pfad@,
        decreases k@.len() - j,
    {
        if zeichen::gleich(k[j].path.as_str(), pfad) {
            assert(types::sichten(k@)[j as int].0 == pfad@);
            return true;
        }
        j = j + 1;
    }
    assert forall|i: int| 0 <= i < types::sichten(k@).len() implies #[trigger] types::sichten(k@)[i].0 != pfad@ by {
        assert(types::sichten(k@)[i] == types::sicht(k@[i]));
    }
    false
}

/// Die Vorschläge zu einer weiteren Fundstelle ergänzen.
fn fundstelle_pruefen(k: &mut Vec<ScanItem>, x: &Fundstelle, Ghost(f): Ghost<Seq<Fundstelle>>)
    requires
        types::sichten(old(k)@) == kandidaten(f),
    ensures
        types::sichten(final(k)@) == kandidaten(f.push(*x)),
{
    proof {
        assert(f.push(*x).drop_last() =~= f);
    }
    if schon_in(k, x.pfad.as_str()) {
        return;
    }
    match qualifies(x.name.as_str(), x.ist_datei, x.groesse, x.alter, MIN_SIZE_BYTES, MIN_AGE_DAYS) {
        Some((v, g, a)) => {
            if v == Verdict::Ignore {
                return;
            }
            let mut detail = zeichen_von(art_von(v));
            detail.push('|');
            zeichen::folge_anhaengen(&mut detail, &zeichen::dezimal_von(a));
            let detail_text = zeichen::text_aus(&detail);
            let item = ScanItem::new(x.pfad.as_str(), g).with_detail(detail_text.as_str());
            let ghost vorher = k@;
            k.push(item);
            proof {
                assert(detail@ =~= art_text(v) + "|"@ + zeichen::dezimal(a as nat)) by {
                    reveal_strlit("|");
                }
                assert(types::sichten(k@) =~= types::sichten(vorher).push(types::sicht(item)));
            }
        },
        None => {},
    }
}

/// Vorschläge aus dem, was die Suchorte ergeben haben: je Suchort entweder
/// die Fundstellen oder der Fehler beim Auflösen. Fehler werden zu Warnungen,
/// die Fundstellen zu Vorschlägen – jeder Pfad einmal, größte zuerst.
pub fn vorschlaege(funde: &Vec<Result<Vec<Fundstelle>, String>>) -> (r: (Vec<ScanItem>, Vec<String>))
    ensures
        groesste_zuerst(types::sichten(r.0@), kandidaten(fundstellen(funde@))),
        zeichen::text_folgen(r.1@) == suchortfehler(funde@),
{
    let mut k: Vec<ScanItem> = Vec::new();
    let mut warnungen: Vec<String> = Vec::new();
    let mut i: usize = 0;
    proof {
        assert(funde@.subrange(0, 0) =~= Seq::<Result<Vec<Fundstelle>, String>>::empty());
        assert(types::sichten(k@) =~= Seq::<(Seq<char>, u64, Seq<char>, Option<String>)>::empty());
        assert(zeichen::text_folgen(warnungen@) =~= Seq::<Seq<char>>::empty());
    }
    while i < funde.len()
        invariant
            i <= funde@.len(),
            types::sichten(k@) == kandidaten(fundstellen(funde@.subrange(0, i as int))),
            zeichen::text_folgen(warnungen@) == suchortfehler(funde@.subrange(0, i as int)),
        decreases funde@.len() - i,
    {
        let ghost davor = funde@.subrange(0, i as int);
        proof {
            assert(funde@.subrange(0, i + 1).drop_last() =~= davor);
            assert(funde@.subrange(0, i + 1).last() == funde@[i as int]);
        }
        match &funde[i] {
            Ok(v) => {
                let mut j: usize = 0;
                proof {
                    assert(fundstellen(davor) + v@.subrange(0, 0) =~= fundstellen(davor));
                }
                while j < v.len()
                    invariant
                        j <= v@.len(),
                        types::sichten(k@) == kandidaten(fundstellen(davor) + v@.subrange(0, j as int)),
                    decreases v@.len() - j,
                {
                    fundstelle_pruefen(&mut k, &v[j], Ghost(fundstellen(davor) + v@.subrange(0, j as int)));
                    proof {
                        assert((fundstellen(davor) + v@.subrange(0, j as int)).push(v@[j as int])
                            =~= fundstellen(davor) + v@.subrange(0, j + 1));
                    }
                    j = j + 1;
                }
                proof {
                    assert(v@.subrange(0, j as int) =~= v@);
                }
            },
            Err(e) => {
                let ghost vorher = warnungen@;
                warnungen.push(e.as_str().to_owned());
                proof {
                    assert(zeichen::text_folgen(warnungen@) =~= zeichen::text_folgen(vorher).push(e@));
                    assert(fundstellen(funde@.subrange(0, i + 1)) =~= fundstellen(davor));
                }
            },
        }
        i = i + 1;
    }
    proof {
        assert(funde@.subrange(0, i as int) =~= funde@);
    }
    (groesste_zuerst_ordnen(k), warnungen)
}

/// Vorgeschlagen werden nur Dateien aus den Fundstellen, die groß und alt
/// genug sind – mit ihrer gemessenen Größe –, und kein Pfad zweimal.
pub proof fn vorschlaege_nur_grosse_alte_dateien(f: Seq<Fundstelle>)
    ensures
        forall|i: int| 0 <= i < kandidaten(f).len() ==> {
            let k = #[trigger] kandidaten(f)[i];
            &&& k.1 >= MIN_SIZE_BYTES
            &&& k.3 is None
            &&& exists|j: int| 0 <= j < f.len() && {
                let x = #[trigger] f[j];
                &&& x.pfad@ == k.0
                &&& x.ist_datei
                &&& x.groesse == k.1
                &&& fsutil::alt_genug(x.alter, MIN_AGE_DAYS)
            }
        },
        forall|i: int, j: int| 0 <= i < j < kandidaten(f).len() ==> #[trigger] kandidaten(f)[i].0 != #[trigger] kandidaten(f)[j].0,
    decreases f.len(),
{
    if f.len() > 0 {
        let vorne = f.drop_last();
        vorschlaege_nur_grosse_alte_dateien(vorne);
        let k = kandidaten(vorne);
        assert forall|i: int| #![trigger k[i]] 0 <= i < k.len() implies (exists|j: int| 0 <= j < f.len() && {
            let x = #[trigger] f[j];
            &&& x.pfad@ == k[i].0
            &&& x.ist_datei
            &&& x.groesse == k[i].1
            &&& fsutil::alt_genug(x.alter, MIN_AGE_DAYS)
        }) by {
            let j = choose|j: int| 0 <= j < vorne.len() && {
                let x = #[trigger] vorne[j];
                &&& x.pfad@ == k[i].0
                &&& x.ist_datei
                &&& x.groesse == k[i].1
                &&& fsutil::alt_genug(x.alter, MIN_AGE_DAYS)
            };
            assert(f[j] == vorne[j]);
        }
        let x = f.last();
        if !schon_vorgeschlagen(k, x.pfad@) {
            if let Some((v, g, a)) = vorschlag(x.name@, x.ist_datei, x.groesse, x.alter, MIN_SIZE_BYTES, MIN_AGE_DAYS) {
                if v != Verdict::Ignore {
                    let e = kandidaten(f);
                    assert(e == k.push((x.pfad@, g, art_text(v) + "|"@ + zeichen::dezimal(a as nat), None::<String>)));
                    assert(f[f.len() - 1] == x);
                    assert forall|i: int, j: int| 0 <= i < j < e.len() implies #[trigger] e[i].0 != #[trigger] e[j].0 by {
                        if j == e.len() - 1 {
                            assert(e[i] == k[i]);
                        } else {
                            assert(e[i] == k[i] && e[j] == k[j]);
                        }
                    }
                }
            }
        }
    }
}

/// Das Ordnen nach Größe verliert keinen Vorschlag und erfindet keinen.
pub proof fn ordnen_behaelt_alle_vorschlaege(
    r: Seq<(Seq<char>, u64, Seq<char>, Option<String>)>,
    s: Seq<(Seq<char>, u64, Seq<char>, Option<String>)>,
)
    requires
        groesste_zuerst(r, s),
    ensures
        forall|i: int| 0 <= i < r.len() ==> s.contains(#[trigger] r[i]),
        forall|j: int| 0 <= j < s.len() ==> r.contains(#[trigger] s[j]),
{
    broadcast use Seq::lemma_filter_contains, Seq::lemma_filter_contains_rev;
    assert forall|i: int| 0 <= i < r.len() implies s.contains(#[trigger] r[i]) by {
        let g = r[i].1;
        assert(mit_groesse(g)(r[i]));
        assert(r.filter(mit_groesse(g)).contains(r[i]));
        assert(s.filter(mit_groesse(g)).contains(r[i]));
    }
    assert forall|j: int| 0 <= j < s.len() implies r.contains(#[trigger] s[j]) by {
        let g = s[j].1;
        assert(mit_groesse(g)(s[j]));
        assert(s.filter(mit_groesse(g)).contains(s[j]));
        assert(r.filter(mit_groesse(g)).contains(s[j]));
    }
}

} // verus!
