//! Tabellen- und Zusammenfassungsaufbereitung.
//!
//! Dieses Modul erzeugt ausschließlich Zeichenketten und `Vec`s – es schreibt
//! nichts. Dadurch lässt sich die gesamte Ausgabe ohne Terminal prüfen, und
//! CLI wie TUI teilen sich dieselbe Aufbereitung.

use vstd::prelude::*;
use crate::cli::text;
use crate::cli::text::{kategoriename, meldung, meldungen, risikoname, risikosymbol, statuszeichen, zielname};
use crate::engine::fsutil;
use crate::engine::fsutil::format_bytes;
use crate::engine::types::{CleanReport, Risk, TargetClean};
use crate::engine::catalog::target_by_key;
use crate::i18n::t;
use crate::zeichen::dezimal_text;
use crate::engine::catalog;
use crate::engine::catalog::{ANZAHL, ZIELE};
use crate::engine::types;
use crate::engine::types::{Category, ScanReport, TargetScan};
use crate::i18n;
use crate::zeichen;
use crate::zeichen::{folge_anhaengen, hinten_getrimmt_von, text_aus, verbinde, verkettet, wiederhole, zeichen_von};

verus! {

/// Ausrichtung einer Tabellenspalte.
#[derive(Debug, Clone, Copy, PartialEq, Eq, Structural)]
pub enum Ausrichtung {
    Links,
    Rechts,
}

/// Einfache Texttabelle mit automatischer Spaltenbreite. Keine Rahmenzeichen:
/// zwei Leerzeichen trennen die Spalten, die Ausgabe bleibt mit `awk`, `cut`
/// und `grep` weiterverarbeitbar.
#[derive(Debug, Clone)]
pub struct Tabelle {
    kopf: Vec<String>,
    ausrichtung: Vec<Ausrichtung>,
    zeilen: Vec<Vec<String>>,
}

/// Eine Zeile auf `n` Felder aufgefüllt; längere bleiben, wie sie sind.
pub open spec fn aufgefuellt(felder: Seq<Seq<char>>, n: nat) -> Seq<Seq<char>> {
    if felder.len() >= n {
        felder
    } else {
        felder + Seq::new((n - felder.len()) as nat, |i: int| Seq::<char>::empty())
    }
}

/// Breite von Spalte `i`: das längste Feld in Kopf und Zeilen, in Zeichen.
pub open spec fn spaltenbreite(kopf: Seq<Seq<char>>, zeilen: Seq<Seq<Seq<char>>>, i: int) -> nat
    decreases zeilen.len(),
{
    if zeilen.len() == 0 {
        kopf[i].len()
    } else {
        let davor = spaltenbreite(kopf, zeilen.drop_last(), i);
        let z = zeilen.last();
        if i < z.len() && z[i].len() > davor { z[i].len() } else { davor }
    }
}

/// Alle Spaltenbreiten, eine je Kopffeld.
pub open spec fn breiten(kopf: Seq<Seq<char>>, zeilen: Seq<Seq<Seq<char>>>) -> Seq<nat> {
    Seq::new(kopf.len(), |i: int| spaltenbreite(kopf, zeilen, i))
}

/// Ein Feld auf seine Breite gebracht: links- oder rechtsbündig mit Leerzeichen.
pub open spec fn ausgerichtet(feld: Seq<char>, breite: nat, a: Ausrichtung) -> Seq<char> {
    let fehlend: nat = if breite > feld.len() { (breite - feld.len()) as nat } else { 0 };
    match a {
        Ausrichtung::Links => feld + zeichen::wiederholt(' ', fehlend),
        Ausrichtung::Rechts => zeichen::wiederholt(' ', fehlend) + feld,
    }
}

/// Die ausgerichteten Felder einer Zeile; Spalten ohne Breite oder Ausrichtung
/// gelten als Breite 0, linksbündig.
pub open spec fn ausgerichtete_felder(zeile: Seq<Seq<char>>, b: Seq<nat>, a: Seq<Ausrichtung>) -> Seq<Seq<char>> {
    Seq::new(zeile.len(), |i: int| ausgerichtet(
        zeile[i],
        if i < b.len() { b[i] } else { 0 },
        if i < a.len() { a[i] } else { Ausrichtung::Links },
    ))
}

/// Eine gerenderte Zeile: Felder mit zwei Leerzeichen verbunden, ohne
/// nachlaufenden Leerraum.
pub open spec fn formatiert(zeile: Seq<Seq<char>>, b: Seq<nat>, a: Seq<Ausrichtung>) -> Seq<char> {
    zeichen::hinten_getrimmt(zeichen::verbunden(ausgerichtete_felder(zeile, b, a), "  "@))
}

/// Die Trennlinie unter dem Kopf.
pub open spec fn trennlinie(b: Seq<nat>) -> Seq<char> {
    zeichen::verbunden(Seq::new(b.len(), |i: int| zeichen::wiederholt('-', b[i])), "  "@)
}

/// Die vollständig gerenderte Tabelle: Kopf, Trennlinie, Datenzeilen.
pub open spec fn gerendert(kopf: Seq<Seq<char>>, a: Seq<Ausrichtung>, zeilen: Seq<Seq<Seq<char>>>) -> Seq<Seq<char>> {
    let b = breiten(kopf, zeilen);
    seq![formatiert(kopf, b, a), trennlinie(b)] + Seq::new(zeilen.len(), |k: int| formatiert(zeilen[k], b, a))
}

/// Die Felder einer Zeile als Zeichenfolgen.
pub open spec fn zeilentexte(z: Seq<Vec<String>>) -> Seq<Seq<Seq<char>>> {
    z.map_values(|v: Vec<String>| text::texte(v@))
}

impl Tabelle {
    /// Die Kopfzeile.
    pub closed spec fn kopf_sicht(&self) -> Seq<Seq<char>> {
        text::texte(self.kopf@)
    }

    /// Die Ausrichtung je Spalte.
    pub closed spec fn ausrichtung_sicht(&self) -> Seq<Ausrichtung> {
        self.ausrichtung@
    }

    /// Die Datenzeilen.
    pub closed spec fn zeilen_sicht(&self) -> Seq<Seq<Seq<char>>> {
        zeilentexte(self.zeilen@)
    }

    /// Neue Tabelle mit Kopfzeile und Ausrichtung je Spalte.
    pub fn neu(kopf: &[&str], ausrichtung: &[Ausrichtung]) -> (r: Self)
        ensures
            r.kopf_sicht() == kopf@.map_values(|s: &str| s@),
            r.ausrichtung_sicht() == ausrichtung@,
            r.zeilen_sicht().len() == 0,
    {
        let mut k: Vec<String> = Vec::new();
        let mut i: usize = 0;
        while i < kopf.len()
            invariant
                i <= kopf@.len(),
                k@.len() == i,
                forall|j: int| 0 <= j < i ==> (#[trigger] k@[j])@ == kopf@[j]@,
            decreases kopf@.len() - i,
        {
            k.push(kopf[i].to_owned());
            i = i + 1;
        }
        let mut a: Vec<Ausrichtung> = Vec::new();
        let mut j: usize = 0;
        while j < ausrichtung.len()
            invariant
                j <= ausrichtung@.len(),
                a@ == ausrichtung@.subrange(0, j as int),
            decreases ausrichtung@.len() - j,
        {
            a.push(ausrichtung[j]);
            j = j + 1;
            assert(a@ =~= ausrichtung@.subrange(0, j as int));
        }
        assert(a@ =~= ausrichtung@);
        let r = Tabelle { kopf: k, ausrichtung: a, zeilen: Vec::new() };
        assert(r.kopf_sicht() =~= kopf@.map_values(|s: &str| s@));
        assert(r.zeilen_sicht() =~= Seq::<Seq<Seq<char>>>::empty());
        r
    }

    /// Datenzeile anhängen. Zu kurze Zeilen werden mit Leerfeldern aufgefüllt.
    pub fn zeile(&mut self, felder: Vec<String>)
        ensures
            final(self).kopf_sicht() == old(self).kopf_sicht(),
            final(self).ausrichtung_sicht() == old(self).ausrichtung_sicht(),
            final(self).zeilen_sicht() == old(self).zeilen_sicht().push(
                aufgefuellt(text::texte(felder@), old(self).kopf_sicht().len()),
            ),
    {
        let n = self.kopf.len();
        let ghost anfang = text::texte(felder@);
        let mut felder = felder;
        while felder.len() < n
            invariant
                n == self.kopf@.len(),
                anfang.len() <= felder@.len(),
                felder@.len() > anfang.len() ==> felder@.len() <= n,
                forall|j: int| 0 <= j < anfang.len() ==> (#[trigger] felder@[j])@ == anfang[j],
                forall|j: int| anfang.len() <= j < felder@.len() ==> (#[trigger] felder@[j])@ == Seq::<char>::empty(),
            decreases n - felder@.len(),
        {
            felder.push(String::new());
        }
        assert(text::texte(felder@) =~= aufgefuellt(anfang, n as nat));
        let ghost alt = self.zeilen@;
        self.zeilen.push(felder);
        assert(zeilentexte(self.zeilen@) =~= zeilentexte(alt).push(aufgefuellt(anfang, n as nat)));
    }

    /// Anzahl der Datenzeilen (ohne Kopf und Trennlinie).
    pub fn zeilenzahl(&self) -> (r: usize)
        ensures
            r == self.zeilen_sicht().len(),
    {
        self.zeilen.len()
    }

    /// Spaltenbreiten aus Kopf und Inhalt ermitteln.
    fn breiten(&self) -> (r: Vec<usize>)
        ensures
            r@.len() == self.kopf_sicht().len(),
            forall|i: int| 0 <= i < r@.len() ==> r@[i] == breiten(self.kopf_sicht(), self.zeilen_sicht())[i],
    {
        let kopf = Ghost(self.kopf_sicht());
        let zeilen = Ghost(self.zeilen_sicht());
        let mut b: Vec<usize> = Vec::new();
        let mut i: usize = 0;
        while i < self.kopf.len()
            invariant
                i <= self.kopf@.len(),
                kopf@ == text::texte(self.kopf@),
                b@.len() == i,
                forall|j: int| 0 <= j < i ==> #[trigger] b@[j] == spaltenbreite(kopf@, Seq::empty(), j),
            decreases self.kopf@.len() - i,
        {
            b.push(self.kopf[i].as_str().unicode_len());
            i = i + 1;
        }
        let mut k: usize = 0;
        while k < self.zeilen.len()
            invariant
                k <= self.zeilen@.len(),
                kopf@ == text::texte(self.kopf@),
                zeilen@ == zeilentexte(self.zeilen@),
                b@.len() == kopf@.len(),
                forall|j: int| 0 <= j < b@.len() ==> #[trigger] b@[j] == spaltenbreite(kopf@, zeilen@.subrange(0, k as int), j),
            decreases self.zeilen@.len() - k,
        {
            let zeile = &self.zeilen[k];
            assert(zeilen@.subrange(0, k + 1).drop_last() =~= zeilen@.subrange(0, k as int));
            assert(zeilen@.subrange(0, k + 1).last() == text::texte(zeile@));
            let mut i: usize = 0;
            while i < b.len()
                invariant
                    i <= b@.len(),
                    b@.len() == kopf@.len(),
                    *zeile == self.zeilen@[k as int],
                    zeilen@ == zeilentexte(self.zeilen@),
                    k < self.zeilen@.len(),
                    zeilen@.subrange(0, k + 1).drop_last() == zeilen@.subrange(0, k as int),
                    zeilen@.subrange(0, k + 1).last() == text::texte(zeile@),
                    forall|j: int| 0 <= j < i ==> #[trigger] b@[j] == spaltenbreite(kopf@, zeilen@.subrange(0, k + 1), j),
                    forall|j: int| i <= j < b@.len() ==> #[trigger] b@[j] == spaltenbreite(kopf@, zeilen@.subrange(0, k as int), j),
                decreases b@.len() - i,
            {
                if i < zeile.len() {
                    let laenge = zeile[i].as_str().unicode_len();
                    if laenge > b[i] {
                        b.set(i, laenge);
                    }
                }
                i = i + 1;
            }
            k = k + 1;
        }
        assert(zeilen@.subrange(0, k as int) =~= zeilen@);
        b
    }

    fn formatiere(&self, zeile: &Vec<String>, b: &Vec<usize>) -> (r: String)
        ensures
            r@ == formatiert(text::texte(zeile@), b@.map_values(|x: usize| x as nat), self.ausrichtung@),
    {
        let ghost bn = b@.map_values(|x: usize| x as nat);
        let mut felder: Vec<Vec<char>> = Vec::new();
        let mut i: usize = 0;
        while i < zeile.len()
            invariant
                i <= zeile@.len(),
                bn == b@.map_values(|x: usize| x as nat),
                felder@.len() == i,
                forall|j: int| 0 <= j < i ==> (#[trigger] felder@[j])@
                    == ausgerichtete_felder(text::texte(zeile@), bn, self.ausrichtung@)[j],
            decreases zeile@.len() - i,
        {
            let z = zeichen_von(zeile[i].as_str());
            let breite: usize = if i < b.len() { b[i] } else { 0 };
            let fehlend: usize = if breite > z.len() { breite - z.len() } else { 0 };
            let a = if i < self.ausrichtung.len() { self.ausrichtung[i] } else { Ausrichtung::Links };
            let feld = match a {
                Ausrichtung::Links => {
                    let mut f = z;
                    folge_anhaengen(&mut f, &wiederhole(' ', fehlend));
                    f
                },
                Ausrichtung::Rechts => {
                    let mut f = wiederhole(' ', fehlend);
                    folge_anhaengen(&mut f, &z);
                    f
                },
            };
            felder.push(feld);
            i = i + 1;
        }
        assert(zeichen::ansichten(felder@) =~= ausgerichtete_felder(text::texte(zeile@), bn, self.ausrichtung@));
        let trenner = zeichen_von("  ");
        let verbunden = verbinde(&felder, &trenner);
        text_aus(&hinten_getrimmt_von(&verbunden))
    }

    /// Tabelle als Zeilenliste rendern – inklusive Kopf und Trennlinie.
    pub fn rendern(&self) -> (r: Vec<String>)
        ensures
            text::texte(r@) == gerendert(self.kopf_sicht(), self.ausrichtung_sicht(), self.zeilen_sicht()),
    {
        let b = self.breiten();
        let ghost bn = b@.map_values(|x: usize| x as nat);
        assert(bn =~= breiten(self.kopf_sicht(), self.zeilen_sicht()));
        let mut ausgabe: Vec<String> = Vec::new();
        ausgabe.push(self.formatiere(&self.kopf, &b));
        let mut striche: Vec<Vec<char>> = Vec::new();
        let mut i: usize = 0;
        while i < b.len()
            invariant
                i <= b@.len(),
                striche@.len() == i,
                forall|j: int| 0 <= j < i ==> (#[trigger] striche@[j])@ == zeichen::wiederholt('-', b@[j] as nat),
            decreases b@.len() - i,
        {
            striche.push(wiederhole('-', b[i]));
            i = i + 1;
        }
        assert(zeichen::ansichten(striche@) =~= Seq::new(bn.len(), |i: int| zeichen::wiederholt('-', bn[i])));
        ausgabe.push(text_aus(&verbinde(&striche, &zeichen_von("  "))));
        let mut k: usize = 0;
        while k < self.zeilen.len()
            invariant
                k <= self.zeilen@.len(),
                bn == breiten(self.kopf_sicht(), self.zeilen_sicht()),
                bn == b@.map_values(|x: usize| x as nat),
                ausgabe@.len() == k + 2,
                text::texte(ausgabe@) == gerendert(self.kopf_sicht(), self.ausrichtung_sicht(), self.zeilen_sicht()).subrange(0, k + 2),
            decreases self.zeilen@.len() - k,
        {
            let zeile = self.formatiere(&self.zeilen[k], &b);
            let ghost vorher = ausgabe@;
            ausgabe.push(zeile);
            assert(text::texte(ausgabe@) =~= gerendert(self.kopf_sicht(), self.ausrichtung_sicht(), self.zeilen_sicht()).subrange(0, k + 3));
            k = k + 1;
        }
        assert(text::texte(ausgabe@) =~= gerendert(self.kopf_sicht(), self.ausrichtung_sicht(), self.zeilen_sicht()));
        ausgabe
    }
}

// ---------------------------------------------------------------------------
// Zielliste
// ---------------------------------------------------------------------------

/// Die Katalogzeilen `< n`, die zur gewählten Kategorie passen (alle ohne Wahl).
pub open spec fn gelistete_zeilen(kategorie: Option<Category>, n: nat) -> Seq<int>
    decreases n,
{
    if n == 0 {
        seq![]
    } else {
        let davor = gelistete_zeilen(kategorie, (n - 1) as nat);
        let passt = match kategorie {
            None => true,
            Some(c) => ZIELE[n - 1].1 == c,
        };
        if passt { davor.push(n - 1) } else { davor }
    }
}

/// Eine Zeile der Zielliste: Schlüssel, Kategorie, Risiko mit Symbol, Name.
pub open spec fn listenzeile(lang: Seq<char>, i: int) -> Seq<Seq<char>> {
    let z = ZIELE[i];
    seq![
        z.0@,
        i18n::text(lang, "category."@ + types::kategorie_schluessel(z.1)),
        text::symbol(z.3) + " "@ + i18n::text(lang, "risk."@ + types::risiko_schluessel(z.3)),
        i18n::text(lang, "target."@ + z.0@ + ".name"@),
    ]
}

/// Tabelle aller Ziele für `plane-cli list`, optional auf eine Kategorie
/// eingeschränkt, in Katalogreihenfolge.
pub fn zielliste(lang: &str, kategorie: Option<Category>) -> (r: Tabelle)
    ensures
        r.kopf_sicht() == seq!["KEY"@, "KATEGORIE"@, "RISIKO"@, "NAME"@],
        r.ausrichtung_sicht() == seq![Ausrichtung::Links, Ausrichtung::Links, Ausrichtung::Links, Ausrichtung::Links],
        r.zeilen_sicht().len() == gelistete_zeilen(kategorie, ANZAHL as nat).len(),
        forall|k: int| 0 <= k < r.zeilen_sicht().len() ==> #[trigger] r.zeilen_sicht()[k]
            == listenzeile(lang@, gelistete_zeilen(kategorie, ANZAHL as nat)[k]),
{
    let mut tabelle = Tabelle::neu(
        &["KEY", "KATEGORIE", "RISIKO", "NAME"],
        &[Ausrichtung::Links, Ausrichtung::Links, Ausrichtung::Links, Ausrichtung::Links],
    );
    assert(tabelle.kopf_sicht() =~= seq!["KEY"@, "KATEGORIE"@, "RISIKO"@, "NAME"@]);
    let mut i: usize = 0;
    while i < ANZAHL
        invariant
            i <= ANZAHL,
            tabelle.kopf_sicht() == seq!["KEY"@, "KATEGORIE"@, "RISIKO"@, "NAME"@],
            tabelle.ausrichtung_sicht() == seq![Ausrichtung::Links, Ausrichtung::Links, Ausrichtung::Links, Ausrichtung::Links],
            tabelle.zeilen_sicht().len() == gelistete_zeilen(kategorie, i as nat).len(),
            forall|k: int| 0 <= k < tabelle.zeilen_sicht().len() ==> #[trigger] tabelle.zeilen_sicht()[k]
                == listenzeile(lang@, gelistete_zeilen(kategorie, i as nat)[k]),
        decreases ANZAHL - i,
    {
        let z = ZIELE[i];
        assert(z == ZIELE[i as int]);
        let passt = match kategorie {
            None => true,
            Some(c) => z.1 == c,
        };
        if passt {
            let risiko = verkettet(risikosymbol(z.3), " ", risikoname(lang, z.3).as_str());
            let felder = vec![z.0.to_owned(), kategoriename(lang, z.1), risiko, zielname(lang, z.0)];
            assert(text::texte(felder@) =~= listenzeile(lang@, i as int));
            tabelle.zeile(felder);
        }
        i = i + 1;
    }
    tabelle
}

// ---------------------------------------------------------------------------
// Summen je Kategorie
// ---------------------------------------------------------------------------

/// Eine Zeile der nach Kategorien gruppierten Analyseübersicht.
#[derive(Debug, Clone, PartialEq, Eq, Structural)]
pub struct Kategoriesumme {
    pub kategorie: Category,
    pub size: u64,
    pub items: usize,
    pub ziele: usize,
}

/// Größe, Einträge und Zielzahl aller Ergebnisse einer Kategorie.
pub open spec fn summe_in(t: Seq<TargetScan>, c: Category) -> (nat, nat, nat)
    decreases t.len(),
{
    if t.len() == 0 {
        (0, 0, 0)
    } else {
        let s = summe_in(t.drop_last(), c);
        let z = t.last();
        if z.category == c {
            (s.0 + z.size as nat, s.1 + z.item_count as nat, s.2 + 1)
        } else {
            s
        }
    }
}

/// Die Summen je Kategorie passen in ihre Zahlentypen.
pub open spec fn summen_passen(t: Seq<TargetScan>) -> bool {
    forall|c: Category| #[trigger] summe_in(t, c).0 <= u64::MAX && summe_in(t, c).1 <= usize::MAX
}

/// Die Kategoriesummen der ersten `k` Kategorien in [`Category::ALL`],
/// ohne Kategorien ohne Ziel.
pub open spec fn summen_bis(t: Seq<TargetScan>, k: nat) -> Seq<Kategoriesumme>
    decreases k,
{
    if k == 0 {
        seq![]
    } else {
        let davor = summen_bis(t, (k - 1) as nat);
        let c = Category::ALL[k - 1];
        let s = summe_in(t, c);
        if s.2 > 0 {
            davor.push(Kategoriesumme { kategorie: c, size: s.0 as u64, items: s.1 as usize, ziele: s.2 as usize })
        } else {
            davor
        }
    }
}

proof fn lemma_summe_monoton(t: Seq<TargetScan>, c: Category, k: int)
    requires
        0 <= k <= t.len(),
    ensures
        summe_in(t.subrange(0, k), c).0 <= summe_in(t, c).0,
        summe_in(t.subrange(0, k), c).1 <= summe_in(t, c).1,
        summe_in(t.subrange(0, k), c).2 <= k,
    decreases t.len() - k,
{
    if k < t.len() {
        lemma_summe_monoton(t, c, k + 1);
        assert(t.subrange(0, k + 1).drop_last() =~= t.subrange(0, k));
    } else {
        assert(t.subrange(0, k) =~= t);
    }
    lemma_summe_anzahl(t.subrange(0, k), c);
}

proof fn lemma_summe_anzahl(t: Seq<TargetScan>, c: Category)
    ensures
        summe_in(t, c).2 <= t.len(),
    decreases t.len(),
{
    if t.len() > 0 {
        lemma_summe_anzahl(t.drop_last(), c);
    }
}

/// Analyseergebnis nach Kategorie zusammenfassen, in der Reihenfolge der Kategorien.
pub fn kategoriesummen(bericht: &ScanReport) -> (r: Vec<Kategoriesumme>)
    requires
        summen_passen(bericht.targets@),
    ensures
        r@ == summen_bis(bericht.targets@, 6),
{
    let t = &bericht.targets;
    let mut r: Vec<Kategoriesumme> = Vec::new();
    let mut k: usize = 0;
    while k < 6
        invariant
            k <= 6,
            summen_passen(t@),
            r@ == summen_bis(t@, k as nat),
        decreases 6 - k,
    {
        let c = Category::ALL[k];
        let mut size: u64 = 0;
        let mut items: usize = 0;
        let mut ziele: usize = 0;
        let mut i: usize = 0;
        while i < t.len()
            invariant
                i <= t@.len(),
                summen_passen(t@),
                c == Category::ALL[k as int],
                (size as nat, items as nat, ziele as nat) == summe_in(t@.subrange(0, i as int), c),
            decreases t@.len() - i,
        {
            proof {
                lemma_summe_monoton(t@, c, i + 1);
                assert(t@.subrange(0, i + 1).drop_last() =~= t@.subrange(0, i as int));
                assert(summe_in(t@, c).0 <= u64::MAX && summe_in(t@, c).1 <= usize::MAX);
            }
            let z = &t[i];
            if z.category == c {
                size = size + z.size;
                items = items + z.item_count;
                ziele = ziele + 1;
            }
            i = i + 1;
        }
        assert(t@.subrange(0, i as int) =~= t@);
        if ziele > 0 {
            r.push(Kategoriesumme { kategorie: c, size, items, ziele });
        }
        k = k + 1;
    }
    r
}

// ---------------------------------------------------------------------------
// Ziele nach Größe
// ---------------------------------------------------------------------------

/// Ein Ergebnis wird gezeigt: mit `alle` immer, sonst nur mit Treffern oder
/// wenn es übersprungen wurde (das ist eine Information, kein leeres Ergebnis).
pub open spec fn sichtbar(z: TargetScan, alle: bool) -> bool {
    alle || z.size > 0 || z.item_count > 0 || z.skipped
}

/// Die sichtbaren Ergebnisse in Berichtsreihenfolge.
pub open spec fn gefiltert(t: Seq<TargetScan>, alle: bool) -> Seq<TargetScan>
    decreases t.len(),
{
    if t.len() == 0 {
        seq![]
    } else {
        let davor = gefiltert(t.drop_last(), alle);
        if sichtbar(t.last(), alle) { davor.push(t.last()) } else { davor }
    }
}

/// Lexikographisch kleiner, Zeichen für Zeichen (wie der Vergleich von `String`).
pub open spec fn lex_kleiner(a: Seq<char>, b: Seq<char>) -> bool
    decreases a.len(),
{
    if a.len() == 0 {
        b.len() > 0
    } else if b.len() == 0 {
        false
    } else if a[0] != b[0] {
        a[0] < b[0]
    } else {
        lex_kleiner(a.drop_first(), b.drop_first())
    }
}

/// `a` steht vor `b`: größer, bei gleicher Größe mit kleinerem Schlüssel.
pub open spec fn vor(a: TargetScan, b: TargetScan) -> bool {
    a.size > b.size || (a.size == b.size && lex_kleiner(a.key@, b.key@))
}

/// `x` vor dem ersten Element eingefügt, vor dem es steht.
pub open spec fn einfuegen(s: Seq<TargetScan>, x: TargetScan) -> Seq<TargetScan>
    decreases s.len(),
{
    if s.len() == 0 {
        seq![x]
    } else if vor(x, s[0]) {
        seq![x] + s
    } else {
        seq![s[0]] + einfuegen(s.drop_first(), x)
    }
}

/// Stabil sortiert: absteigend nach Größe, dann aufsteigend nach Schlüssel;
/// Gleiches behält seine Reihenfolge.
pub open spec fn sortiert(f: Seq<TargetScan>) -> Seq<TargetScan>
    decreases f.len(),
{
    if f.len() == 0 {
        seq![]
    } else {
        einfuegen(sortiert(f.drop_last()), f.last())
    }
}

/// Die Ergebnisse hinter einer Liste von Verweisen.
pub open spec fn ergebnisse(v: Seq<&TargetScan>) -> Seq<TargetScan> {
    v.map_values(|z: &TargetScan| *z)
}

/// Größen fallen von vorn nach hinten nie.
pub open spec fn absteigend(s: Seq<TargetScan>) -> bool {
    forall|i: int, j: int| 0 <= i < j < s.len() ==> #[trigger] s[i].size >= #[trigger] s[j].size
}

/// Die erste Stelle ab `p`, vor deren Element `x` steht.
pub open spec fn einfuegestelle(s: Seq<TargetScan>, x: TargetScan, p: int) -> int
    decreases s.len() - p,
{
    if p < 0 || p >= s.len() {
        s.len() as int
    } else if vor(x, s[p]) {
        p
    } else {
        einfuegestelle(s, x, p + 1)
    }
}

proof fn lemma_einfuegen_an_stelle(s: Seq<TargetScan>, x: TargetScan)
    ensures
        einfuegen(s, x) == s.take(einfuegestelle(s, x, 0)) + seq![x] + s.skip(einfuegestelle(s, x, 0)),
        0 <= einfuegestelle(s, x, 0) <= s.len(),
    decreases s.len(),
{
    if s.len() == 0 {
        assert(einfuegen(s, x) =~= s.take(0) + seq![x] + s.skip(0));
    } else if vor(x, s[0]) {
        assert(einfuegen(s, x) =~= s.take(0) + seq![x] + s.skip(0));
    } else {
        let rest = s.drop_first();
        lemma_einfuegen_an_stelle(rest, x);
        lemma_stelle_verschoben(s, x, 1);
        let p = einfuegestelle(rest, x, 0);
        assert(einfuegestelle(s, x, 0) == einfuegestelle(s, x, 1));
        assert(einfuegestelle(s, x, 1) == p + 1);
        assert(einfuegen(s, x) =~= s.take(p + 1) + seq![x] + s.skip(p + 1));
    }
}

proof fn lemma_stelle_verschoben(s: Seq<TargetScan>, x: TargetScan, a: int)
    requires
        1 <= a <= s.len(),
    ensures
        einfuegestelle(s, x, a) == einfuegestelle(s.drop_first(), x, a - 1) + 1,
    decreases s.len() - a,
{
    if a < s.len() && !vor(x, s[a]) {
        lemma_stelle_verschoben(s, x, a + 1);
    }
}

proof fn lemma_einfuegen_schranke(s: Seq<TargetScan>, x: TargetScan, b: u64)
    requires
        forall|i: int| 0 <= i < s.len() ==> #[trigger] s[i].size <= b,
        x.size <= b,
    ensures
        forall|i: int| 0 <= i < einfuegen(s, x).len() ==> #[trigger] einfuegen(s, x)[i].size <= b,
        einfuegen(s, x).len() == s.len() + 1,
    decreases s.len(),
{
    if s.len() > 0 && !vor(x, s[0]) {
        lemma_einfuegen_schranke(s.drop_first(), x, b);
        let e = einfuegen(s, x);
        assert forall|i: int| 0 <= i < e.len() implies #[trigger] e[i].size <= b by {
            if i > 0 {
                assert(e[i] == einfuegen(s.drop_first(), x)[i - 1]);
            }
        }
    }
}

proof fn lemma_einfuegen_absteigend(s: Seq<TargetScan>, x: TargetScan)
    requires
        absteigend(s),
    ensures
        absteigend(einfuegen(s, x)),
    decreases s.len(),
{
    if s.len() == 0 {
    } else if vor(x, s[0]) {
        let e = einfuegen(s, x);
        assert forall|i: int, j: int| 0 <= i < j < e.len() implies #[trigger] e[i].size >= #[trigger] e[j].size by {
            if i > 0 {
                assert(e[i] == s[i - 1] && e[j] == s[j - 1]);
            } else {
                assert(e[j] == s[j - 1]);
                assert(s[0].size >= s[j - 1].size || j - 1 == 0);
            }
        }
    } else {
        let rest = s.drop_first();
        assert(absteigend(rest)) by {
            assert forall|i: int, j: int| 0 <= i < j < rest.len() implies #[trigger] rest[i].size >= #[trigger] rest[j].size by {
                assert(rest[i] == s[i + 1] && rest[j] == s[j + 1]);
            }
        }
        lemma_einfuegen_absteigend(rest, x);
        assert forall|i: int| 0 <= i < rest.len() implies #[trigger] rest[i].size <= s[0].size by {
            assert(rest[i] == s[i + 1]);
        }
        lemma_einfuegen_schranke(rest, x, s[0].size);
        let e = einfuegen(s, x);
        let er = einfuegen(rest, x);
        assert forall|i: int, j: int| 0 <= i < j < e.len() implies #[trigger] e[i].size >= #[trigger] e[j].size by {
            assert(e[j] == er[j - 1]);
            if i > 0 {
                assert(e[i] == er[i - 1]);
            }
        }
    }
}

/// Die Ziele nach Größe stehen absteigend nach Größe, und es sind genau so
/// viele wie sichtbare Ergebnisse.
pub proof fn ziele_nach_groesse_absteigend(f: Seq<TargetScan>)
    ensures
        absteigend(sortiert(f)),
        sortiert(f).len() == f.len(),
    decreases f.len(),
{
    if f.len() > 0 {
        ziele_nach_groesse_absteigend(f.drop_last());
        lemma_einfuegen_absteigend(sortiert(f.drop_last()), f.last());
        lemma_einfuegen_an_stelle(sortiert(f.drop_last()), f.last());
    }
}

fn lex_kleiner_von(a: &[char], b: &[char]) -> (r: bool)
    ensures
        r == lex_kleiner(a@, b@),
{
    let mut i: usize = 0;
    assert(a@.skip(0) =~= a@);
    assert(b@.skip(0) =~= b@);
    while i < a.len() && i < b.len() && a[i] == b[i]
        invariant
            i <= a@.len(),
            i <= b@.len(),
            lex_kleiner(a@, b@) == lex_kleiner(a@.skip(i as int), b@.skip(i as int)),
        decreases a@.len() - i,
    {
        assert(a@.skip(i as int).drop_first() =~= a@.skip(i + 1));
        assert(b@.skip(i as int).drop_first() =~= b@.skip(i + 1));
        i = i + 1;
    }
    if i == a.len() {
        i < b.len()
    } else if i == b.len() {
        false
    } else {
        a[i] < b[i]
    }
}

fn steht_vor(a: &TargetScan, b: &TargetScan) -> (r: bool)
    ensures
        r == vor(*a, *b),
{
    if a.size > b.size {
        true
    } else if a.size == b.size {
        lex_kleiner_von(&zeichen_von(a.key.as_str()), &zeichen_von(b.key.as_str()))
    } else {
        false
    }
}

/// Ergebnisse eines Analyseberichts, absteigend nach Größe (bei gleicher
/// Größe nach Schlüssel). `alle = false` blendet leere Ziele aus, die nicht
/// übersprungen wurden.
pub fn ziele_nach_groesse(bericht: &ScanReport, alle: bool) -> (r: Vec<&TargetScan>)
    ensures
        ergebnisse(r@) == sortiert(gefiltert(bericht.targets@, alle)),
{
    let t = &bericht.targets;
    let mut r: Vec<&TargetScan> = Vec::new();
    let mut i: usize = 0;
    while i < t.len()
        invariant
            i <= t@.len(),
            ergebnisse(r@) == sortiert(gefiltert(t@.subrange(0, i as int), alle)),
        decreases t@.len() - i,
    {
        let z = &t[i];
        proof {
            assert(t@.subrange(0, i + 1).drop_last() =~= t@.subrange(0, i as int));
        }
        if alle || z.size > 0 || z.item_count > 0 || z.skipped {
            let ghost s = ergebnisse(r@);
            let mut p: usize = 0;
            while p < r.len() && !steht_vor(z, r[p])
                invariant
                    p <= r@.len(),
                    s == ergebnisse(r@),
                    *z == t@[i as int],
                    einfuegestelle(s, *z, 0) == einfuegestelle(s, *z, p as int),
                decreases r@.len() - p,
            {
                p = p + 1;
            }
            proof {
                lemma_einfuegen_an_stelle(s, *z);
                assert(einfuegestelle(s, *z, p as int) == p);
            }
            r.insert(p, z);
            proof {
                assert(ergebnisse(r@) =~= s.take(p as int) + seq![*z] + s.skip(p as int));
                assert(gefiltert(t@.subrange(0, i + 1), alle) == gefiltert(t@.subrange(0, i as int), alle).push(*z));
                assert(gefiltert(t@.subrange(0, i + 1), alle).drop_last() =~= gefiltert(t@.subrange(0, i as int), alle));
            }
        }
        i = i + 1;
    }
    assert(t@.subrange(0, i as int) =~= t@);
    r
}

// ---------------------------------------------------------------------------
// Ergebnis-Tabellen
// ---------------------------------------------------------------------------

/// Anzeigename eines Ziels.
pub open spec fn zielname_text(lang: Seq<char>, key: Seq<char>) -> Seq<char> {
    i18n::text(lang, "target."@ + key + ".name"@)
}

/// Anzeigename einer Kategorie.
pub open spec fn kategorie_text(lang: Seq<char>, c: Category) -> Seq<char> {
    i18n::text(lang, "category."@ + types::kategorie_schluessel(c))
}

/// Mehrere Meldungen aufgelöst und mit `; ` verbunden.
pub open spec fn meldungen_verbunden(lang: Seq<char>, rohe: Seq<String>) -> Seq<char> {
    zeichen::verbunden(text::meldungsliste(lang, text::texte(rohe)), "; "@)
}

/// Eine Zeile der Analysetabelle.
pub open spec fn scanzeile(lang: Seq<char>, z: TargetScan) -> Seq<Seq<char>> {
    seq![
        text::symbol(z.risk),
        zielname_text(lang, z.key@),
        kategorie_text(lang, z.category),
        fsutil::groesse_text(z.size as nat),
        zeichen::dezimal(z.item_count as nat),
        if z.skipped { text::meldungstext(lang, z.skip_reason@) } else { meldungen_verbunden(lang, z.warnings@) },
    ]
}

/// Ein mangels Administratorrechten übersprungenes Ziel zeigt in der
/// Hinweisspalte den übersetzten Grund, nicht dessen Schlüssel.
pub proof fn fehlende_adminrechte_werden_als_text_gezeigt(lang: Seq<char>, z: TargetScan)
    requires
        z.skipped,
        z.skip_reason@ == "skip.needs_admin"@,
    ensures
        scanzeile(lang, z)[5] == i18n::text(lang, "skip.needs_admin"@),
        scanzeile(lang, z)[5] != "skip.needs_admin"@,
{
    let k = "skip.needs_admin"@;
    reveal_strlit("skip.needs_admin");
    reveal_strlit("Übersprungen: Plane läuft ohne Administratorrechte");
    reveal_strlit("Skipped: Plane is running without administrator rights");
    // Kein `|`: der Grund ist ein einziger Teil ohne Argumente.
    zeichen::lemma_stelle_ab(k, seq!['|'], 0);
    if let Some(m) = zeichen::zeichenstelle(k, '|') {
        assert(k.subrange(m, m + 1)[0] == k[m]);
    }
    assert(zeichen::teile(k, '|') == seq![k]);
    // Kein Leerraum am Rand: getrimmt bleibt der Grund.
    let ws = |x: char| zeichen::leerraum(x);
    zeichen::lemma_ohne_vorne(k, ws, 0);
    assert(k.subrange(0, k.len() as int) =~= k);
    zeichen::lemma_ohne_hinten(k, ws, k.len() as int);
    assert(zeichen::getrimmt(k) == k);
    assert(seq![k].skip(1) =~= Seq::<Seq<char>>::empty());
    // Der Katalogeintrag des Grundes.
    i18n::eintrag_jedes_schluessels(44);
    assert(i18n::ENTRIES[44].0@ == k);
    let uebersetzt = i18n::text(lang, k);
    assert(uebersetzt[0] != k[0]);
}

fn verbunden_text(teile: &Vec<String>, trenner: &str) -> (r: String)
    ensures
        r@ == zeichen::verbunden(text::texte(teile@), trenner@),
{
    let mut v: Vec<Vec<char>> = Vec::new();
    let mut i: usize = 0;
    while i < teile.len()
        invariant
            i <= teile@.len(),
            v@.len() == i,
            forall|k: int| 0 <= k < i ==> (#[trigger] v@[k])@ == teile@[k]@,
        decreases teile@.len() - i,
    {
        v.push(zeichen_von(teile[i].as_str()));
        i = i + 1;
    }
    assert(zeichen::ansichten(v@) =~= text::texte(teile@));
    text_aus(&verbinde(&v, &zeichen_von(trenner)))
}

/// Tabelle der Analyseergebnisse, nach Größe sortiert.
pub fn scan_tabelle(lang: &str, bericht: &ScanReport, alle: bool) -> (r: Tabelle)
    ensures
        r.kopf_sicht() == seq![""@, "ZIEL"@, "KATEGORIE"@, "GRÖSSE"@, "ANZAHL"@, "HINWEIS"@],
        r.ausrichtung_sicht() == seq![Ausrichtung::Links, Ausrichtung::Links, Ausrichtung::Links,
            Ausrichtung::Rechts, Ausrichtung::Rechts, Ausrichtung::Links],
        r.zeilen_sicht().len() == sortiert(gefiltert(bericht.targets@, alle)).len(),
        forall|k: int| 0 <= k < r.zeilen_sicht().len() ==> #[trigger] r.zeilen_sicht()[k]
            == scanzeile(lang@, sortiert(gefiltert(bericht.targets@, alle))[k]),
{
    let mut tabelle = Tabelle::neu(
        &["", "ZIEL", "KATEGORIE", "GRÖSSE", "ANZAHL", "HINWEIS"],
        &[Ausrichtung::Links, Ausrichtung::Links, Ausrichtung::Links, Ausrichtung::Rechts, Ausrichtung::Rechts, Ausrichtung::Links],
    );
    assert(tabelle.kopf_sicht() =~= seq![""@, "ZIEL"@, "KATEGORIE"@, "GRÖSSE"@, "ANZAHL"@, "HINWEIS"@]);
    let ziele = ziele_nach_groesse(bericht, alle);
    let ghost sortierte = sortiert(gefiltert(bericht.targets@, alle));
    let mut k: usize = 0;
    while k < ziele.len()
        invariant
            k <= ziele@.len(),
            ergebnisse(ziele@) == sortierte,
            sortierte == sortiert(gefiltert(bericht.targets@, alle)),
            tabelle.kopf_sicht() == seq![""@, "ZIEL"@, "KATEGORIE"@, "GRÖSSE"@, "ANZAHL"@, "HINWEIS"@],
            tabelle.ausrichtung_sicht() == seq![Ausrichtung::Links, Ausrichtung::Links, Ausrichtung::Links,
                Ausrichtung::Rechts, Ausrichtung::Rechts, Ausrichtung::Links],
            tabelle.zeilen_sicht().len() == k,
            forall|m: int| 0 <= m < k ==> #[trigger] tabelle.zeilen_sicht()[m] == scanzeile(lang@, sortierte[m]),
        decreases ziele@.len() - k,
    {
        let ziel = ziele[k];
        assert(*ziel == sortierte[k as int]);
        let hinweis = if ziel.skipped {
            meldung(lang, ziel.skip_reason.as_str())
        } else {
            verbunden_text(&meldungen(lang, ziel.warnings.as_slice()), "; ")
        };
        let felder = vec![
            risikosymbol(ziel.risk).to_owned(),
            zielname(lang, ziel.key.as_str()),
            kategoriename(lang, ziel.category),
            format_bytes(ziel.size),
            dezimal_text(ziel.item_count as u64),
            hinweis,
        ];
        assert(text::texte(felder@) =~= scanzeile(lang@, sortierte[k as int]));
        tabelle.zeile(felder);
        k = k + 1;
    }
    tabelle
}

/// Eine Zeile der Kategorietabelle.
pub open spec fn kategoriezeile(lang: Seq<char>, s: Kategoriesumme) -> Seq<Seq<char>> {
    seq![kategorie_text(lang, s.kategorie), fsutil::groesse_text(s.size as nat), zeichen::dezimal(s.items as nat)]
}

/// Tabelle der Kategoriesummen, abgeschlossen mit der Gesamtsumme.
pub fn kategorie_tabelle(lang: &str, bericht: &ScanReport) -> (r: Tabelle)
    requires
        summen_passen(bericht.targets@),
    ensures
        r.kopf_sicht() == seq!["KATEGORIE"@, "GRÖSSE"@, "ANZAHL"@],
        r.ausrichtung_sicht() == seq![Ausrichtung::Links, Ausrichtung::Rechts, Ausrichtung::Rechts],
        r.zeilen_sicht() == Seq::new(summen_bis(bericht.targets@, 6).len(),
            |k: int| kategoriezeile(lang@, summen_bis(bericht.targets@, 6)[k]))
            .push(seq![i18n::text(lang@, "cli.total"@), fsutil::groesse_text(bericht.total_size as nat),
                zeichen::dezimal(bericht.total_items as nat)]),
{
    let mut tabelle = Tabelle::neu(
        &["KATEGORIE", "GRÖSSE", "ANZAHL"],
        &[Ausrichtung::Links, Ausrichtung::Rechts, Ausrichtung::Rechts],
    );
    assert(tabelle.kopf_sicht() =~= seq!["KATEGORIE"@, "GRÖSSE"@, "ANZAHL"@]);
    let summen = kategoriesummen(bericht);
    let mut k: usize = 0;
    while k < summen.len()
        invariant
            k <= summen@.len(),
            summen@ == summen_bis(bericht.targets@, 6),
            tabelle.kopf_sicht() == seq!["KATEGORIE"@, "GRÖSSE"@, "ANZAHL"@],
            tabelle.ausrichtung_sicht() == seq![Ausrichtung::Links, Ausrichtung::Rechts, Ausrichtung::Rechts],
            tabelle.zeilen_sicht() == Seq::new(k as nat, |m: int| kategoriezeile(lang@, summen@[m])),
        decreases summen@.len() - k,
    {
        let s = &summen[k];
        let felder = vec![kategoriename(lang, s.kategorie), format_bytes(s.size), dezimal_text(s.items as u64)];
        assert(text::texte(felder@) =~= kategoriezeile(lang@, summen@[k as int]));
        tabelle.zeile(felder);
        k = k + 1;
        assert(tabelle.zeilen_sicht() =~= Seq::new(k as nat, |m: int| kategoriezeile(lang@, summen@[m])));
    }
    let gesamt = vec![t(lang, "cli.total"), format_bytes(bericht.total_size), dezimal_text(bericht.total_items as u64)];
    let ghost summenzeile = seq![i18n::text(lang@, "cli.total"@), fsutil::groesse_text(bericht.total_size as nat),
        zeichen::dezimal(bericht.total_items as nat)];
    assert(text::texte(gesamt@) =~= summenzeile);
    assert(aufgefuellt(summenzeile, 3) == summenzeile);
    tabelle.zeile(gesamt);
    assert(tabelle.zeilen_sicht() =~= Seq::new(summen_bis(bericht.targets@, 6).len(),
        |k: int| kategoriezeile(lang@, summen_bis(bericht.targets@, 6)[k])).push(summenzeile));
    tabelle
}

/// Hinweis einer Zeile der Bereinigungstabelle: Grund und Fehler, mit `; ` verbunden.
pub open spec fn clean_hinweis(lang: Seq<char>, z: TargetClean) -> Seq<char> {
    let h = text::meldungstext(lang, z.skip_reason@);
    let f = meldungen_verbunden(lang, z.errors@);
    if f.len() > 0 {
        if h.len() == 0 { f } else { h + "; "@ + f }
    } else {
        h
    }
}

/// Eine Zeile der Bereinigungstabelle.
pub open spec fn cleanzeile(lang: Seq<char>, z: TargetClean) -> Seq<Seq<char>> {
    seq![
        if z.skipped { "-"@ } else if z.ok { "+"@ } else { "x"@ },
        zielname_text(lang, z.key@),
        fsutil::groesse_text(z.freed as nat),
        zeichen::dezimal(z.removed_items as nat),
        clean_hinweis(lang, z),
    ]
}

/// Tabelle des Bereinigungsergebnisses.
pub fn clean_tabelle(lang: &str, bericht: &CleanReport) -> (r: Tabelle)
    ensures
        r.kopf_sicht() == seq![""@, "ZIEL"@, "FREIGEGEBEN"@, "EINTRÄGE"@, "HINWEIS"@],
        r.ausrichtung_sicht() == seq![Ausrichtung::Links, Ausrichtung::Links, Ausrichtung::Rechts,
            Ausrichtung::Rechts, Ausrichtung::Links],
        r.zeilen_sicht() == Seq::new(bericht.targets@.len(), |k: int| cleanzeile(lang@, bericht.targets@[k])),
{
    let mut tabelle = Tabelle::neu(
        &["", "ZIEL", "FREIGEGEBEN", "EINTRÄGE", "HINWEIS"],
        &[Ausrichtung::Links, Ausrichtung::Links, Ausrichtung::Rechts, Ausrichtung::Rechts, Ausrichtung::Links],
    );
    assert(tabelle.kopf_sicht() =~= seq![""@, "ZIEL"@, "FREIGEGEBEN"@, "EINTRÄGE"@, "HINWEIS"@]);
    let ziele = &bericht.targets;
    let mut k: usize = 0;
    while k < ziele.len()
        invariant
            k <= ziele@.len(),
            tabelle.kopf_sicht() == seq![""@, "ZIEL"@, "FREIGEGEBEN"@, "EINTRÄGE"@, "HINWEIS"@],
            tabelle.ausrichtung_sicht() == seq![Ausrichtung::Links, Ausrichtung::Links, Ausrichtung::Rechts,
                Ausrichtung::Rechts, Ausrichtung::Links],
            tabelle.zeilen_sicht() == Seq::new(k as nat, |m: int| cleanzeile(lang@, ziele@[m])),
        decreases ziele@.len() - k,
    {
        let ziel = &ziele[k];
        let grund = meldung(lang, ziel.skip_reason.as_str());
        let fehler = verbunden_text(&meldungen(lang, ziel.errors.as_slice()), "; ");
        let hinweis = if fehler.as_str().unicode_len() > 0 {
            if grund.as_str().unicode_len() == 0 {
                fehler
            } else {
                verkettet(grund.as_str(), "; ", fehler.as_str())
            }
        } else {
            grund
        };
        let felder = vec![
            statuszeichen(ziel.ok, ziel.skipped).to_owned(),
            zielname(lang, ziel.key.as_str()),
            format_bytes(ziel.freed),
            dezimal_text(ziel.removed_items as u64),
            hinweis,
        ];
        assert(text::texte(felder@) =~= cleanzeile(lang@, ziele@[k as int]));
        tabelle.zeile(felder);
        k = k + 1;
        assert(tabelle.zeilen_sicht() =~= Seq::new(k as nat, |m: int| cleanzeile(lang@, ziele@[m])));
    }
    assert(Seq::new(k as nat, |m: int| cleanzeile(lang@, ziele@[m]))
        =~= Seq::new(bericht.targets@.len(), |m: int| cleanzeile(lang@, bericht.targets@[m])));
    tabelle
}

/// Abschlusssatz eines Bereinigungslaufs; der Trockenlauf hat einen eigenen
/// Satz, weil „freigegeben“ dort nicht stimmen würde.
pub fn clean_zusammenfassung(lang: &str, bericht: &CleanReport, trockenlauf: bool) -> (r: String)
    ensures
        r@ == i18n::gefuellt(
            i18n::text(lang@, if trockenlauf { "clean.dry_run_summary"@ } else { "clean.summary"@ }),
            seq![fsutil::groesse_text(bericht.total_freed as nat), zeichen::dezimal(bericht.total_removed as nat)],
        ),
{
    let bytes = format_bytes(bericht.total_freed);
    let anzahl = dezimal_text(bericht.total_removed as u64);
    let schluessel = if trockenlauf { "clean.dry_run_summary" } else { "clean.summary" };
    let args = [bytes.as_str(), anzahl.as_str()];
    assert(i18n::argumente(args@) =~= seq![bytes@, anzahl@]);
    crate::i18n::format(lang, schluessel, &args)
}

/// Satz mit dem Gesamtergebnis der Analyse.
pub fn scan_zusammenfassung(lang: &str, bericht: &ScanReport) -> (r: String)
    ensures
        r@ == i18n::gefuellt(
            i18n::text(lang@, "home.found_total"@),
            seq![fsutil::groesse_text(bericht.total_size as nat), zeichen::dezimal(bericht.total_items as nat)],
        ),
{
    let bytes = format_bytes(bericht.total_size);
    let anzahl = dezimal_text(bericht.total_items as u64);
    let args = [bytes.as_str(), anzahl.as_str()];
    assert(i18n::argumente(args@) =~= seq![bytes@, anzahl@]);
    crate::i18n::format(lang, "home.found_total", &args)
}

/// Die riskanten Ziele unter den Schlüsseln, in Eingabereihenfolge;
/// unbekannte Schlüssel fallen weg.
pub open spec fn riskante_bis(keys: Seq<Seq<char>>) -> Seq<&'static str>
    decreases keys.len(),
{
    if keys.len() == 0 {
        seq![]
    } else {
        let davor = riskante_bis(keys.drop_last());
        match catalog::zeile_ab(catalog::schluesselform(keys.last()), 0) {
            Some(i) => if ZIELE[i].3 == Risk::Caution { davor.push(ZIELE[i].0) } else { davor },
            None => davor,
        }
    }
}

/// Zielschlüssel mit Risikostufe [`Risk::Caution`] aus einer Auswahl. Diese
/// Ziele müssen vor dem Löschen einzeln benannt werden.
pub fn riskante_ziele(keys: &[String]) -> (r: Vec<&'static str>)
    ensures
        r@ == riskante_bis(text::texte(keys@)),
{
    let mut r: Vec<&'static str> = Vec::new();
    let mut i: usize = 0;
    while i < keys.len()
        invariant
            i <= keys@.len(),
            r@ == riskante_bis(text::texte(keys@.subrange(0, i as int))),
        decreases keys@.len() - i,
    {
        proof {
            assert(text::texte(keys@.subrange(0, i + 1)).drop_last() =~= text::texte(keys@.subrange(0, i as int)));
            assert(text::texte(keys@.subrange(0, i + 1)).last() == keys@[i as int]@);
        }
        match target_by_key(keys[i].as_str()) {
            Some(ziel) => {
                if ziel.risk == Risk::Caution {
                    r.push(ziel.key);
                }
            },
            None => {},
        }
        i = i + 1;
    }
    assert(keys@.subrange(0, i as int) =~= keys@);
    r
}

} // verus!
