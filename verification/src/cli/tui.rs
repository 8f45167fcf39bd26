//! Zustand und Bedienung der Textoberfläche (TUI).
//!
//! Dieselbe Engine wie GUI und CLI, nur im Terminal: erst analysieren, dann
//! auswählen, dann bereinigen – es wird nie ungefragt gelöscht.
//!
//! Die **Zustandsmaschine** ([`Oberflaeche`]) ist vom Zeichnen getrennt: eine
//! Taste verändert den Zustand und sagt, was der Aufrufer anstoßen soll
//! ([`Aktion`]). Terminal, Ereignisschleife und Zeichnen gehören zur
//! Anwendung.

use vstd::prelude::*;
use crate::i18n;
use crate::zeichen;
use crate::zeichen::{gleich, text_von};
use crate::engine::catalog;
use crate::engine::catalog::{default_selection, targets, targets_in, ANZAHL, ZIELE};
use crate::engine::types::{Category, CleanReport, ScanReport, Target, TargetScan};

verus! {

/// Kleinste sinnvolle Terminalbreite. Darunter wird nur ein Hinweis gezeigt.
pub const MIN_BREITE: u16 = 80;
/// Kleinste sinnvolle Terminalhöhe.
pub const MIN_HOEHE: u16 = 20;

/// ASCII-Logo für den Startbildschirm.
pub const LOGO: [&'static str; 6] = [
    "  ██████╗ ██╗      █████╗ ███╗   ██╗███████╗",
    "  ██╔══██╗██║     ██╔══██╗████╗  ██║██╔════╝",
    "  ██████╔╝██║     ███████║██╔██╗ ██║█████╗  ",
    "  ██╔═══╝ ██║     ██╔══██║██║╚██╗██║██╔══╝  ",
    "  ██║     ███████╗██║  ██║██║ ╚████║███████╗",
    "  ╚═╝     ╚══════╝╚═╝  ╚═╝╚═╝  ╚═══╝╚══════╝",
];

/// Welcher Bereich die Tastatureingaben bekommt.
#[derive(Debug, Clone, Copy, PartialEq, Eq, Structural)]
pub enum Spalte {
    Kategorien,
    Ziele,
}

/// Was gerade angezeigt wird.
#[derive(Debug, Clone, Copy, PartialEq, Eq)]
pub enum Ansicht {
    /// Startbildschirm mit Logo, vor der ersten Analyse.
    Start,
    /// Auswahl von Kategorien und Zielen.
    Auswahl,
    /// Analyse oder Bereinigung läuft.
    Laeuft { phase: &'static str },
    /// Ergebnis der Bereinigung.
    Ergebnis,
    /// Tastaturhilfe.
    Hilfe,
}

/// Ergebnis einer Tasteneingabe.
#[derive(Debug, Clone, Copy, PartialEq, Eq, Structural)]
pub enum Aktion {
    /// Nichts weiter zu tun.
    Nichts,
    /// Analyse starten.
    Analysieren,
    /// Bereinigung starten.
    Bereinigen,
    /// Laufenden Vorgang abbrechen.
    Abbrechen,
    /// Oberfläche beenden.
    Beenden,
}

/// Eine Taste, wie die Oberfläche sie unterscheidet.
#[derive(Debug, Clone, Copy, PartialEq, Eq, Structural)]
pub enum Taste {
    Zeichen(char),
    Esc,
    Enter,
    Tab,
    Hoch,
    Runter,
    Links,
    Rechts,
    /// Funktionstaste `F(n)`.
    F(u8),
    /// Jede andere Taste.
    Andere,
}

/// Zustand der Oberfläche.
///
/// Enthält bewusst **keine** Terminal- oder Zeichenlogik, damit die
/// Navigation prüfbar bleibt.
pub struct Oberflaeche {
    pub lang: String,
    pub ansicht: Ansicht,
    pub spalte: Spalte,
    /// Kategorien in Anzeigereihenfolge.
    pub kategorien: Vec<Category>,
    pub kategorie_index: usize,
    pub ziel_index: usize,
    /// Ausgewählte Zielschlüssel.
    pub auswahl: Vec<String>,
    /// Letztes Analyseergebnis.
    pub scan: Option<ScanReport>,
    /// Letztes Bereinigungsergebnis.
    pub clean: Option<CleanReport>,
    /// Nur simulieren.
    pub trockenlauf: bool,
    /// Meldung in der Fußzeile.
    pub hinweis: String,
}

// ---------------------------------------------------------------------------
// Modell
// ---------------------------------------------------------------------------

/// Die Schlüssel der Katalogzeilen `zeilen`.
pub open spec fn schluessel_der(zeilen: Seq<int>) -> Seq<Seq<char>> {
    zeilen.map_values(|i: int| ZIELE[i].0@)
}

/// Alle Zielschlüssel in Katalogreihenfolge.
pub open spec fn alle_schluessel() -> Seq<Seq<char>> {
    Seq::new(ANZAHL as nat, |i: int| ZIELE[i].0@)
}

/// Die Schlüssel der empfohlenen Auswahl.
pub open spec fn empfohlene_schluessel() -> Seq<Seq<char>> {
    schluessel_der(catalog::vorausgewaehlte_zeilen(ANZAHL as nat))
}

/// Die Schlüssel einer Kategorie in Katalogreihenfolge.
pub open spec fn schluessel_in(c: Category) -> Seq<Seq<char>> {
    schluessel_der(catalog::zeilen_in(c, ANZAHL as nat))
}

/// Die Auswahl als Folge von Schlüsseln.
pub open spec fn auswahl_von(o: Oberflaeche) -> Seq<Seq<char>> {
    zeichen::text_folgen(o.auswahl@)
}

/// Die Oberfläche kennt mindestens eine Kategorie.
pub open spec fn wohlgeformt(o: Oberflaeche) -> bool {
    o.kategorien@.len() > 0
}

/// Der Index, begrenzt auf `[0, n)`; `0`, wenn `n` null ist.
pub open spec fn begrenzt(index: int, n: int) -> int {
    if index < n - 1 {
        index
    } else if n > 0 {
        n - 1
    } else {
        0
    }
}

/// Die aktuell gewählte Kategorie.
pub open spec fn kategorie_von(o: Oberflaeche) -> Category {
    o.kategorien@[begrenzt(o.kategorie_index as int, o.kategorien@.len() as int)]
}

/// Die Schlüssel der Ziele in der aktuellen Kategorie.
pub open spec fn ziele_von(o: Oberflaeche) -> Seq<Seq<char>> {
    schluessel_in(kategorie_von(o))
}

/// Erste Stelle ab `i`, an der `k` in `a` steht.
pub open spec fn erste_stelle(a: Seq<Seq<char>>, k: Seq<char>, i: int) -> Option<int>
    decreases a.len() - i,
{
    if i < 0 || i >= a.len() {
        None
    } else if a[i] == k {
        Some(i)
    } else {
        erste_stelle(a, k, i + 1)
    }
}

/// `k` ausgewählt: das erste Vorkommen entfernt, sonst hinten angefügt.
pub open spec fn umgeschaltet(a: Seq<Seq<char>>, k: Seq<char>) -> Seq<Seq<char>> {
    match erste_stelle(a, k, 0) {
        Some(i) => a.remove(i),
        None => a.push(k),
    }
}

/// Das erste Vorkommen von `k` entfernt, falls vorhanden.
pub open spec fn ohne_schluessel(a: Seq<Seq<char>>, k: Seq<char>) -> Seq<Seq<char>> {
    match erste_stelle(a, k, 0) {
        Some(i) => a.remove(i),
        None => a,
    }
}

/// `k` hinten angefügt, falls es fehlt.
pub open spec fn mit_schluessel(a: Seq<Seq<char>>, k: Seq<char>) -> Seq<Seq<char>> {
    match erste_stelle(a, k, 0) {
        Some(_) => a,
        None => a.push(k),
    }
}

/// Alle `keys` der Reihe nach entfernt.
pub open spec fn ohne_alle(a: Seq<Seq<char>>, keys: Seq<Seq<char>>) -> Seq<Seq<char>>
    decreases keys.len(),
{
    if keys.len() == 0 {
        a
    } else {
        ohne_schluessel(ohne_alle(a, keys.drop_last()), keys.last())
    }
}

/// Alle fehlenden `keys` der Reihe nach angefügt.
pub open spec fn mit_allen(a: Seq<Seq<char>>, keys: Seq<Seq<char>>) -> Seq<Seq<char>>
    decreases keys.len(),
{
    if keys.len() == 0 {
        a
    } else {
        mit_schluessel(mit_allen(a, keys.drop_last()), keys.last())
    }
}

/// Alle `keys` sind ausgewählt.
pub open spec fn alle_drin(a: Seq<Seq<char>>, keys: Seq<Seq<char>>) -> bool {
    forall|i: int| 0 <= i < keys.len() ==> a.contains(#[trigger] keys[i])
}

pub proof fn lemma_erste_stelle(a: Seq<Seq<char>>, k: Seq<char>, i: int)
    requires
        0 <= i,
    ensures
        erste_stelle(a, k, i) matches Some(j) ==> i <= j < a.len() && a[j] == k
            && forall|m: int| i <= m < j ==> a[m] != k,
        erste_stelle(a, k, i) is None ==> forall|m: int| i <= m < a.len() ==> a[m] != k,
    decreases a.len() - i,
{
    if i < a.len() && a[i] != k {
        lemma_erste_stelle(a, k, i + 1);
    }
}

// ---------------------------------------------------------------------------
// Abfragen und einfache Änderungen
// ---------------------------------------------------------------------------

/// Die Schlüssel von Zielen als Zeichenketten.
fn schluessel_von(ziele: &Vec<Target>) -> (r: Vec<String>)
    ensures
        r@.len() == ziele@.len(),
        forall|i: int| 0 <= i < r@.len() ==> #[trigger] r@[i]@ == ziele@[i].key@,
{
    let mut r: Vec<String> = Vec::new();
    let mut i: usize = 0;
    while i < ziele.len()
        invariant
            i <= ziele@.len(),
            r@.len() == i,
            forall|k: int| 0 <= k < i ==> #[trigger] r@[k]@ == ziele@[k].key@,
        decreases ziele@.len() - i,
    {
        r.push(text_von(ziele[i].key));
        i = i + 1;
    }
    r
}

/// Die Schlüssel der empfohlenen Auswahl als Zeichenketten.
fn empfohlene_auswahl() -> (r: Vec<String>)
    ensures
        zeichen::text_folgen(r@) == empfohlene_schluessel(),
{
    let d = default_selection();
    let mut r: Vec<String> = Vec::new();
    let mut i: usize = 0;
    while i < d.len()
        invariant
            i <= d@.len(),
            d@.len() == catalog::vorausgewaehlte_zeilen(ANZAHL as nat).len(),
            forall|k: int| 0 <= k < d@.len() ==> #[trigger] d@[k] == ZIELE[catalog::vorausgewaehlte_zeilen(ANZAHL as nat)[k]].0,
            zeichen::text_folgen(r@) == empfohlene_schluessel().subrange(0, i as int),
        decreases d@.len() - i,
    {
        let ghost vor = r@;
        r.push(text_von(d[i]));
        proof {
            assert(zeichen::text_folgen(r@) =~= zeichen::text_folgen(vor).push(d@[i as int]@));
            assert(empfohlene_schluessel().subrange(0, i + 1) =~= empfohlene_schluessel().subrange(0, i as int).push(d@[i as int]@));
        }
        i = i + 1;
    }
    assert(empfohlene_schluessel().subrange(0, i as int) =~= empfohlene_schluessel());
    r
}

/// Erste Stelle eines Schlüssels in einer Auswahl.
fn stelle_in(a: &Vec<String>, key: &str) -> (r: Option<usize>)
    ensures
        r is None <==> erste_stelle(zeichen::text_folgen(a@), key@, 0) is None,
        r matches Some(i) ==> erste_stelle(zeichen::text_folgen(a@), key@, 0) == Some(i as int)
            && i < a@.len(),
        r is None <==> !zeichen::text_folgen(a@).contains(key@),
{
    let ghost f = zeichen::text_folgen(a@);
    let mut i: usize = 0;
    while i < a.len()
        invariant
            i <= a@.len(),
            f == zeichen::text_folgen(a@),
            erste_stelle(f, key@, 0) == erste_stelle(f, key@, i as int),
            forall|m: int| 0 <= m < i ==> f[m] != key@,
        decreases a@.len() - i,
    {
        if gleich(a[i].as_str(), key) {
            proof {
                lemma_erste_stelle(f, key@, 0);
            }
            return Some(i);
        }
        i = i + 1;
    }
    proof {
        lemma_erste_stelle(f, key@, 0);
    }
    None
}

/// Das erste Vorkommen von `key` entfernen oder `key` anfügen.
fn schalte_um(a: &mut Vec<String>, key: &str)
    ensures
        zeichen::text_folgen(final(a)@) == umgeschaltet(zeichen::text_folgen(old(a)@), key@),
{
    match stelle_in(a, key) {
        Some(i) => {
            let ghost vor = a@;
            a.remove(i);
            assert(zeichen::text_folgen(a@) =~= zeichen::text_folgen(vor).remove(i as int));
        },
        None => {
            let ghost vor = a@;
            a.push(text_von(key));
            assert(zeichen::text_folgen(a@) =~= zeichen::text_folgen(vor).push(key@));
        },
    }
}

/// Eine ganze Kategorie umschalten: sind alle `keys` gewählt, werden sie
/// entfernt, sonst werden die fehlenden angefügt – alles oder nichts.
fn kategorie_umschalten(a: &mut Vec<String>, keys: &Vec<String>)
    ensures
        zeichen::text_folgen(final(a)@) == (if alle_drin(zeichen::text_folgen(old(a)@), zeichen::text_folgen(keys@)) {
            ohne_alle(zeichen::text_folgen(old(a)@), zeichen::text_folgen(keys@))
        } else {
            mit_allen(zeichen::text_folgen(old(a)@), zeichen::text_folgen(keys@))
        }),
{
    let ghost a0 = zeichen::text_folgen(a@);
    let ghost k = zeichen::text_folgen(keys@);
    let mut alle = true;
    let mut j: usize = 0;
    while j < keys.len()
        invariant
            j <= keys@.len(),
            a0 == zeichen::text_folgen(a@),
            k == zeichen::text_folgen(keys@),
            alle == forall|m: int| 0 <= m < j ==> a0.contains(#[trigger] k[m]),
        decreases keys@.len() - j,
    {
        let gefunden = stelle_in(a, keys[j].as_str()).is_some();
        let ghost alt = alle;
        assert(k[j as int] == keys@[j as int]@);
        if !gefunden {
            alle = false;
        }
        proof {
            if alt && gefunden {
                assert forall|m: int| 0 <= m < j + 1 implies a0.contains(#[trigger] k[m]) by {
                    if m < j {
                        assert(a0.contains(k[m]));
                    }
                }
            }
            if !gefunden {
                assert(!a0.contains(k[j as int]));
            }
        }
        j = j + 1;
    }
    assert(alle == alle_drin(a0, k));
    let mut i: usize = 0;
    while i < keys.len()
        invariant
            i <= keys@.len(),
            k == zeichen::text_folgen(keys@),
            alle == alle_drin(a0, k),
            zeichen::text_folgen(a@) == (if alle {
                ohne_alle(a0, k.subrange(0, i as int))
            } else {
                mit_allen(a0, k.subrange(0, i as int))
            }),
        decreases keys@.len() - i,
    {
        let ghost vor = zeichen::text_folgen(a@);
        assert(k.subrange(0, i + 1).drop_last() =~= k.subrange(0, i as int));
        assert(k.subrange(0, i + 1).last() == keys@[i as int]@);
        let key = keys[i].as_str();
        match stelle_in(a, key) {
            Some(p) => {
                if alle {
                    let ghost v = a@;
                    a.remove(p);
                    assert(zeichen::text_folgen(a@) =~= zeichen::text_folgen(v).remove(p as int));
                }
            },
            None => {
                if !alle {
                    let ghost v = a@;
                    a.push(text_von(key));
                    assert(zeichen::text_folgen(a@) =~= zeichen::text_folgen(v).push(key@));
                }
            },
        }
        i = i + 1;
    }
    assert(k.subrange(0, i as int) =~= k);
}

impl Oberflaeche {
    /// Startzustand: Startbildschirm, Kategoriespalte, empfohlene Auswahl.
    pub fn neu(lang: &str) -> (r: Self)
        ensures
            r.lang@ == lang@,
            r.ansicht == Ansicht::Start,
            r.spalte == Spalte::Kategorien,
            r.kategorien@ == Category::ALL@,
            r.kategorie_index == 0,
            r.ziel_index == 0,
            auswahl_von(r) == empfohlene_schluessel(),
            r.scan is None,
            r.clean is None,
            !r.trockenlauf,
            r.hinweis@.len() == 0,
            wohlgeformt(r),
    {
        let alle = Category::ALL;
        let mut kategorien: Vec<Category> = Vec::new();
        let mut i: usize = 0;
        while i < 6
            invariant
                i <= 6,
                alle == Category::ALL,
                kategorien@ == Category::ALL@.subrange(0, i as int),
            decreases 6 - i,
        {
            kategorien.push(alle[i]);
            i = i + 1;
            assert(kategorien@ =~= Category::ALL@.subrange(0, i as int));
        }
        assert(Category::ALL@.subrange(0, 6) =~= Category::ALL@);
        Oberflaeche {
            lang: text_von(lang),
            ansicht: Ansicht::Start,
            spalte: Spalte::Kategorien,
            kategorien,
            kategorie_index: 0,
            ziel_index: 0,
            auswahl: empfohlene_auswahl(),
            scan: None,
            clean: None,
            trockenlauf: false,
            hinweis: String::new(),
        }
    }

    /// Aktuell gewählte Kategorie; ein zu großer Index zählt als letzte.
    pub fn kategorie(&self) -> (r: Category)
        requires
            wohlgeformt(*self),
        ensures
            r == kategorie_von(*self),
    {
        let n = self.kategorien.len();
        let i = if self.kategorie_index < n - 1 { self.kategorie_index } else { n - 1 };
        self.kategorien[i]
    }

    /// Ziele der aktuellen Kategorie, in Katalogreihenfolge.
    pub fn ziele(&self) -> (r: Vec<Target>)
        requires
            wohlgeformt(*self),
        ensures
            r@.len() == catalog::zeilen_in(kategorie_von(*self), ANZAHL as nat).len(),
            forall|k: int| 0 <= k < r@.len() ==> #[trigger] catalog::ziel_passt(r@[k], catalog::zeilen_in(kategorie_von(*self), ANZAHL as nat)[k]),
    {
        targets_in(self.kategorie())
    }

    /// Aktuell markiertes Ziel; ein zu großer Index zählt als letztes.
    pub fn aktuelles_ziel(&self) -> (r: Option<Target>)
        requires
            wohlgeformt(*self),
        ensures
            r is None <==> ziele_von(*self).len() == 0,
            r matches Some(t) ==> catalog::ziel_passt(t, catalog::zeilen_in(kategorie_von(*self), ANZAHL as nat)[
                begrenzt(self.ziel_index as int, ziele_von(*self).len() as int)]),
    {
        let mut ziele = self.ziele();
        let n = ziele.len();
        if n == 0 {
            return None;
        }
        let i = if self.ziel_index < n - 1 { self.ziel_index } else { n - 1 };
        Some(ziele.remove(i))
    }

    /// Analyseergebnis zu einem Zielschlüssel: das erste mit diesem Schlüssel.
    pub fn scan_fuer(&self, key: &str) -> (r: Option<&TargetScan>)
        ensures
            self.scan is None ==> r is None,
            self.scan matches Some(b) ==> (r is None <==> forall|i: int| 0 <= i < b.targets@.len() ==> #[trigger] b.targets@[i].key@ != key@),
            self.scan matches Some(b) ==> (r matches Some(t) ==> exists|i: int| 0 <= i < b.targets@.len() && #[trigger] b.targets@[i] == *t
                && t.key@ == key@ && forall|m: int| 0 <= m < i ==> b.targets@[m].key@ != key@),
    {
        match self.scan.as_ref() {
            None => None,
            Some(bericht) => {
                let mut i: usize = 0;
                while i < bericht.targets.len()
                    invariant
                        i <= bericht.targets@.len(),
                        self.scan == Some(*bericht),
                        forall|m: int| 0 <= m < i ==> bericht.targets@[m].key@ != key@,
                    decreases bericht.targets@.len() - i,
                {
                    if gleich(bericht.targets[i].key.as_str(), key) {
                        return Some(&bericht.targets[i]);
                    }
                    i = i + 1;
                }
                None
            },
        }
    }

    /// Ist der Schlüssel ausgewählt?
    pub fn ist_ausgewaehlt(&self, key: &str) -> (r: bool)
        ensures
            r == auswahl_von(*self).contains(key@),
    {
        match self.stelle_von(key) {
            Some(_) => true,
            None => false,
        }
    }

    /// Erste Stelle eines Schlüssels in der Auswahl.
    fn stelle_von(&self, key: &str) -> (r: Option<usize>)
        ensures
            r is None <==> erste_stelle(auswahl_von(*self), key@, 0) is None,
            r matches Some(i) ==> erste_stelle(auswahl_von(*self), key@, 0) == Some(i as int)
                && i < self.auswahl@.len(),
            r is None <==> !auswahl_von(*self).contains(key@),
    {
        stelle_in(&self.auswahl, key)
    }

    /// Auswahl eines Ziels umschalten.
    pub fn umschalten(&mut self, key: &str)
        ensures
            auswahl_von(*final(self)) == umgeschaltet(auswahl_von(*old(self)), key@),
            final(self).lang == old(self).lang,
            final(self).ansicht == old(self).ansicht,
            final(self).spalte == old(self).spalte,
            final(self).kategorien == old(self).kategorien,
            final(self).kategorie_index == old(self).kategorie_index,
            final(self).ziel_index == old(self).ziel_index,
            final(self).scan == old(self).scan,
            final(self).clean == old(self).clean,
            final(self).trockenlauf == old(self).trockenlauf,
            final(self).hinweis == old(self).hinweis,
    {
        schalte_um(&mut self.auswahl, key);
    }

    /// Alle Ziele auswählen, in Katalogreihenfolge.
    pub fn alle_waehlen(&mut self)
        ensures
            auswahl_von(*final(self)) == alle_schluessel(),
            final(self).lang == old(self).lang,
            final(self).ansicht == old(self).ansicht,
            final(self).spalte == old(self).spalte,
            final(self).kategorien == old(self).kategorien,
            final(self).kategorie_index == old(self).kategorie_index,
            final(self).ziel_index == old(self).ziel_index,
            final(self).scan == old(self).scan,
            final(self).clean == old(self).clean,
            final(self).trockenlauf == old(self).trockenlauf,
            final(self).hinweis == old(self).hinweis,
    {
        let alle = targets();
        let keys = schluessel_von(&alle);
        assert(zeichen::text_folgen(keys@) =~= alle_schluessel()) by {
            assert forall|i: int| 0 <= i < ANZAHL implies #[trigger] zeichen::text_folgen(keys@)[i] == alle_schluessel()[i] by {
                assert(catalog::ziel_passt(alle@[i], i));
            }
        }
        self.auswahl = keys;
    }

    /// Auswahl leeren.
    pub fn nichts_waehlen(&mut self)
        ensures
            auswahl_von(*final(self)).len() == 0,
            final(self).lang == old(self).lang,
            final(self).ansicht == old(self).ansicht,
            final(self).spalte == old(self).spalte,
            final(self).kategorien == old(self).kategorien,
            final(self).kategorie_index == old(self).kategorie_index,
            final(self).ziel_index == old(self).ziel_index,
            final(self).scan == old(self).scan,
            final(self).clean == old(self).clean,
            final(self).trockenlauf == old(self).trockenlauf,
            final(self).hinweis == old(self).hinweis,
    {
        self.auswahl.clear();
    }

    /// Auf die empfohlene Auswahl zurücksetzen.
    pub fn empfohlen_waehlen(&mut self)
        ensures
            auswahl_von(*final(self)) == empfohlene_schluessel(),
            final(self).lang == old(self).lang,
            final(self).ansicht == old(self).ansicht,
            final(self).spalte == old(self).spalte,
            final(self).kategorien == old(self).kategorien,
            final(self).kategorie_index == old(self).kategorie_index,
            final(self).ziel_index == old(self).ziel_index,
            final(self).scan == old(self).scan,
            final(self).clean == old(self).clean,
            final(self).trockenlauf == old(self).trockenlauf,
            final(self).hinweis == old(self).hinweis,
    {
        self.auswahl = empfohlene_auswahl();
    }

    /// Sprache umschalten: Deutsch wird Englisch, alles andere Deutsch.
    pub fn sprache_umschalten(&mut self)
        ensures
            final(self).lang@ == (if old(self).lang@ == "de"@ { "en"@ } else { "de"@ }),
            final(self).ansicht == old(self).ansicht,
            final(self).spalte == old(self).spalte,
            final(self).kategorien == old(self).kategorien,
            final(self).kategorie_index == old(self).kategorie_index,
            final(self).ziel_index == old(self).ziel_index,
            final(self).auswahl == old(self).auswahl,
            final(self).scan == old(self).scan,
            final(self).clean == old(self).clean,
            final(self).trockenlauf == old(self).trockenlauf,
            final(self).hinweis == old(self).hinweis,
    {
        self.lang = if gleich(self.lang.as_str(), "de") {
            text_von("en")
        } else {
            text_von("de")
        };
    }
}

// ---------------------------------------------------------------------------
// Tasten
// ---------------------------------------------------------------------------

/// Strg+C.
pub open spec fn ist_strg_c(t: Taste, strg: bool) -> bool {
    strg && t == Taste::Zeichen('c')
}

/// Die Taste wird als Befehl der Auswahl gedeutet: kein Strg+C, kein Lauf,
/// keine Hilfe.
pub open spec fn gewoehnlich(o: Oberflaeche, t: Taste, strg: bool) -> bool {
    !ist_strg_c(t, strg) && !(o.ansicht is Laeuft) && !(o.ansicht is Hilfe)
}

pub open spec fn runter(t: Taste) -> bool {
    t == Taste::Runter || t == Taste::Zeichen('j')
}

pub open spec fn hoch(t: Taste) -> bool {
    t == Taste::Hoch || t == Taste::Zeichen('k')
}

/// Was eine Taste anstößt.
///
/// Strg+C beendet immer – während eines Laufs bricht es ihn ab. Während eines
/// Laufs sind sonst nur Esc und `q` (Abbruch) wirksam; die Hilfe schließt
/// jede Taste.
pub open spec fn aktion_nach(o: Oberflaeche, t: Taste, strg: bool) -> Aktion {
    if ist_strg_c(t, strg) {
        if o.ansicht is Laeuft { Aktion::Abbrechen } else { Aktion::Beenden }
    } else if o.ansicht is Laeuft {
        if t == Taste::Esc || t == Taste::Zeichen('q') { Aktion::Abbrechen } else { Aktion::Nichts }
    } else if o.ansicht is Hilfe {
        Aktion::Nichts
    } else if t == Taste::Zeichen('q') || t == Taste::Esc {
        Aktion::Beenden
    } else if t == Taste::Zeichen('s') || (t == Taste::Enter && o.ansicht is Start) {
        Aktion::Analysieren
    } else if t == Taste::Zeichen('c') {
        Aktion::Bereinigen
    } else {
        Aktion::Nichts
    }
}

/// Die Ansicht nach einer Taste.
pub open spec fn ansicht_nach(o: Oberflaeche, t: Taste, strg: bool) -> Ansicht {
    if ist_strg_c(t, strg) || o.ansicht is Laeuft {
        o.ansicht
    } else if o.ansicht is Hilfe {
        if o.scan is Some { Ansicht::Auswahl } else { Ansicht::Start }
    } else if t == Taste::Zeichen('?') || t == Taste::F(1) {
        Ansicht::Hilfe
    } else {
        o.ansicht
    }
}

/// Die Spalte nach einer Taste.
pub open spec fn spalte_nach(o: Oberflaeche, t: Taste, strg: bool) -> Spalte {
    if !gewoehnlich(o, t, strg) {
        o.spalte
    } else if t == Taste::Rechts || t == Taste::Zeichen('l') || t == Taste::Tab {
        Spalte::Ziele
    } else if t == Taste::Links || t == Taste::Zeichen('h') {
        Spalte::Kategorien
    } else {
        o.spalte
    }
}

/// In der Kategoriespalte: die Markierung wechselt die Kategorie.
pub open spec fn kategorie_wechselt(o: Oberflaeche, t: Taste, strg: bool) -> bool {
    &&& gewoehnlich(o, t, strg)
    &&& o.spalte == Spalte::Kategorien
    &&& ((runter(t) && o.kategorie_index + 1 < o.kategorien@.len()) || (hoch(t) && o.kategorie_index > 0))
}

/// Der Kategorieindex nach einer Taste: ein Schritt, nie über die Grenzen.
pub open spec fn kategorie_index_nach(o: Oberflaeche, t: Taste, strg: bool) -> int {
    if kategorie_wechselt(o, t, strg) {
        if runter(t) { o.kategorie_index + 1 } else { o.kategorie_index - 1 }
    } else {
        o.kategorie_index as int
    }
}

/// Der Zielindex nach einer Taste. Ein Kategoriewechsel setzt ihn zurück.
pub open spec fn ziel_index_nach(o: Oberflaeche, t: Taste, strg: bool) -> int {
    let zi = o.ziel_index as int;
    if kategorie_wechselt(o, t, strg) {
        0
    } else if gewoehnlich(o, t, strg) && o.spalte == Spalte::Ziele {
        if runter(t) && zi + 1 < ziele_von(o).len() {
            zi + 1
        } else if hoch(t) && zi > 0 {
            zi - 1
        } else {
            zi
        }
    } else {
        zi
    }
}

/// Der Trockenlauf nach einer Taste: `d` schaltet um.
pub open spec fn trockenlauf_nach(o: Oberflaeche, t: Taste, strg: bool) -> bool {
    if gewoehnlich(o, t, strg) && t == Taste::Zeichen('d') { !o.trockenlauf } else { o.trockenlauf }
}

/// Die Sprache nach einer Taste: `L` schaltet zwischen Deutsch und Englisch.
pub open spec fn sprache_nach(o: Oberflaeche, t: Taste, strg: bool) -> Seq<char> {
    if gewoehnlich(o, t, strg) && t == Taste::Zeichen('L') {
        if o.lang@ == "de"@ { "en"@ } else { "de"@ }
    } else {
        o.lang@
    }
}

/// Die Auswahl nach einer Taste.
///
/// `a` wählt alles, `n` nichts, `r` die Empfehlung. Die Leertaste schaltet in
/// der Zielspalte das markierte Ziel um, in der Kategoriespalte die ganze
/// Kategorie – alles oder nichts.
pub open spec fn auswahl_nach(o: Oberflaeche, t: Taste, strg: bool) -> Seq<Seq<char>> {
    let a = auswahl_von(o);
    let z = ziele_von(o);
    if !gewoehnlich(o, t, strg) {
        a
    } else if t == Taste::Zeichen('a') {
        alle_schluessel()
    } else if t == Taste::Zeichen('n') {
        Seq::empty()
    } else if t == Taste::Zeichen('r') {
        empfohlene_schluessel()
    } else if t == Taste::Zeichen(' ') {
        if o.spalte == Spalte::Ziele {
            if z.len() > 0 { umgeschaltet(a, z[begrenzt(o.ziel_index as int, z.len() as int)]) } else { a }
        } else if alle_drin(a, z) {
            ohne_alle(a, z)
        } else {
            mit_allen(a, z)
        }
    } else {
        a
    }
}

/// Summe der ausgewählten, nicht übersprungenen Ziele einer Analyse.
pub open spec fn auswahlsumme(s: Seq<TargetScan>, a: Seq<Seq<char>>) -> nat
    decreases s.len(),
{
    if s.len() == 0 {
        0
    } else {
        let t = s.last();
        auswahlsumme(s.drop_last(), a) + if a.contains(t.key@) && !t.skipped { t.size as nat } else { 0 }
    }
}

/// Summe der Ziele einer Kategorie.
pub open spec fn kategoriesumme(s: Seq<TargetScan>, c: Category) -> nat
    decreases s.len(),
{
    if s.len() == 0 {
        0
    } else {
        let t = s.last();
        kategoriesumme(s.drop_last(), c) + if t.category == c { t.size as nat } else { 0 }
    }
}

proof fn lemma_auswahlsumme_monoton(s: Seq<TargetScan>, a: Seq<Seq<char>>, k: int)
    requires
        0 <= k <= s.len(),
    ensures
        auswahlsumme(s.subrange(0, k), a) <= auswahlsumme(s, a),
    decreases s.len() - k,
{
    if k < s.len() {
        lemma_auswahlsumme_monoton(s, a, k + 1);
        assert(s.subrange(0, k + 1).drop_last() =~= s.subrange(0, k));
    } else {
        assert(s.subrange(0, k) =~= s);
    }
}

proof fn lemma_kategoriesumme_monoton(s: Seq<TargetScan>, c: Category, k: int)
    requires
        0 <= k <= s.len(),
    ensures
        kategoriesumme(s.subrange(0, k), c) <= kategoriesumme(s, c),
    decreases s.len() - k,
{
    if k < s.len() {
        lemma_kategoriesumme_monoton(s, c, k + 1);
        assert(s.subrange(0, k + 1).drop_last() =~= s.subrange(0, k));
    } else {
        assert(s.subrange(0, k) =~= s);
    }
}

impl Oberflaeche {
    /// Summe der ausgewählten Ziele in Bytes; ohne Analyse 0.
    pub fn auswahl_groesse(&self) -> (r: u64)
        requires
            self.scan matches Some(b) ==> auswahlsumme(b.targets@, auswahl_von(*self)) <= u64::MAX,
        ensures
            r == (match self.scan {
                Some(b) => auswahlsumme(b.targets@, auswahl_von(*self)),
                None => 0,
            }),
    {
        match self.scan.as_ref() {
            None => 0,
            Some(bericht) => {
                let ghost a = auswahl_von(*self);
                let mut summe: u64 = 0;
                let mut i: usize = 0;
                while i < bericht.targets.len()
                    invariant
                        i <= bericht.targets@.len(),
                        a == auswahl_von(*self),
                        auswahlsumme(bericht.targets@, a) <= u64::MAX,
                        summe == auswahlsumme(bericht.targets@.subrange(0, i as int), a),
                    decreases bericht.targets@.len() - i,
                {
                    let t = &bericht.targets[i];
                    proof {
                        assert(bericht.targets@.subrange(0, i + 1).drop_last() =~= bericht.targets@.subrange(0, i as int));
                        lemma_auswahlsumme_monoton(bericht.targets@, a, i + 1);
                    }
                    if self.ist_ausgewaehlt(t.key.as_str()) && !t.skipped {
                        summe = summe + t.size;
                    }
                    i = i + 1;
                }
                assert(bericht.targets@.subrange(0, i as int) =~= bericht.targets@);
                summe
            },
        }
    }

    /// Gefundene Größe einer Kategorie; ohne Analyse 0.
    pub fn kategorie_groesse(&self, kategorie: Category) -> (r: u64)
        requires
            self.scan matches Some(b) ==> kategoriesumme(b.targets@, kategorie) <= u64::MAX,
        ensures
            r == (match self.scan {
                Some(b) => kategoriesumme(b.targets@, kategorie),
                None => 0,
            }),
    {
        match self.scan.as_ref() {
            None => 0,
            Some(bericht) => {
                let mut summe: u64 = 0;
                let mut i: usize = 0;
                while i < bericht.targets.len()
                    invariant
                        i <= bericht.targets@.len(),
                        kategoriesumme(bericht.targets@, kategorie) <= u64::MAX,
                        summe == kategoriesumme(bericht.targets@.subrange(0, i as int), kategorie),
                    decreases bericht.targets@.len() - i,
                {
                    let t = &bericht.targets[i];
                    proof {
                        assert(bericht.targets@.subrange(0, i + 1).drop_last() =~= bericht.targets@.subrange(0, i as int));
                        lemma_kategoriesumme_monoton(bericht.targets@, kategorie, i + 1);
                    }
                    if t.category == kategorie {
                        summe = summe + t.size;
                    }
                    i = i + 1;
                }
                assert(bericht.targets@.subrange(0, i as int) =~= bericht.targets@);
                summe
            },
        }
    }

    /// Die Schlüssel der Ziele in der aktuellen Kategorie.
    fn zielschluessel(&self) -> (r: Vec<String>)
        requires
            wohlgeformt(*self),
        ensures
            zeichen::text_folgen(r@) == ziele_von(*self),
    {
        let ziele = self.ziele();
        let r = schluessel_von(&ziele);
        assert(zeichen::text_folgen(r@) =~= ziele_von(*self)) by {
            assert forall|k: int| 0 <= k < r@.len() implies #[trigger] zeichen::text_folgen(r@)[k] == ziele_von(*self)[k] by {
                assert(catalog::ziel_passt(ziele@[k], catalog::zeilen_in(kategorie_von(*self), ANZAHL as nat)[k]));
            }
        }
        r
    }

    /// Eine Taste verarbeiten.
    ///
    /// Gibt zurück, was der Aufrufer anstoßen soll; der Zustand ist dann
    /// bereits aktualisiert. `strg` sagt, ob Strg gedrückt war.
    pub fn taste(&mut self, taste: Taste, strg: bool) -> (r: Aktion)
        requires
            wohlgeformt(*old(self)),
        ensures
            r == aktion_nach(*old(self), taste, strg),
            final(self).ansicht == ansicht_nach(*old(self), taste, strg),
            final(self).spalte == spalte_nach(*old(self), taste, strg),
            final(self).kategorie_index == kategorie_index_nach(*old(self), taste, strg),
            final(self).ziel_index == ziel_index_nach(*old(self), taste, strg),
            final(self).trockenlauf == trockenlauf_nach(*old(self), taste, strg),
            final(self).lang@ == sprache_nach(*old(self), taste, strg),
            auswahl_von(*final(self)) == auswahl_nach(*old(self), taste, strg),
            final(self).kategorien == old(self).kategorien,
            final(self).scan == old(self).scan,
            final(self).clean == old(self).clean,
            final(self).hinweis == old(self).hinweis,
            wohlgeformt(*final(self)),
    {
        // Strg+C beendet immer.
        if strg && taste == Taste::Zeichen('c') {
            return match self.ansicht {
                Ansicht::Laeuft { .. } => Aktion::Abbrechen,
                _ => Aktion::Beenden,
            };
        }

        // Während eines Laufs ist nur der Abbruch möglich.
        if let Ansicht::Laeuft { .. } = self.ansicht {
            return match taste {
                Taste::Esc | Taste::Zeichen('q') => Aktion::Abbrechen,
                _ => Aktion::Nichts,
            };
        }

        if let Ansicht::Hilfe = self.ansicht {
            self.ansicht = if self.scan.is_some() { Ansicht::Auswahl } else { Ansicht::Start };
            return Aktion::Nichts;
        }

        let ist_start = match self.ansicht {
            Ansicht::Start => true,
            _ => false,
        };
        match taste {
            Taste::Zeichen('q') | Taste::Esc => Aktion::Beenden,
            Taste::Zeichen('?') | Taste::F(1) => {
                self.ansicht = Ansicht::Hilfe;
                Aktion::Nichts
            },
            Taste::Enter if ist_start => Aktion::Analysieren,
            Taste::Zeichen('s') => Aktion::Analysieren,
            Taste::Zeichen('c') => Aktion::Bereinigen,
            Taste::Zeichen('d') => {
                self.trockenlauf = !self.trockenlauf;
                Aktion::Nichts
            },
            Taste::Zeichen('L') => {
                self.sprache_umschalten();
                Aktion::Nichts
            },
            Taste::Zeichen('a') => {
                self.alle_waehlen();
                Aktion::Nichts
            },
            Taste::Zeichen('n') => {
                self.nichts_waehlen();
                Aktion::Nichts
            },
            Taste::Zeichen('r') => {
                self.empfohlen_waehlen();
                Aktion::Nichts
            },
            Taste::Runter | Taste::Zeichen('j') => {
                self.nach_unten();
                Aktion::Nichts
            },
            Taste::Hoch | Taste::Zeichen('k') => {
                self.nach_oben();
                Aktion::Nichts
            },
            Taste::Rechts | Taste::Zeichen('l') | Taste::Tab => {
                self.spalte = Spalte::Ziele;
                Aktion::Nichts
            },
            Taste::Links | Taste::Zeichen('h') => {
                self.spalte = Spalte::Kategorien;
                Aktion::Nichts
            },
            Taste::Zeichen(' ') => {
                match self.spalte {
                    Spalte::Ziele => {
                        let keys = self.zielschluessel();
                        let n = keys.len();
                        if n > 0 {
                            let i = if self.ziel_index < n - 1 { self.ziel_index } else { n - 1 };
                            schalte_um(&mut self.auswahl, keys[i].as_str());
                        }
                    },
                    Spalte::Kategorien => {
                        // In der Kategoriespalte schaltet die Leertaste die
                        // ganze Kategorie um – alles oder nichts.
                        let keys = self.zielschluessel();
                        kategorie_umschalten(&mut self.auswahl, &keys);
                    },
                }
                Aktion::Nichts
            },
            _ => Aktion::Nichts,
        }
    }

    fn nach_unten(&mut self)
        requires
            wohlgeformt(*old(self)),
        ensures
            final(self).spalte == old(self).spalte,
            old(self).spalte == Spalte::Kategorien ==> {
                if old(self).kategorie_index + 1 < old(self).kategorien@.len() {
                    final(self).kategorie_index == old(self).kategorie_index + 1 && final(self).ziel_index == 0
                } else {
                    final(self).kategorie_index == old(self).kategorie_index && final(self).ziel_index == old(self).ziel_index
                }
            },
            old(self).spalte == Spalte::Ziele ==> final(self).kategorie_index == old(self).kategorie_index
                && final(self).ziel_index == (if old(self).ziel_index + 1 < ziele_von(*old(self)).len() {
                    old(self).ziel_index + 1
                } else {
                    old(self).ziel_index as int
                }),
            final(self).lang == old(self).lang,
            final(self).ansicht == old(self).ansicht,
            final(self).kategorien == old(self).kategorien,
            final(self).auswahl == old(self).auswahl,
            final(self).scan == old(self).scan,
            final(self).clean == old(self).clean,
            final(self).trockenlauf == old(self).trockenlauf,
            final(self).hinweis == old(self).hinweis,
    {
        match self.spalte {
            Spalte::Kategorien => {
                if self.kategorie_index < self.kategorien.len() - 1 {
                    self.kategorie_index = self.kategorie_index + 1;
                    self.ziel_index = 0;
                }
            },
            Spalte::Ziele => {
                let anzahl = self.ziele().len();
                if anzahl > 0 && self.ziel_index < anzahl - 1 {
                    self.ziel_index = self.ziel_index + 1;
                }
            },
        }
    }

    fn nach_oben(&mut self)
        ensures
            final(self).spalte == old(self).spalte,
            old(self).spalte == Spalte::Kategorien ==> {
                if old(self).kategorie_index > 0 {
                    final(self).kategorie_index == old(self).kategorie_index - 1 && final(self).ziel_index == 0
                } else {
                    final(self).kategorie_index == old(self).kategorie_index && final(self).ziel_index == old(self).ziel_index
                }
            },
            old(self).spalte == Spalte::Ziele ==> final(self).kategorie_index == old(self).kategorie_index
                && final(self).ziel_index == (if old(self).ziel_index > 0 {
                    old(self).ziel_index - 1
                } else {
                    0
                }),
            final(self).lang == old(self).lang,
            final(self).ansicht == old(self).ansicht,
            final(self).kategorien == old(self).kategorien,
            final(self).auswahl == old(self).auswahl,
            final(self).scan == old(self).scan,
            final(self).clean == old(self).clean,
            final(self).trockenlauf == old(self).trockenlauf,
            final(self).hinweis == old(self).hinweis,
    {
        match self.spalte {
            Spalte::Kategorien => {
                if self.kategorie_index > 0 {
                    self.kategorie_index = self.kategorie_index - 1;
                    self.ziel_index = 0;
                }
            },
            Spalte::Ziele => {
                if self.ziel_index > 0 {
                    self.ziel_index = self.ziel_index - 1;
                }
            },
        }
    }
}

// ---------------------------------------------------------------------------
// Vorgänge
// ---------------------------------------------------------------------------

/// Was aus einer Aktion der Tastatur wird, wenn `laeuft` sagt, ob schon ein
/// Vorgang läuft: Analyse und Bereinigung starten nur, wenn keiner läuft,
/// die Bereinigung nur mit Auswahl.
pub open spec fn auftrag(aktion: Aktion, laeuft: bool, hat_auswahl: bool) -> Aktion {
    match aktion {
        Aktion::Analysieren => if laeuft { Aktion::Nichts } else { Aktion::Analysieren },
        Aktion::Bereinigen => if laeuft || !hat_auswahl { Aktion::Nichts } else { Aktion::Bereinigen },
        _ => aktion,
    }
}

/// Die Fußzeilenmeldung nach einer Aktion: ein Abbruch wird vermerkt,
/// ebenso eine Bereinigung ohne Auswahl.
pub open spec fn hinweis_nach(o: Oberflaeche, aktion: Aktion, laeuft: bool) -> Seq<char> {
    match aktion {
        Aktion::Abbrechen => i18n::text(o.lang@, "cli.aborted"@),
        Aktion::Bereinigen => if !laeuft && o.auswahl@.len() == 0 {
            i18n::text(o.lang@, "cli.no_selection"@)
        } else {
            o.hinweis@
        },
        _ => o.hinweis@,
    }
}

impl Oberflaeche {
    /// Eine Aktion der Tastatur umsetzen, soweit sie die Oberfläche betrifft,
    /// und sagen, was die Anwendung anstoßen soll: eine Analyse oder
    /// Bereinigung zeigt sofort die Laufansicht.
    pub fn aktion_umsetzen(&mut self, aktion: Aktion, laeuft: bool) -> (r: Aktion)
        ensures
            r == auftrag(aktion, laeuft, old(self).auswahl@.len() > 0),
            *final(self) == (Oberflaeche { ansicht: final(self).ansicht, hinweis: final(self).hinweis, ..*old(self) }),
            r == Aktion::Analysieren ==> (final(self).ansicht matches Ansicht::Laeuft { phase } && phase@ == "scan"@),
            r == Aktion::Bereinigen ==> (final(self).ansicht matches Ansicht::Laeuft { phase } && phase@ == "clean"@),
            r != Aktion::Analysieren && r != Aktion::Bereinigen ==> final(self).ansicht == old(self).ansicht,
            final(self).hinweis@ == hinweis_nach(*old(self), aktion, laeuft),
    {
        proof {
            reveal_strlit("scan");
            reveal_strlit("clean");
        }
        match aktion {
            Aktion::Abbrechen => {
                self.hinweis = i18n::t(self.lang.as_str(), "cli.aborted");
                Aktion::Abbrechen
            },
            Aktion::Analysieren => {
                if laeuft {
                    Aktion::Nichts
                } else {
                    self.ansicht = Ansicht::Laeuft { phase: "scan" };
                    Aktion::Analysieren
                }
            },
            Aktion::Bereinigen => {
                if laeuft {
                    Aktion::Nichts
                } else if self.auswahl.len() == 0 {
                    self.hinweis = i18n::t(self.lang.as_str(), "cli.no_selection");
                    Aktion::Nichts
                } else {
                    self.ansicht = Ansicht::Laeuft { phase: "clean" };
                    Aktion::Bereinigen
                }
            },
            Aktion::Nichts => Aktion::Nichts,
            Aktion::Beenden => Aktion::Beenden,
        }
    }

    /// Die Analyse ist fertig: ihr Ergebnis wird gezeigt, zur Auswahl.
    pub fn scan_fertig(&mut self, bericht: ScanReport)
        ensures
            *final(self) == (Oberflaeche { scan: Some(bericht), ansicht: Ansicht::Auswahl, ..*old(self) }),
    {
        self.scan = Some(bericht);
        self.ansicht = Ansicht::Auswahl;
    }

    /// Die Bereinigung ist fertig: ihr Ergebnis wird gezeigt. Gibt zurück, ob
    /// sie gescheitert ist – ein Abbruch zählt nicht als Scheitern.
    pub fn clean_fertig(&mut self, bericht: CleanReport) -> (r: bool)
        ensures
            r == (!bericht.success && !bericht.cancelled),
            *final(self) == (Oberflaeche { clean: Some(bericht), ansicht: Ansicht::Ergebnis, ..*old(self) }),
    {
        let gescheitert = !bericht.success && !bericht.cancelled;
        self.clean = Some(bericht);
        self.ansicht = Ansicht::Ergebnis;
        gescheitert
    }
}

// ---------------------------------------------------------------------------
// Gesetze der Bedienung
// ---------------------------------------------------------------------------

/// Während eines Laufs ist nur der Abbruch möglich: keine Taste ändert den
/// Zustand, und jede stößt höchstens einen Abbruch an.
pub proof fn lauf_laesst_nur_abbruch_zu(o: Oberflaeche, t: Taste, strg: bool)
    requires
        o.ansicht is Laeuft,
    ensures
        aktion_nach(o, t, strg) == Aktion::Abbrechen || aktion_nach(o, t, strg) == Aktion::Nichts,
        ansicht_nach(o, t, strg) == o.ansicht,
        spalte_nach(o, t, strg) == o.spalte,
        kategorie_index_nach(o, t, strg) == o.kategorie_index,
        ziel_index_nach(o, t, strg) == o.ziel_index,
        trockenlauf_nach(o, t, strg) == o.trockenlauf,
        sprache_nach(o, t, strg) == o.lang@,
        auswahl_nach(o, t, strg) == auswahl_von(o),
{
}

/// Strg+C beendet außerhalb eines Laufs die Oberfläche und bricht einen Lauf
/// ab; am Zustand ändert es nichts.
pub proof fn strg_c_beendet_oder_bricht_ab(o: Oberflaeche)
    ensures
        aktion_nach(o, Taste::Zeichen('c'), true) == (if o.ansicht is Laeuft {
            Aktion::Abbrechen
        } else {
            Aktion::Beenden
        }),
        ansicht_nach(o, Taste::Zeichen('c'), true) == o.ansicht,
        auswahl_nach(o, Taste::Zeichen('c'), true) == auswahl_von(o),
{
}

/// Die Markierungen bleiben in ihren Grenzen: liegt der Kategorieindex
/// innerhalb der Kategorien, tut er es nach jeder Taste auch; der Zielindex
/// wächst nur innerhalb der Ziele der Kategorie.
pub proof fn navigation_bleibt_in_den_grenzen(o: Oberflaeche, t: Taste, strg: bool)
    requires
        o.kategorie_index < o.kategorien@.len(),
    ensures
        0 <= kategorie_index_nach(o, t, strg) < o.kategorien@.len(),
        ziel_index_nach(o, t, strg) > o.ziel_index ==> ziel_index_nach(o, t, strg) < ziele_von(o).len(),
        0 <= ziel_index_nach(o, t, strg),
{
}

/// Die Leertaste auf einem Ziel kehrt dessen Auswahl um, solange es
/// höchstens einmal in der Auswahl steht.
pub proof fn umschalten_kehrt_die_auswahl_um(a: Seq<Seq<char>>, k: Seq<char>)
    requires
        forall|i: int, j: int| 0 <= i < a.len() && 0 <= j < a.len() && a[i] == k && a[j] == k ==> i == j,
    ensures
        umgeschaltet(a, k).contains(k) == !a.contains(k),
{
    lemma_erste_stelle(a, k, 0);
    match erste_stelle(a, k, 0) {
        Some(i) => {
            assert(a.contains(k));
            let b = a.remove(i);
            assert forall|m: int| 0 <= m < b.len() implies b[m] != k by {
                if m < i {
                    assert(b[m] == a[m]);
                } else {
                    assert(b[m] == a[m + 1]);
                }
            }
        },
        None => {
            assert(a.push(k)[a.len() as int] == k);
        },
    }
}

/// Nach dem Umschalten einer Kategorie, deren Ziele nicht alle gewählt
/// waren, sind alle gewählt.
pub proof fn kategorie_umschalten_waehlt_alle(a: Seq<Seq<char>>, keys: Seq<Seq<char>>)
    ensures
        alle_drin(mit_allen(a, keys), keys),
    decreases keys.len(),
{
    if keys.len() > 0 {
        let davor = keys.drop_last();
        kategorie_umschalten_waehlt_alle(a, davor);
        let b = mit_allen(a, davor);
        let k = keys.last();
        lemma_erste_stelle(b, k, 0);
        let c = mit_schluessel(b, k);
        assert forall|i: int| 0 <= i < keys.len() implies c.contains(#[trigger] keys[i]) by {
            if i < keys.len() - 1 {
                assert(davor[i] == keys[i]);
                assert(b.contains(davor[i]));
                let j = choose|j: int| 0 <= j < b.len() && b[j] == davor[i];
                match erste_stelle(b, k, 0) {
                    Some(_) => {},
                    None => {
                        assert(c[j] == b[j]);
                    },
                }
            } else {
                match erste_stelle(b, k, 0) {
                    Some(p) => {
                        assert(c[p] == k);
                    },
                    None => {
                        assert(c[b.len() as int] == k);
                    },
                }
            }
        }
    }
}

/// Eine Auswahl ohne doppelte Schlüssel.
pub open spec fn ohne_dubletten(a: Seq<Seq<char>>) -> bool {
    forall|i: int, j: int| 0 <= i < j < a.len() ==> a[i] != a[j]
}

proof fn lemma_ohne_schluessel(a: Seq<Seq<char>>, k: Seq<char>)
    requires
        ohne_dubletten(a),
    ensures
        ohne_dubletten(ohne_schluessel(a, k)),
        !ohne_schluessel(a, k).contains(k),
        forall|x: Seq<char>| !a.contains(x) ==> !ohne_schluessel(a, k).contains(x),
{
    lemma_erste_stelle(a, k, 0);
    match erste_stelle(a, k, 0) {
        Some(p) => {
            let b = a.remove(p);
            assert forall|m: int| 0 <= m < b.len() implies b[m] == (if m < p { a[m] } else { a[m + 1] }) by {}
            assert forall|i: int, j: int| 0 <= i < j < b.len() implies b[i] != b[j] by {
                let ii = if i < p { i } else { i + 1 };
                let jj = if j < p { j } else { j + 1 };
                assert(b[i] == a[ii] && b[j] == a[jj] && ii < jj);
            }
            assert forall|m: int| 0 <= m < b.len() implies b[m] != k by {
                if m >= p {
                    assert(b[m] == a[m + 1]);
                    assert(a[p] == k);
                }
            }
            assert forall|x: Seq<char>| !a.contains(x) implies !b.contains(x) by {
                if b.contains(x) {
                    let m = choose|m: int| 0 <= m < b.len() && b[m] == x;
                    if m < p {
                        assert(a[m] == x);
                    } else {
                        assert(a[m + 1] == x);
                    }
                }
            }
        },
        None => {},
    }
}

/// Nach dem Umschalten einer Kategorie, deren Ziele alle gewählt waren, ist
/// keines mehr gewählt – in einer Auswahl ohne doppelte Schlüssel.
pub proof fn kategorie_umschalten_waehlt_keines(a: Seq<Seq<char>>, keys: Seq<Seq<char>>)
    requires
        ohne_dubletten(a),
    ensures
        ohne_dubletten(ohne_alle(a, keys)),
        forall|i: int| 0 <= i < keys.len() ==> !ohne_alle(a, keys).contains(#[trigger] keys[i]),
    decreases keys.len(),
{
    if keys.len() > 0 {
        let davor = keys.drop_last();
        kategorie_umschalten_waehlt_keines(a, davor);
        let b = ohne_alle(a, davor);
        lemma_ohne_schluessel(b, keys.last());
        assert forall|i: int| 0 <= i < keys.len() implies !ohne_alle(a, keys).contains(#[trigger] keys[i]) by {
            if i < keys.len() - 1 {
                assert(davor[i] == keys[i]);
                assert(!b.contains(davor[i]));
            }
        }
    }
}

} // verus!
