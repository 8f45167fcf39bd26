//! Argumentauswertung und Exitcodes.
//!
//! Die Struktur der Kommandozeile steht in [`Cli`] und [`Befehl`]; die
//! *Bedeutung* der Werte steht in freien Funktionen. So lassen sich
//! Sprachwahl, Zielprüfung und Exitcode-Ableitung ohne Prozessstart prüfen.

use vstd::prelude::*;
use crate::cli::text;
use crate::engine::catalog;
use crate::engine::catalog::{default_selection, target_by_key, ANZAHL, ZIELE};
use crate::engine::types;
use crate::engine::types::{Category, CleanReport, ScanReport};
use crate::i18n;
use crate::i18n::normalize;
use crate::zeichen;
use crate::zeichen::{getrimmt_von, gleiche_folge, klein_von, text_anhaengen, text_aus, zeichen_von};

verus! {

/// Exitcode des Programms: `0` nichts übrig, `1` mindestens ein Ziel ist
/// gescheitert, `2` falsch bedient, `130` Abbruch durch den Nutzer (SIGINT).
#[derive(Debug, Clone, Copy, PartialEq, Eq, Structural)]
pub enum Exitcode {
    Erfolg,
    Fehlgeschlagen,
    Bedienfehler,
    Abgebrochen,
}

/// Der Zahlenwert eines Exitcodes.
pub open spec fn exitwert(e: Exitcode) -> i32 {
    match e {
        Exitcode::Erfolg => 0,
        Exitcode::Fehlgeschlagen => 1,
        Exitcode::Bedienfehler => 2,
        Exitcode::Abgebrochen => 130,
    }
}

impl Exitcode {
    pub fn wert(self) -> (r: i32)
        ensures
            r == exitwert(self),
    {
        match self {
            Exitcode::Erfolg => 0,
            Exitcode::Fehlgeschlagen => 1,
            Exitcode::Bedienfehler => 2,
            Exitcode::Abgebrochen => 130,
        }
    }
}

/// Bedienfehler mit fertiger Meldung für `stderr`.
#[derive(Debug, Clone, PartialEq, Eq)]
pub struct Bedienfehler(pub String);

/// Kommandozeile von `plane-cli`.
#[derive(Debug, Clone)]
pub struct Cli {
    /// Sprache der Ausgabe: `de` oder `en`.
    pub lang: Option<String>,
    /// Keine Farben und keine Fortschrittsanimation verwenden.
    pub no_color: bool,
    pub command: Option<Befehl>,
}

/// Unterbefehle.
#[derive(Debug, Clone)]
pub enum Befehl {
    /// Alle Reinigungsziele auflisten.
    List { category: Option<String>, json: bool },
    /// Analysieren, ohne etwas zu verändern.
    Scan { targets: Vec<String>, json: bool, all: bool },
    /// Bereinigen. Ohne Zielangabe wird die empfohlene Auswahl verwendet.
    Clean { targets: Vec<String>, dry_run: bool, yes: bool, json: bool },
    /// Systeminformationen, Rechtestatus und Laufwerksbelegung.
    Info { json: bool },
    /// Installierte Programme auflisten.
    Programs { filter: Option<String>, all: bool, json: bool },
    /// Ein Programm deinstallieren.
    Uninstall { id: String, yes: bool, quiet: bool, json: bool },
    /// Windows-Einstellungen anzeigen und ändern.
    Tweaks { on: Option<String>, off: Option<String>, revert: Option<String>, json: bool },
    /// Nach einer neueren Version sehen – der einzige Netzwerkzugriff.
    Update { json: bool },
    /// Die textbasierte Oberfläche starten.
    Tui,
}

// ---------------------------------------------------------------------------
// Sprache
// ---------------------------------------------------------------------------

/// Sprache: `--lang` schlägt die Umgebung, die schlägt die Rückfallsprache;
/// leere Umgebungswerte zählen nicht.
pub open spec fn sprache(explizit: Option<Seq<char>>, umgebung: Option<Seq<char>>) -> Seq<char> {
    match explizit {
        Some(w) => i18n::normalisiert(w),
        None => match umgebung {
            Some(u) => if zeichen::getrimmt(u).len() > 0 { i18n::normalisiert(u) } else { i18n::FALLBACK@ },
            None => i18n::FALLBACK@,
        },
    }
}

/// Die Sicht eines optionalen Textes.
pub open spec fn optional(o: Option<&str>) -> Option<Seq<char>> {
    match o {
        Some(s) => Some(s@),
        None => None,
    }
}

/// Sprache bestimmen; alles läuft durch [`i18n::normalize`], damit `de_AT`
/// und `de-DE` dasselbe ergeben und Unbekanntes auf Englisch landet.
pub fn sprache_bestimmen(explizit: Option<&str>, umgebung: Option<&str>) -> (r: String)
    ensures
        r@ == sprache(optional(explizit), optional(umgebung)),
{
    if let Some(wunsch) = explizit {
        return normalize(wunsch);
    }
    match umgebung {
        Some(wert) => {
            if getrimmt_von(&zeichen_von(wert)).len() > 0 {
                normalize(wert)
            } else {
                i18n::FALLBACK.to_owned()
            }
        },
        None => i18n::FALLBACK.to_owned(),
    }
}

// ---------------------------------------------------------------------------
// Kategorien und Ziele
// ---------------------------------------------------------------------------

/// Die Liste der bekannten Kategorieschlüssel für Fehlermeldungen.
pub open spec fn bekannte_kategorien() -> Seq<char> {
    "system, browsers, apps, installers, recyclebin, registry"@
}

/// Die Kategorie zu einem Namen: Schlüssel, ohne Rücksicht auf Leerraum
/// außen und Groß-/Kleinschreibung.
pub open spec fn kategorie_zu(name: Seq<char>) -> Option<Category> {
    let g = zeichen::klein_folge(zeichen::getrimmt(name));
    if g == types::kategorie_schluessel(Category::System) {
        Some(Category::System)
    } else if g == types::kategorie_schluessel(Category::Browsers) {
        Some(Category::Browsers)
    } else if g == types::kategorie_schluessel(Category::Apps) {
        Some(Category::Apps)
    } else if g == types::kategorie_schluessel(Category::Installers) {
        Some(Category::Installers)
    } else if g == types::kategorie_schluessel(Category::RecycleBin) {
        Some(Category::RecycleBin)
    } else if g == types::kategorie_schluessel(Category::Registry) {
        Some(Category::Registry)
    } else {
        None
    }
}

/// Kategoriename in eine [`Category`] übersetzen. Lokalisierte Namen bewusst
/// nicht: Skripte müssen unabhängig von der Systemsprache funktionieren.
pub fn kategorie_aus_name(name: &str) -> (r: Result<Category, Bedienfehler>)
    ensures
        match kategorie_zu(name@) {
            Some(c) => r == Ok::<Category, Bedienfehler>(c),
            None => r is Err && r->Err_0.0@ == "Unbekannte Kategorie: "@ + name@ + ". Bekannt: "@ + bekannte_kategorien(),
        },
{
    let gesucht = klein_von(&getrimmt_von(&zeichen_von(name)));
    let mut k: usize = 0;
    while k < 6
        invariant
            k <= 6,
            gesucht@ == zeichen::klein_folge(zeichen::getrimmt(name@)),
            forall|j: int| 0 <= j < k ==> gesucht@ != #[trigger] types::kategorie_schluessel(Category::ALL[j]),
        decreases 6 - k,
    {
        let c = Category::ALL[k];
        if gleiche_folge(&zeichen_von(c.key()), &gesucht) {
            assert(k == 0 ==> c == Category::System);
            assert(k == 1 ==> c == Category::Browsers);
            assert(k == 2 ==> c == Category::Apps);
            assert(k == 3 ==> c == Category::Installers);
            assert(k == 4 ==> c == Category::RecycleBin);
            return Ok(c);
        }
        k = k + 1;
    }
    assert(types::kategorie_schluessel(Category::ALL[0]) == types::kategorie_schluessel(Category::System));
    assert(types::kategorie_schluessel(Category::ALL[5]) == types::kategorie_schluessel(Category::Registry));
    let mut meldung = zeichen::verkettet("Unbekannte Kategorie: ", name, ". Bekannt: ");
    text_anhaengen(&mut meldung, "system, browsers, apps, installers, recyclebin, registry");
    Err(Bedienfehler(meldung))
}

/// Ein Zielschlüssel, wie er geprüft und weitergegeben wird.
pub open spec fn normalisiert(key: Seq<char>) -> Seq<char> {
    zeichen::klein_folge(zeichen::getrimmt(key))
}

/// Der normalisierte Schlüssel gehört zu einem Katalogziel.
pub open spec fn bekannt(n: Seq<char>) -> bool {
    catalog::zeile_ab(catalog::schluesselform(n), 0) is Some
}

/// Die Meldung zu einem unbekannten Ziel.
pub open spec fn unbekannt_meldung(key: Seq<char>) -> Seq<char> {
    "Unbekanntes Ziel: "@ + key + ". `plane-cli list` zeigt alle Schlüssel."@
}

/// Die geprüften Schlüssel ohne Doppelte, in erster Reihenfolge – oder die
/// Meldung zum ersten unbekannten Schlüssel.
pub open spec fn pruefung(keys: Seq<Seq<char>>) -> Result<Seq<Seq<char>>, Seq<char>>
    decreases keys.len(),
{
    if keys.len() == 0 {
        Ok(seq![])
    } else {
        match pruefung(keys.drop_last()) {
            Err(e) => Err(e),
            Ok(v) => {
                let n = normalisiert(keys.last());
                if !bekannt(n) {
                    Err(unbekannt_meldung(keys.last()))
                } else if v.contains(n) {
                    Ok(v)
                } else {
                    Ok(v.push(n))
                }
            },
        }
    }
}

/// Ergebnis einer Zielprüfung als Sicht.
pub open spec fn pruefsicht(r: Result<Vec<String>, Bedienfehler>) -> Result<Seq<Seq<char>>, Seq<char>> {
    match r {
        Ok(v) => Ok(text::texte(v@)),
        Err(e) => Err(e.0@),
    }
}

fn enthaelt_text(v: &Vec<String>, n: &[char]) -> (r: bool)
    ensures
        r == text::texte(v@).contains(n@),
{
    let mut i: usize = 0;
    while i < v.len()
        invariant
            i <= v@.len(),
            forall|k: int| 0 <= k < i ==> (#[trigger] v@[k])@ != n@,
        decreases v@.len() - i,
    {
        if gleiche_folge(&zeichen_von(v[i].as_str()), n) {
            assert(text::texte(v@)[i as int] == n@);
            return true;
        }
        i = i + 1;
    }
    assert forall|k: int| 0 <= k < text::texte(v@).len() implies text::texte(v@)[k] != n@ by {
        assert(text::texte(v@)[k] == v@[k]@);
    }
    false
}

/// Zielschlüssel prüfen und normalisieren. Schon ein einziger unbekannter
/// Schlüssel bricht ab: ein Tippfehler darf nicht stillschweigend weniger
/// bereinigen lassen als gewollt.
pub fn ziele_pruefen(keys: &[String]) -> (r: Result<Vec<String>, Bedienfehler>)
    ensures
        pruefsicht(r) == pruefung(text::texte(keys@)),
{
    let mut geprueft: Vec<String> = Vec::new();
    let mut i: usize = 0;
    assert(text::texte(keys@.subrange(0, 0)) =~= Seq::<Seq<char>>::empty());
    assert(text::texte(geprueft@) =~= Seq::<Seq<char>>::empty());
    while i < keys.len()
        invariant
            i <= keys@.len(),
            pruefung(text::texte(keys@.subrange(0, i as int))) == Ok::<Seq<Seq<char>>, Seq<char>>(text::texte(geprueft@)),
        decreases keys@.len() - i,
    {
        proof {
            assert(text::texte(keys@.subrange(0, i + 1)).drop_last() =~= text::texte(keys@.subrange(0, i as int)));
            assert(text::texte(keys@.subrange(0, i + 1)).last() == keys@[i as int]@);
        }
        let normal = klein_von(&getrimmt_von(&zeichen_von(keys[i].as_str())));
        let normal_text = text_aus(&normal);
        if target_by_key(normal_text.as_str()).is_none() {
            let meldung = zeichen::verkettet("Unbekanntes Ziel: ", keys[i].as_str(), ". `plane-cli list` zeigt alle Schlüssel.");
            let r = Err(Bedienfehler(meldung));
            proof {
                lemma_pruefung_bleibt_fehler(text::texte(keys@), i as int + 1);
                assert(text::texte(keys@).subrange(0, i + 1) =~= text::texte(keys@.subrange(0, i + 1)));
            }
            return r;
        }
        if !enthaelt_text(&geprueft, &normal) {
            let ghost vorher = geprueft@;
            geprueft.push(normal_text);
            assert(text::texte(geprueft@) =~= text::texte(vorher).push(normal@));
        }
        i = i + 1;
    }
    assert(keys@.subrange(0, i as int) =~= keys@);
    Ok(geprueft)
}

/// Ist die Prüfung eines Anfangs gescheitert, scheitert das Ganze mit
/// derselben Meldung.
proof fn lemma_pruefung_bleibt_fehler(keys: Seq<Seq<char>>, k: int)
    requires
        0 <= k <= keys.len(),
        pruefung(keys.subrange(0, k)) is Err,
    ensures
        pruefung(keys) == pruefung(keys.subrange(0, k)),
    decreases keys.len() - k,
{
    if k < keys.len() {
        assert(keys.subrange(0, k + 1).drop_last() =~= keys.subrange(0, k));
        lemma_pruefung_bleibt_fehler(keys, k + 1);
    } else {
        assert(keys.subrange(0, k) =~= keys);
    }
}

/// Alle Katalogschlüssel in Katalogreihenfolge.
pub open spec fn alle_schluessel() -> Seq<Seq<char>> {
    Seq::new(ANZAHL as nat, |i: int| ZIELE[i].0@)
}

/// Die Schlüssel der Standardauswahl.
pub open spec fn empfohlene_schluessel() -> Seq<Seq<char>> {
    let z = catalog::vorausgewaehlte_zeilen(ANZAHL as nat);
    Seq::new(z.len(), |k: int| ZIELE[z[k]].0@)
}

/// Eine Auswahl: bei leerer Prüfung die Vorgabe, sonst das Geprüfte.
pub open spec fn auswahl(p: Result<Seq<Seq<char>>, Seq<char>>, vorgabe: Seq<Seq<char>>) -> Result<Seq<Seq<char>>, Seq<char>> {
    match p {
        Ok(v) => if v.len() == 0 { Ok(vorgabe) } else { Ok(v) },
        Err(e) => Err(e),
    }
}

/// Zielauswahl für die Analyse: leer bedeutet „alles“.
pub fn scanauswahl(keys: &[String]) -> (r: Result<Vec<String>, Bedienfehler>)
    ensures
        pruefsicht(r) == auswahl(pruefung(text::texte(keys@)), alle_schluessel()),
{
    let geprueft = ziele_pruefen(keys)?;
    if geprueft.len() == 0 {
        let mut alle: Vec<String> = Vec::new();
        let mut i: usize = 0;
        while i < ANZAHL
            invariant
                i <= ANZAHL,
                alle@.len() == i,
                forall|k: int| 0 <= k < i ==> (#[trigger] alle@[k])@ == ZIELE[k].0@,
            decreases ANZAHL - i,
        {
            alle.push(ZIELE[i].0.to_owned());
            i = i + 1;
        }
        assert(text::texte(alle@) =~= alle_schluessel());
        Ok(alle)
    } else {
        Ok(geprueft)
    }
}

/// Zielauswahl für die Bereinigung: leer bedeutet „empfohlene Auswahl“ –
/// bewusst nicht „alles“, damit ein `clean` ohne Argumente nie riskante Ziele
/// mitnimmt.
pub fn cleanauswahl(keys: &[String]) -> (r: Result<Vec<String>, Bedienfehler>)
    ensures
        pruefsicht(r) == auswahl(pruefung(text::texte(keys@)), empfohlene_schluessel()),
{
    let geprueft = ziele_pruefen(keys)?;
    if geprueft.len() == 0 {
        let vorgabe = default_selection();
        let mut auswahl: Vec<String> = Vec::new();
        let mut i: usize = 0;
        while i < vorgabe.len()
            invariant
                i <= vorgabe@.len(),
                vorgabe@.len() == catalog::vorausgewaehlte_zeilen(ANZAHL as nat).len(),
                forall|k: int| 0 <= k < vorgabe@.len() ==> #[trigger] vorgabe@[k] == ZIELE[catalog::vorausgewaehlte_zeilen(ANZAHL as nat)[k]].0,
                auswahl@.len() == i,
                forall|k: int| 0 <= k < i ==> (#[trigger] auswahl@[k])@ == vorgabe@[k]@,
            decreases vorgabe@.len() - i,
        {
            auswahl.push(vorgabe[i].to_owned());
            i = i + 1;
        }
        assert(text::texte(auswahl@) =~= empfohlene_schluessel());
        Ok(auswahl)
    } else {
        Ok(geprueft)
    }
}

/// Ohne Zielangabe nimmt die Bereinigung nur vorausgewählte, nie riskante Ziele.
pub proof fn clean_ohne_ziele_ist_unbedenklich(k: int)
    requires
        0 <= k < empfohlene_schluessel().len(),
    ensures
        exists|i: int| 0 <= i < ANZAHL && #[trigger] ZIELE[i].0@ == empfohlene_schluessel()[k]
            && ZIELE[i].5 && ZIELE[i].3 != types::Risk::Caution,
{
    catalog::standardauswahl_ist_unbedenklich(k);
    let i = catalog::vorausgewaehlte_zeilen(ANZAHL as nat)[k];
    lemma_vorausgewaehlt_im_katalog(k);
    assert(ZIELE[i].0@ == empfohlene_schluessel()[k]);
}

/// Ohne Zielangabe nimmt die Bereinigung nicht alle Ziele des Katalogs.
pub proof fn clean_ohne_ziele_nimmt_nicht_alles()
    ensures
        empfohlene_schluessel().len() < ANZAHL,
{
    catalog::standardauswahl_ist_nicht_alles();
}

proof fn lemma_empfohlene_nicht_riskant(n: int)
    requires
        0 <= n <= empfohlene_schluessel().len(),
    ensures
        crate::cli::table::riskante_bis(empfohlene_schluessel().take(n)) == Seq::<&'static str>::empty(),
    decreases n,
{
    if n > 0 {
        let e = empfohlene_schluessel();
        lemma_empfohlene_nicht_riskant(n - 1);
        assert(e.take(n).drop_last() =~= e.take(n - 1));
        lemma_vorausgewaehlt_im_katalog(n - 1);
        catalog::standardauswahl_ist_unbedenklich(n - 1);
        let j = catalog::vorausgewaehlte_zeilen(ANZAHL as nat)[n - 1];
        assert(e.take(n).last() == ZIELE[j].0@);
        catalog::schluessel_findet_seine_zeile(j);
    }
}

/// Ohne Zielangabe ist keines der gewählten Ziele riskant: die Prüfung auf
/// riskante Ziele findet in der empfohlenen Auswahl keines.
pub proof fn clean_ohne_ziele_nimmt_nichts_riskantes()
    ensures
        crate::cli::table::riskante_bis(empfohlene_schluessel()) == Seq::<&'static str>::empty(),
{
    let e = empfohlene_schluessel();
    lemma_empfohlene_nicht_riskant(e.len() as int);
    assert(e.take(e.len() as int) =~= e);
}

proof fn lemma_vorausgewaehlt_im_katalog(k: int)
    requires
        0 <= k < catalog::vorausgewaehlte_zeilen(ANZAHL as nat).len(),
    ensures
        0 <= catalog::vorausgewaehlte_zeilen(ANZAHL as nat)[k] < ANZAHL,
{
    catalog::standardauswahl_liegt_im_katalog(ANZAHL as nat, k);
}

// ---------------------------------------------------------------------------
// Exitcodes
// ---------------------------------------------------------------------------

/// Exitcode eines Bereinigungsberichts: Abbruch schlägt Fehlschlag (der
/// Nutzer hat entschieden); sonst Fehlschlag, sobald ein Ziel scheiterte.
pub open spec fn clean_exitcode(b: CleanReport) -> Exitcode {
    if b.cancelled {
        Exitcode::Abgebrochen
    } else if !b.success || (exists|i: int| 0 <= i < b.targets@.len() && !(#[trigger] b.targets@[i]).ok) || b.error@.len() > 0 {
        Exitcode::Fehlgeschlagen
    } else {
        Exitcode::Erfolg
    }
}

/// Exitcode aus einem Bereinigungsbericht ableiten.
pub fn exitcode_fuer_clean(bericht: &CleanReport) -> (r: Exitcode)
    ensures
        r == clean_exitcode(*bericht),
{
    if bericht.cancelled {
        return Exitcode::Abgebrochen;
    }
    let mut gescheitert = false;
    let mut i: usize = 0;
    while i < bericht.targets.len()
        invariant
            i <= bericht.targets@.len(),
            gescheitert == exists|k: int| 0 <= k < i && !(#[trigger] bericht.targets@[k]).ok,
        decreases bericht.targets@.len() - i,
    {
        if !bericht.targets[i].ok {
            gescheitert = true;
        }
        i = i + 1;
    }
    if !bericht.success || gescheitert || bericht.error.as_str().unicode_len() > 0 {
        Exitcode::Fehlgeschlagen
    } else {
        Exitcode::Erfolg
    }
}

/// Exitcode aus einem Analysebericht: eine Analyse kann nur abgebrochen
/// werden; übersprungene Ziele sind kein Fehler.
pub fn exitcode_fuer_scan(bericht: &ScanReport) -> (r: Exitcode)
    ensures
        r == (if bericht.cancelled { Exitcode::Abgebrochen } else { Exitcode::Erfolg }),
{
    if bericht.cancelled {
        Exitcode::Abgebrochen
    } else {
        Exitcode::Erfolg
    }
}

} // verus!
