//! Registry-Analyse: welche Einträge als verwaist gelten.
//!
//! Microsoft empfiehlt Registry-Cleaner ausdrücklich **nicht**, und der
//! messbare Geschwindigkeitsgewinn ist praktisch null. Plane bietet die
//! Funktion trotzdem an – mit vier harten Regeln:
//!
//! 1. Das Ziel ist riskant und **nie** vorausgewählt.
//! 2. Vor jeder Löschung wird eine `.reg`-Sicherung geschrieben. Ohne
//!    erfolgreiche Sicherung wird nichts gelöscht.
//! 3. Als verwaist gilt nur, was zweifelsfrei verwaist ist: ein **absoluter
//!    Pfad mit Laufwerksbuchstaben und Dateiendung**, der nicht existiert.
//!    Alles Mehrdeutige (URLs, `rundll32`-Aufrufe, MSI-Platzhalter,
//!    UNC-Pfade) bleibt unangetastet.
//! 4. Bekannte Systemeinträge stehen auf einer Sperrliste.
//!
//! Die Pfadauswertung ist von der Registry getrennt und ohne Windows
//! prüfbar. Die Registry selbst gibt es nur unter Windows.

use vstd::prelude::*;
use crate::zeichen;
use crate::zeichen::{
    enthaelt_folge, finde_ab, finde_zeichen, getrimmt_von, klein_von, ohne_ende_von,
    steht_an_stelle, teilfolge, text_aus, text_von, verkettet, woerter_von, zeichen_von,
};
use crate::engine::fsutil;
use crate::engine::installers;
use crate::engine::runtime::CancelToken;
use crate::engine::types::{RegistryRule, ScanItem};

verus! {

/// Einträge, die nie angetastet werden – auch dann nicht, wenn das Ziel
/// fehlt. Sicherheitssoftware, COM-Starthelfer und Windows-eigene Dienste
/// dürfen nicht entfernt werden, selbst wenn ihr Pfad gerade nicht
/// auflösbar ist.
pub const SPERRLISTE: [&'static str; 10] = [
    "onedrive",
    "securityhealth",
    "windowsdefender",
    "windows defender",
    "msiexec",
    "rundll32",
    "explorer.exe",
    "systemroot",
    "dllhost",
    "svchost",
];

/// Schlüsselpfade, die niemals gelöscht werden – unabhängig vom Regelwerk.
///
/// Die WinRT-/MSIX-Registrierungen (`AppModel`, `PackagedCom`,
/// `ActivatableClasses`) sehen für eine naive Existenzprüfung immer
/// „verwaist" aus, weil ihre Ziele erst bei Bedarf bereitgestellt werden.
/// `Winlogon\Userinit` und `Shell` zu entfernen macht Windows unbenutzbar.
pub const GESPERRTE_SCHLUESSEL: [&'static str; 11] = [
    "\\system\\currentcontrolset\\services",
    "\\windows nt\\currentversion\\winlogon",
    "\\currentversion\\appmodel",
    "\\classes\\packagedcom",
    "\\classes\\activatableclasses",
    "\\classes\\installer",
    "\\currentversion\\installer",
    "\\classes\\clsid",
    "\\classes\\interface",
    "\\classes\\typelib",
    "firewallpolicy",
];

/// Endungen, bis zu denen ein Pfad ohne Anführungszeichen reicht.
pub const PFADENDUNGEN: [&'static str; 7] = [".exe", ".dll", ".msi", ".bat", ".cmd", ".cpl", ".scr"];

// ---------------------------------------------------------------------------
// Spezifikation
// ---------------------------------------------------------------------------

/// Der Schlüsselpfad liegt in einem gesperrten Bereich.
pub open spec fn gesperrter_schluessel(schluessel: Seq<char>) -> bool {
    exists|i: int| 0 <= i < 11 && zeichen::enthaelt(zeichen::klein_folge(schluessel), #[trigger] GESPERRTE_SCHLUESSEL[i]@)
}

/// Name oder Wert nennen einen Eintrag der Sperrliste.
pub open spec fn geschuetzt(name: Seq<char>, wert: Seq<char>) -> bool {
    let text = zeichen::klein_folge(name + " "@ + wert);
    exists|i: int| 0 <= i < 10 && zeichen::enthaelt(text, #[trigger] SPERRLISTE[i]@)
}

/// Das früheste Ende einer Pfadendung ab Zeile `i` der Endungen.
pub open spec fn kleinstes_ende(kl: Seq<char>, i: int) -> Option<int>
    decreases 7 - i,
{
    if i < 0 || i >= 7 {
        None
    } else {
        let rest = kleinstes_ende(kl, i + 1);
        match zeichen::stelle_ab(kl, PFADENDUNGEN[i]@, 0) {
            None => rest,
            Some(p) => {
                let e = p + PFADENDUNGEN[i]@.len();
                match rest {
                    None => Some(e),
                    Some(r) => Some(if e <= r { e } else { r }),
                }
            },
        }
    }
}

proof fn lemma_kleinstes_ende(kl: Seq<char>, i: int)
    requires
        0 <= i <= 7,
    ensures
        kleinstes_ende(kl, i) is None ==> forall|j: int, p: int|
            i <= j < 7 ==> !#[trigger] zeichen::steht_an(kl, PFADENDUNGEN[j]@, p),
        kleinstes_ende(kl, i) matches Some(e) ==> {
            &&& forall|j: int, p: int| i <= j < 7 && #[trigger] zeichen::steht_an(kl, PFADENDUNGEN[j]@, p)
                ==> e <= p + PFADENDUNGEN[j]@.len()
            &&& exists|j: int, p: int| i <= j < 7 && #[trigger] zeichen::steht_an(kl, PFADENDUNGEN[j]@, p)
                && e == p + PFADENDUNGEN[j]@.len()
        },
    decreases 7 - i,
{
    if i < 7 {
        lemma_kleinstes_ende(kl, i + 1);
        zeichen::lemma_stelle_ab(kl, PFADENDUNGEN[i]@, 0);
        match zeichen::stelle_ab(kl, PFADENDUNGEN[i]@, 0) {
            Some(k) => {
                assert(zeichen::steht_an(kl, PFADENDUNGEN[i]@, k));
                assert forall|j: int, p: int| i <= j < 7 && #[trigger] zeichen::steht_an(kl, PFADENDUNGEN[j]@, p)
                    implies kleinstes_ende(kl, i)->0 <= p + PFADENDUNGEN[j]@.len() by {
                    if j == i && p < k {
                        if p < 0 {
                            assert(!zeichen::steht_an(kl, PFADENDUNGEN[j]@, p));
                        }
                    }
                }
            },
            None => {
                assert forall|p: int| !#[trigger] zeichen::steht_an(kl, PFADENDUNGEN[i]@, p) by {
                    if p < 0 {
                        assert(!zeichen::steht_an(kl, PFADENDUNGEN[i]@, p));
                    }
                }
            },
        }
    }
}

/// Ein Schlüsselpfad, dessen kleingeschriebene Form einen Eintrag von
/// [`GESPERRTE_SCHLUESSEL`] enthält, ist gesperrt.
pub proof fn gesperrte_bereiche_sind_gesperrt(schluessel: Seq<char>, i: int)
    requires
        0 <= i < 11,
        zeichen::enthaelt(zeichen::klein_folge(schluessel), GESPERRTE_SCHLUESSEL[i]@),
    ensures
        gesperrter_schluessel(schluessel),
{
    assert(zeichen::enthaelt(zeichen::klein_folge(schluessel), GESPERRTE_SCHLUESSEL[i]@));
}

/// Ein Eintrag, dessen Name und Wert (durch ein Leerzeichen verbunden,
/// kleingeschrieben) einen Eintrag der [`SPERRLISTE`] enthalten, nennt nie
/// einen zu prüfenden Pfad – er wird nie als verwaist gemeldet.
pub proof fn sperrliste_schuetzt_immer(name: Seq<char>, wert: Seq<char>, i: int)
    requires
        0 <= i < 10,
        zeichen::enthaelt(zeichen::klein_folge(name + " "@ + wert), SPERRLISTE[i]@),
    ensures
        geschuetzt(name, wert),
        pruefpfad(name, wert) is None,
{
    assert(zeichen::enthaelt(zeichen::klein_folge(name + " "@ + wert), SPERRLISTE[i]@));
}

/// Nur eindeutig lokale Dateipfade werden geprüft: zu kurze Pfade,
/// UNC-Pfade, URLs und Pfade ohne Laufwerksbuchstaben mit Doppelpunkt nie.
pub proof fn nur_lokale_pfade_sind_pruefbar(pfad: Seq<char>)
    ensures
        pfad.len() < 4 ==> !pruefbar(pfad),
        pfad.len() >= 2 && pfad[0] == '\\' && pfad[1] == '\\' ==> !pruefbar(pfad),
        zeichen::enthaelt(zeichen::klein_folge(pfad), "://"@) ==> !pruefbar(pfad),
        pfad.len() >= 2 && pfad[1] != ':' ==> !pruefbar(pfad),
{
    if pfad.len() >= 2 && pfad[0] == '\\' && pfad[1] == '\\' && pfad.len() >= 4 {
        let k = zeichen::klein_folge(pfad);
        assert(k[0] == '\\' && k[1] == '\\');
        assert(k.subrange(0, 2) =~= "\\\\"@) by {
            reveal_strlit("\\\\");
        }
        assert(zeichen::beginnt_mit(k, "\\\\"@));
    }
}

/// Das Ende einer Pfadendung: ohne jedes Vorkommen einer Endung keines;
/// sonst endet kein Vorkommen einer Endung vor ihm, und es ist selbst das
/// Ende eines Vorkommens – das früheste, nicht das der in der Liste späteren
/// Endung.
pub proof fn fruehestes_ende_ist_das_kleinste(kl: Seq<char>)
    ensures
        kleinstes_ende(kl, 0) is None <==> forall|j: int, p: int|
            0 <= j < 7 ==> !#[trigger] zeichen::steht_an(kl, PFADENDUNGEN[j]@, p),
        kleinstes_ende(kl, 0) matches Some(e) ==> {
            &&& forall|j: int, p: int| 0 <= j < 7 && #[trigger] zeichen::steht_an(kl, PFADENDUNGEN[j]@, p)
                ==> e <= p + PFADENDUNGEN[j]@.len()
            &&& exists|j: int, p: int| 0 <= j < 7 && #[trigger] zeichen::steht_an(kl, PFADENDUNGEN[j]@, p)
                && e == p + PFADENDUNGEN[j]@.len()
        },
{
    lemma_kleinstes_ende(kl, 0);
}

/// Der Pfad vor dem Aufräumen: in Anführungszeichen bis zum schließenden,
/// sonst bis zur frühesten Endung, ohne Endung das erste Wort.
pub open spec fn roher_pfad(t: Seq<char>) -> Option<Seq<char>> {
    if t[0] == '"' {
        Some(zeichen::teile(t.subrange(1, t.len() as int), '"')[0])
    } else {
        match kleinstes_ende(zeichen::klein_folge(t), 0) {
            Some(i) => Some(t.subrange(0, i)),
            None => {
                let w = zeichen::woerter(t);
                if w.len() == 0 {
                    None
                } else {
                    Some(w[0])
                }
            },
        }
    }
}

/// Ohne Anführungszeichen reicht der Pfad einer Befehlszeile, in der eine
/// Endung vorkommt, vom Anfang bis zum Ende eines Endungsvorkommens, und
/// kein Vorkommen einer Endung endet vorher: `cmd.exe /c start.bat` endet
/// nach `cmd.exe`.
pub proof fn pfad_endet_an_der_ersten_endung(t: Seq<char>, j: int, p: int)
    requires
        t.len() > 0,
        t[0] != '"',
        0 <= j < 7,
        zeichen::steht_an(zeichen::klein_folge(t), PFADENDUNGEN[j]@, p),
    ensures
        roher_pfad(t) matches Some(q) && {
            &&& q == t.subrange(0, q.len() as int)
            &&& q.len() <= p + PFADENDUNGEN[j]@.len()
            &&& forall|j2: int, p2: int| 0 <= j2 < 7 && #[trigger] zeichen::steht_an(zeichen::klein_folge(t), PFADENDUNGEN[j2]@, p2)
                ==> q.len() <= p2 + PFADENDUNGEN[j2]@.len()
            &&& exists|j2: int, p2: int| 0 <= j2 < 7 && #[trigger] zeichen::steht_an(zeichen::klein_folge(t), PFADENDUNGEN[j2]@, p2)
                && q.len() == p2 + PFADENDUNGEN[j2]@.len()
        },
{
    let kl = zeichen::klein_folge(t);
    fruehestes_ende_ist_das_kleinste(kl);
    assert(zeichen::steht_an(kl, PFADENDUNGEN[j]@, p));
    let e = kleinstes_ende(kl, 0)->0;
    let (j2, p2) = choose|j2: int, p2: int| 0 <= j2 < 7 && #[trigger] zeichen::steht_an(kl, PFADENDUNGEN[j2]@, p2)
        && e == p2 + PFADENDUNGEN[j2]@.len();
    assert(e <= kl.len());
    assert(t.subrange(0, e).len() == e);
}

/// Der Dateipfad einer Befehlszeile; Leerraum und Kommas am Ende (Icon-
/// Referenzen `app.exe,0`) zählen nicht.
pub open spec fn pfad_aus(zeile: Seq<char>) -> Option<Seq<char>> {
    let t = zeichen::getrimmt(zeile);
    if t.len() == 0 {
        None
    } else {
        match roher_pfad(t) {
            None => None,
            Some(p) => {
                let q = zeichen::getrimmt(zeichen::ohne_hinten(zeichen::getrimmt(p), zeichen::ist_zeichen(',')));
                if q.len() == 0 {
                    None
                } else {
                    Some(q)
                }
            },
        }
    }
}

/// Ein eindeutig lokaler Dateipfad: Laufwerksbuchstabe, Doppelpunkt,
/// Trenner und eine Dateiendung – kein UNC-Pfad, keine URL, kein
/// GUID-Platzhalter.
pub open spec fn pruefbar(pfad: Seq<char>) -> bool {
    let k = zeichen::klein_folge(pfad);
    &&& k.len() >= 4
    &&& !zeichen::beginnt_mit(k, "\\\\"@)
    &&& !zeichen::enthaelt(k, "://"@)
    &&& k[0] != '{'
    &&& (('a' <= k[0] && k[0] <= 'z') || ('A' <= k[0] && k[0] <= 'Z'))
    &&& k[1] == ':'
    &&& (k[2] == '\\' || k[2] == '/')
    &&& installers::endung_von(k) is Some
}

/// Der Pfad, dessen Existenz über einen Eintrag entscheidet – `None`, wenn
/// der Eintrag geschützt ist oder keinen Pfad nennt.
pub open spec fn pruefpfad(name: Seq<char>, wert: Seq<char>) -> Option<Seq<char>> {
    if geschuetzt(name, wert) {
        None
    } else {
        pfad_aus(wert)
    }
}

/// Die ausgeschriebene Registry-Wurzel.
pub open spec fn wurzelname(hive: Seq<char>) -> Seq<char> {
    if hive == "HKCU"@ {
        "HKEY_CURRENT_USER"@
    } else if hive == "HKLM"@ {
        "HKEY_LOCAL_MACHINE"@
    } else if hive == "HKCR"@ {
        "HKEY_CLASSES_ROOT"@
    } else {
        hive
    }
}

// ---------------------------------------------------------------------------
// Ausführbar
// ---------------------------------------------------------------------------

/// Kommt eines der Muster `tabelle[0..n]` in `text` vor?
fn eines_von(text: &[char], tabelle: &[&'static str], n: usize) -> (r: bool)
    requires
        n <= tabelle@.len(),
    ensures
        r == exists|i: int| 0 <= i < n && zeichen::enthaelt(text@, #[trigger] tabelle@[i]@),
{
    let mut i: usize = 0;
    while i < n
        invariant
            n <= tabelle@.len(),
            i <= n,
            forall|k: int| 0 <= k < i ==> !zeichen::enthaelt(text@, #[trigger] tabelle@[k]@),
        decreases n - i,
    {
        let muster = zeichen_von(tabelle[i]);
        if enthaelt_folge(text, &muster) {
            return true;
        }
        i = i + 1;
    }
    false
}

/// `true`, wenn der Schlüsselpfad grundsätzlich gesperrt ist.
pub fn is_protected_key(schluessel: &str) -> (r: bool)
    ensures
        r == gesperrter_schluessel(schluessel@),
{
    let k = klein_von(&zeichen_von(schluessel));
    let tabelle = GESPERRTE_SCHLUESSEL;
    eines_von(&k, &tabelle, 11)
}

/// `true`, wenn der Eintrag auf der Sperrliste steht.
pub fn is_protected(name: &str, wert: &str) -> (r: bool)
    ensures
        r == geschuetzt(name@, wert@),
{
    let text = verkettet(name, " ", wert);
    let k = klein_von(&zeichen_von(text.as_str()));
    let tabelle = SPERRLISTE;
    eines_von(&k, &tabelle, 10)
}

/// Das früheste Ende einer Pfadendung in `kl`.
fn fruehestes_ende(kl: &[char]) -> (r: Option<usize>)
    ensures
        r is None <==> kleinstes_ende(kl@, 0) is None,
        r matches Some(e) ==> kleinstes_ende(kl@, 0) == Some(e as int) && e <= kl@.len(),
{
    let endungen = PFADENDUNGEN;
    let mut best: Option<usize> = None;
    let mut i: usize = 7;
    while i > 0
        invariant
            i <= 7,
            endungen == PFADENDUNGEN,
            best is None <==> kleinstes_ende(kl@, i as int) is None,
            best matches Some(e) ==> kleinstes_ende(kl@, i as int) == Some(e as int) && e <= kl@.len(),
        decreases i,
    {
        i = i - 1;
        let e = zeichen_von(endungen[i]);
        match finde_ab(kl, &e, 0) {
            Some(p) => {
                proof {
                    zeichen::lemma_stelle_ab(kl@, e@, 0);
                    assert(zeichen::steht_an(kl@, e@, p as int));
                }
                let nk = kl.len();
                assert(p + e@.len() <= nk);
                let ende = p + e.len();
                best = match best {
                    None => Some(ende),
                    Some(b) => Some(if ende <= b { ende } else { b }),
                };
            },
            None => {},
        }
    }
    best
}

/// Einen Dateipfad aus einer Befehlszeile herauslösen.
///
/// Behandelt `"C:\\P\\app.exe" --arg`, `C:\\P\\app.exe --arg` und
/// `C:\\P\\app.exe,0` (Icon-Referenzen). `None`, wenn kein Pfad erkennbar
/// ist.
pub fn extract_path(befehlszeile: &str) -> (r: Option<String>)
    ensures
        r is None <==> pfad_aus(befehlszeile@) is None,
        r matches Some(p) ==> pfad_aus(befehlszeile@) == Some(p@),
{
    let z = zeichen_von(befehlszeile);
    let t = getrimmt_von(&z);
    let n = t.len();
    if n == 0 {
        return None;
    }
    let roh: Vec<char> = if t[0] == '"' {
        // In Anführungszeichen: bis zum schließenden Zeichen.
        let rest = teilfolge(&t, 1, n);
        match finde_zeichen(&rest, '"') {
            Some(e) => {
                proof {
                    zeichen::lemma_stelle_ab(rest@, seq!['"'], 0);
                }
                teilfolge(&rest, 0, e)
            },
            None => rest,
        }
    } else {
        // Ohne Anführungszeichen: bis zur frühesten Endung, danach beginnen
        // die Argumente.
        let kl = klein_von(&t);
        match fruehestes_ende(&kl) {
            Some(i) => teilfolge(&t, 0, i),
            None => {
                let w = woerter_von(&t);
                if w.len() == 0 {
                    return None;
                }
                zeichen::kopie(&w[0])
            },
        }
    };
    assert(roher_pfad(t@) == Some(roh@));
    let a = getrimmt_von(&roh);
    let b = ohne_ende_von(&a, ',');
    let c = getrimmt_von(&b);
    if c.len() == 0 {
        None
    } else {
        Some(text_aus(&c))
    }
}

/// `true`, wenn ein Wert überhaupt als Dateipfad geprüft werden darf.
///
/// Bewusst streng: alles, was nicht eindeutig ein lokaler Dateipfad ist,
/// wird nie als verwaist gemeldet. Die Endung bestimmt sich wie unter
/// Windows, mit `\\` und `/` als Trennern.
pub fn is_checkable_path(pfad: &str) -> (r: bool)
    ensures
        r == pruefbar(pfad@),
{
    let k = klein_von(&zeichen_von(pfad));
    if k.len() < 4 {
        return false;
    }
    // UNC-Pfade: Netzlaufwerk könnte nur gerade nicht verbunden sein.
    let unc = zeichen_von("\\\\");
    if steht_an_stelle(&k, &unc, 0) {
        return false;
    }
    // URLs, Protokolle, GUID-Platzhalter des Windows Installers.
    let url = zeichen_von("://");
    if enthaelt_folge(&k, &url) || k[0] == '{' {
        return false;
    }
    // Muss ein Laufwerksbuchstabe sein: "C:\\..."
    let c0 = k[0];
    if !((('a' <= c0 && c0 <= 'z') || ('A' <= c0 && c0 <= 'Z')) && k[1] == ':' && (k[2] == '\\' || k[2] == '/')) {
        return false;
    }
    // Ohne Dateiendung ist es vermutlich ein Ordner – zu unsicher.
    installers::endung(&k).is_some()
}

/// Der Pfad, dessen Existenz über einen Eintrag entscheidet: `None`, wenn
/// der Eintrag auf der Sperrliste steht oder keinen Pfad nennt. Geschützte
/// und pfadlose Einträge gelten nie als verwaist.
pub fn pruefpfad_von(name: &str, wert: &str) -> (r: Option<String>)
    ensures
        r is None <==> pruefpfad(name@, wert@) is None,
        r matches Some(p) ==> pruefpfad(name@, wert@) == Some(p@),
{
    if is_protected(name, wert) {
        return None;
    }
    extract_path(wert)
}

/// Die Entscheidung über einen Eintrag, dessen Pfad aufgelöst ist: verwaist
/// ist er nur, wenn der Pfad eindeutig ein lokaler Dateipfad ist und die
/// Datei fehlt.
pub fn verwaist_nach_pruefung(aufgeloest: &str, existiert: bool) -> (r: bool)
    ensures
        r == (pruefbar(aufgeloest@) && !existiert),
{
    is_checkable_path(aufgeloest) && !existiert
}

/// Vollständiger Schlüsselpfad zur Anzeige.
pub fn full_key(hive: &str, path: &str) -> (r: String)
    ensures
        r@ == wurzelname(hive@) + "\\"@ + path@,
{
    let lang = if gleich_text(hive, "HKCU") {
        "HKEY_CURRENT_USER"
    } else if gleich_text(hive, "HKLM") {
        "HKEY_LOCAL_MACHINE"
    } else if gleich_text(hive, "HKCR") {
        "HKEY_CLASSES_ROOT"
    } else {
        hive
    };
    verkettet(lang, "\\", path)
}

// ---------------------------------------------------------------------------
// Treffer einer Regel
// ---------------------------------------------------------------------------

/// Eine Registry-Wurzel, die Plane öffnen kann.
pub open spec fn bekannte_wurzel(hive: Seq<char>) -> bool {
    hive == "HKCU"@ || hive == "HKLM"@ || hive == "HKCR"@
}

/// Vor dem Öffnen einer Regel: eine unbekannte Wurzel und ein gesperrter
/// Bereich werden mit einer Warnung übergangen; sonst der angezeigte
/// Schlüsselpfad.
pub open spec fn regelanfang(hive: Seq<char>, path: Seq<char>) -> Result<Seq<char>, Seq<char>> {
    let anzeige = wurzelname(hive) + "\\"@ + path;
    if !bekannte_wurzel(hive) {
        Err("Unbekannte Registry-Wurzel: "@ + hive)
    } else if gesperrter_schluessel(anzeige) {
        Err("Gesperrter Bereich übersprungen: "@ + anzeige)
    } else {
        Ok(anzeige)
    }
}

/// Eine Regel vorprüfen: `Ok` mit dem angezeigten Schlüsselpfad, oder `Err`
/// mit der Warnung, unter der die Regel übergangen wird.
pub fn regel_vorpruefen(hive: &str, path: &str) -> (r: Result<String, String>)
    ensures
        match regelanfang(hive@, path@) {
            Ok(a) => r matches Ok(x) && x@ == a,
            Err(w) => r matches Err(x) && x@ == w,
        },
{
    if !(gleich_text(hive, "HKCU") || gleich_text(hive, "HKLM") || gleich_text(hive, "HKCR")) {
        let mut w = text_von("Unbekannte Registry-Wurzel: ");
        zeichen::text_anhaengen(&mut w, hive);
        return Err(w);
    }
    let anzeige = full_key(hive, path);
    if is_protected_key(anzeige.as_str()) {
        let mut w = text_von("Gesperrter Bereich übersprungen: ");
        zeichen::text_anhaengen(&mut w, anzeige.as_str());
        return Err(w);
    }
    Ok(anzeige)
}

/// Treffer für einen Wert, dessen **Name** ein verwaister Dateipfad ist:
/// angezeigt und gelöscht wird der Wert unter dem Schlüssel.
pub fn wertname_treffer(anzeige: &str, name: &str, verwaist: bool) -> (r: Option<ScanItem>)
    ensures
        r is Some <==> verwaist,
        r matches Some(i) ==> i.path@ == anzeige@ && i.detail@ == name@ && i.size == 0
            && (i.value_name matches Some(v) && v@ == name@),
{
    if verwaist {
        Some(ScanItem { path: text_von(anzeige), size: 0, detail: text_von(name), value_name: Some(text_von(name)) })
    } else {
        None
    }
}

/// Ein Wert gehört zur Regel: ohne Namensvorgabe jeder, sonst nur der mit
/// diesem Namen (ohne Rücksicht auf ASCII-Groß-/Kleinschreibung).
pub open spec fn wert_gemeint(vorgabe: Seq<char>, name: Seq<char>) -> bool {
    vorgabe.len() == 0 || zeichen::klein_folge(name) == zeichen::klein_folge(vorgabe)
}

/// Treffer für einen Wert, der einen verwaisten Dateipfad **enthält**; die
/// Anzeige nennt Name und Wert.
pub fn wert_treffer(anzeige: &str, vorgabe: &str, name: &str, wert: &str, verwaist: bool) -> (r: Option<ScanItem>)
    ensures
        r is Some <==> (wert_gemeint(vorgabe@, name@) && verwaist),
        r matches Some(i) ==> i.path@ == anzeige@ && i.detail@ == name@ + " → "@ + wert@ && i.size == 0
            && (i.value_name matches Some(v) && v@ == name@),
{
    let gemeint = vorgabe.unicode_len() == 0 || crate::i18n::gleich_ohne_gross_text(name, vorgabe);
    if gemeint && verwaist {
        Some(ScanItem {
            path: text_von(anzeige),
            size: 0,
            detail: verkettet(name, " → ", wert),
            value_name: Some(text_von(name)),
        })
    } else {
        None
    }
}

/// Treffer für einen Unterschlüssel, dessen Standardwert auf eine verwaiste
/// Datei zeigt: gelöscht wird der ganze Unterschlüssel.
pub fn progid_treffer(anzeige: &str, unterschluessel: &str, standard: &str, verwaist: bool) -> (r: Option<ScanItem>)
    ensures
        r is Some <==> verwaist,
        r matches Some(i) ==> i.path@ == anzeige@ + "\\"@ + unterschluessel@ && i.detail@ == standard@
            && i.size == 0 && i.value_name is None,
{
    if verwaist {
        Some(ScanItem {
            path: verkettet(anzeige, "\\", unterschluessel),
            size: 0,
            detail: text_von(standard),
            value_name: None,
        })
    } else {
        None
    }
}

/// Treffer für einen Deinstallationseintrag. Nur eindeutige Fälle: ohne
/// Symbol und ohne Installationsort wird der Eintrag nicht gemeldet; sonst,
/// wenn das Symbol auf eine fehlende Datei zeigt, mit dem Anzeigenamen (oder
/// dem Unterschlüssel, wenn es keinen gibt).
pub fn registry_eintrag_treffer(
    anzeige: &str,
    unterschluessel: &str,
    anzeigename: &str,
    ort: &str,
    icon: &str,
    verwaist: bool,
) -> (r: Option<ScanItem>)
    ensures
        r is Some <==> (!(icon@.len() == 0 && ort@.len() == 0) && verwaist),
        r matches Some(i) ==> i.path@ == anzeige@ + "\\"@ + unterschluessel@
            && i.detail@ == (if anzeigename@.len() == 0 { unterschluessel@ } else { anzeigename@ })
            && i.size == 0 && i.value_name is None,
{
    if icon.unicode_len() == 0 && ort.unicode_len() == 0 {
        return None;
    }
    if !verwaist {
        return None;
    }
    let name = if anzeigename.unicode_len() == 0 { text_von(unterschluessel) } else { text_von(anzeigename) };
    Some(ScanItem { path: verkettet(anzeige, "\\", unterschluessel), size: 0, detail: name, value_name: None })
}

fn gleich_text(a: &str, b: &str) -> (r: bool)
    ensures
        r == (a@ == b@),
{
    zeichen::gleich(a, b)
}

/// Eine Variable des Pfads `p` hat `nachschlagen` nicht auflösen können.
pub open spec fn unaufloesbar<F: Fn(&str) -> Option<String>>(nachschlagen: F, p: Seq<char>) -> bool {
    exists|i: int, a: &str|
        #![trigger fsutil::variablen(p)->0[i], call_ensures(nachschlagen, (a,), None::<String>)]
        0 <= i < fsutil::variablen(p)->0.len() && a@ == fsutil::variablen(p)->0[i]
            && call_ensures(nachschlagen, (a,), None::<String>)
}

/// Mit nachgeschlagenen Werten aufgelöst ist `p` kein prüfbarer lokaler Pfad.
pub open spec fn aufgeloest_nicht_pruefbar<F: Fn(&str) -> Option<String>>(nachschlagen: F, p: Seq<char>) -> bool {
    exists|werte: Seq<Seq<char>>|
        #![trigger fsutil::eingesetzt(p, werte)]
        fsutil::nachgeschlagen(nachschlagen, fsutil::variablen(p)->0, werte) && !pruefbar(fsutil::eingesetzt(p, werte))
}

/// Mit nachgeschlagenen Werten aufgelöst ist `p` prüfbar, und `existiert`
/// hat ihn als vorhanden gemeldet.
pub open spec fn aufgeloest_vorhanden<F: Fn(&str) -> Option<String>, G: Fn(&str) -> bool>(
    nachschlagen: F,
    existiert: G,
    p: Seq<char>,
) -> bool {
    exists|werte: Seq<Seq<char>>, a: &str|
        #![trigger fsutil::eingesetzt(p, werte), call_ensures(existiert, (a,), true)]
        fsutil::nachgeschlagen(nachschlagen, fsutil::variablen(p)->0, werte) && a@ == fsutil::eingesetzt(p, werte)
            && pruefbar(a@) && call_ensures(existiert, (a,), true)
}

/// Kernentscheidung: Ist dieser Eintrag verwaist?
///
/// Nur, wenn er nicht auf der Sperrliste steht, einen Pfad nennt, dessen
/// Variablen sich auflösen lassen, der aufgelöste Pfad eindeutig ein lokaler
/// Dateipfad ist und `existiert` ihn als fehlend meldet. Im Zweifel – eine
/// Variable ist unbekannt – bleibt der Eintrag. `nachschlagen` liefert den
/// Wert einer Variablen, `existiert` prüft einen Pfad; beide werden
/// hereingereicht, damit die Regel ohne echtes Dateisystem prüfbar ist.
pub fn is_orphaned<F: Fn(&str) -> Option<String>, G: Fn(&str) -> bool>(
    name: &str,
    wert: &str,
    nachschlagen: &F,
    existiert: &G,
) -> (r: bool)
    requires
        forall|a: &str| call_requires(*nachschlagen, (a,)),
        forall|a: &str| call_requires(*existiert, (a,)),
    ensures
        pruefpfad(name@, wert@) is None ==> !r,
        pruefpfad(name@, wert@) matches Some(p) && fsutil::variablen(p) is None ==> !r,
        r ==> exists|werte: Seq<Seq<char>>, a: &str|
            #![trigger fsutil::eingesetzt(pruefpfad(name@, wert@)->0, werte), call_ensures(*existiert, (a,), false)]
            fsutil::nachgeschlagen(*nachschlagen, fsutil::variablen(pruefpfad(name@, wert@)->0)->0, werte)
            && a@ == fsutil::eingesetzt(pruefpfad(name@, wert@)->0, werte)
            && pruefbar(a@) && call_ensures(*existiert, (a,), false),
        !r ==> pruefpfad(name@, wert@) is None
            || fsutil::variablen(pruefpfad(name@, wert@)->0) is None
            || unaufloesbar(*nachschlagen, pruefpfad(name@, wert@)->0)
            || aufgeloest_nicht_pruefbar(*nachschlagen, pruefpfad(name@, wert@)->0)
            || aufgeloest_vorhanden(*nachschlagen, *existiert, pruefpfad(name@, wert@)->0),
{
    let pfad = match pruefpfad_von(name, wert) {
        None => {
            return false;
        },
        Some(p) => p,
    };
    // Nicht auflösbare Variable: im Zweifel behalten.
    let aufgeloest = match fsutil::expand_vars_mit(pfad.as_str(), nachschlagen) {
        None => {
            assert(fsutil::variablen(pfad@) is None || unaufloesbar(*nachschlagen, pfad@));
            return false;
        },
        Some(a) => a,
    };
    let ghost p = pruefpfad(name@, wert@)->0;
    let ghost werte = choose|werte: Seq<Seq<char>>| fsutil::nachgeschlagen(*nachschlagen, fsutil::variablen(p)->0, werte)
        && aufgeloest@ == fsutil::eingesetzt(p, werte);
    proof {
        assert(fsutil::nachgeschlagen(*nachschlagen, fsutil::variablen(p)->0, werte));
        assert(aufgeloest@ == fsutil::eingesetzt(p, werte));
    }
    if !is_checkable_path(aufgeloest.as_str()) {
        assert(aufgeloest_nicht_pruefbar(*nachschlagen, p));
        return false;
    }
    let a: &str = aufgeloest.as_str();
    let da = existiert(a);
    proof {
        if !da {
            assert(call_ensures(*existiert, (a,), false));
        } else {
            assert(call_ensures(*existiert, (a,), true));
            assert(aufgeloest_vorhanden(*nachschlagen, *existiert, p));
        }
    }
    !da
}

/// Eine Regel auswerten. Die Registry gibt es nur unter Windows; anderswo
/// findet die Analyse nichts und warnt nicht.
pub fn scan_rule(_regel: &RegistryRule, _cancel: &CancelToken) -> (r: (Vec<ScanItem>, Vec<String>))
    ensures
        r.0@.len() == 0,
        r.1@.len() == 0,
{
    (Vec::new(), Vec::new())
}

/// Alle Regeln auswerten. Die Registry gibt es nur unter Windows; anderswo
/// findet die Analyse nichts und warnt nicht.
pub fn scan_rules(regeln: &[RegistryRule], cancel: &CancelToken) -> (r: (Vec<ScanItem>, Vec<String>))
    ensures
        r.0@.len() == 0,
        r.1@.len() == 0,
{
    let mut treffer: Vec<ScanItem> = Vec::new();
    let mut warnungen: Vec<String> = Vec::new();
    let mut i: usize = 0;
    while i < regeln.len()
        invariant
            i <= regeln@.len(),
            treffer@.len() == 0,
            warnungen@.len() == 0,
        decreases regeln@.len() - i,
    {
        if cancel.is_cancelled() {
            break;
        }
        let (mut t, mut w) = scan_rule(&regeln[i], cancel);
        treffer.append(&mut t);
        warnungen.append(&mut w);
        i = i + 1;
    }
    (treffer, warnungen)
}

/// Gefundene Einträge entfernen. Im Trockenlauf wird nichts angefasst und
/// jeder Eintrag als entfernt gezählt; sonst kann nur unter Windows etwas
/// entfernt werden.
pub fn delete_items(items: &[ScanItem], dry_run: bool) -> (r: (usize, Vec<String>))
    ensures
        r.0 == (if dry_run { items@.len() } else { 0 }),
        r.1@.len() == 0,
{
    let fehler: Vec<String> = Vec::new();
    if dry_run {
        (items.len(), fehler)
    } else {
        (0, fehler)
    }
}

/// Sicherung der betroffenen Schlüssel als `.reg`-Datei. Ohne Registry
/// lässt sich nichts sichern, und ohne Sicherung wird nichts gelöscht.
pub fn backup(_regeln: &[RegistryRule], _ziel: &str) -> (r: Result<String, String>)
    ensures
        r matches Err(e) && e@ == "Registry gibt es nur unter Windows"@,
{
    Err(text_von("Registry gibt es nur unter Windows"))
}

} // verus!
