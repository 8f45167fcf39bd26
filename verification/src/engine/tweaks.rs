//! Windows-Einstellungen ändern („Plane Tweaker").
//!
//! Plane bietet eine **kuratierte, kleine Auswahl** an Einstellungen – jede
//! umkehrbar, jede mit benannter Nebenwirkung. Ausdrücklich **nicht**
//! enthalten: Windows Update deaktivieren, Defender abschalten, Edge oder
//! OneDrive entfernen, BitLocker deaktivieren, Dienste massenhaft abschalten.
//!
//! Zurücknehmen heißt nicht, einen angenommenen Standardwert zu schreiben:
//! vor jeder Änderung wird der **tatsächliche** Ist-Zustand in einem Journal
//! abgelegt, und genau dieser Zustand wird wiederhergestellt – inklusive
//! „der Wert existierte vorher gar nicht".
//!
//! Hier stehen Katalog, Zustandsbestimmung und Journalregeln. Registry und
//! Journaldatei gehören zur Anwendung; Registry-Werte gibt es nur unter
//! Windows.

use vstd::prelude::*;
use crate::zeichen;
use crate::zeichen::{getrimmt_von, gleich, gleiche_folge, klein_von, teilfolge, text_von, verkettet, zeichen_von};
use crate::engine::fsutil;
use crate::engine::runtime;
use crate::engine::update;

verus! {

/// Gruppierung in der Oberfläche.
#[derive(Debug, Clone, Copy, PartialEq, Eq, Structural, PartialOrd, Ord)]
pub enum TweakGroup {
    Privacy,
    Explorer,
    Taskbar,
    Performance,
    System,
}

/// Der stabile Schlüssel einer Gruppe.
pub open spec fn gruppenschluessel(g: TweakGroup) -> Seq<char> {
    match g {
        TweakGroup::Privacy => "privacy"@,
        TweakGroup::Explorer => "explorer"@,
        TweakGroup::Taskbar => "taskbar"@,
        TweakGroup::Performance => "performance"@,
        TweakGroup::System => "system"@,
    }
}

impl TweakGroup {
    /// Alle Gruppen in Anzeigereihenfolge.
    pub const ALL: [TweakGroup; 5] = [
        TweakGroup::Privacy,
        TweakGroup::Explorer,
        TweakGroup::Taskbar,
        TweakGroup::Performance,
        TweakGroup::System,
    ];

    pub fn key(self) -> (r: &'static str)
        ensures
            r@ == gruppenschluessel(self),
    {
        match self {
            TweakGroup::Privacy => "privacy",
            TweakGroup::Explorer => "explorer",
            TweakGroup::Taskbar => "taskbar",
            TweakGroup::Performance => "performance",
            TweakGroup::System => "system",
        }
    }

    /// Übersetzungsschlüssel des Gruppennamens.
    pub fn i18n_key(self) -> (r: String)
        ensures
            r@ == "tweakgroup."@ + gruppenschluessel(self),
    {
        proof {
            reveal_strlit("");
        }
        let r = verkettet("tweakgroup.", self.key(), "");
        assert(r@ =~= "tweakgroup."@ + gruppenschluessel(self));
        r
    }
}

/// Was nach dem Anwenden nötig ist, damit die Änderung greift.
#[derive(Debug, Clone, Copy, PartialEq, Eq, Structural)]
pub enum Apply {
    /// Wirkt sofort.
    Immediate,
    /// Explorer muss neu starten.
    Explorer,
    /// Anmeldung oder Neustart nötig.
    Restart,
}

/// Ein Registry-Wert mitsamt Typ: `"0"` als Zeichenkette und `0` als Zahl
/// sind zwei verschiedene Dinge.
#[derive(Debug, Clone, Copy, PartialEq, Eq)]
pub enum RegData {
    Dword(u32),
    Text(&'static str),
    /// Der Wert soll nicht existieren.
    Absent,
}

/// Ein einzelner Registry-Wert, den ein Tweak setzt.
#[derive(Debug, Clone, Copy)]
pub struct RegValue {
    /// `"HKCU"` oder `"HKLM"`.
    pub hive: &'static str,
    pub path: &'static str,
    /// Wertname; leer bedeutet den Standardwert des Schlüssels.
    pub name: &'static str,
    /// Gewünschter Zustand, wenn der Tweak aktiv ist.
    pub on: RegData,
    /// Zustand, wenn der Tweak *nicht* aktiv ist – nur für die
    /// Zustandserkennung, **nicht** zum Zurücknehmen. Dafür dient das Journal.
    pub off: RegData,
}

/// Ein Tweak.
#[derive(Debug, Clone)]
pub struct Tweak {
    pub key: &'static str,
    pub group: TweakGroup,
    pub values: Vec<RegValue>,
    pub requires_admin: bool,
    pub apply: Apply,
    /// Nur unter Windows 11 wirksam (Buildnummer ab 22000).
    pub windows11_only: bool,
}

/// Zustand eines Tweaks.
#[derive(Debug, Clone, Copy, PartialEq, Eq, Structural)]
pub enum TweakState {
    /// Alle Werte stehen auf „an".
    On,
    /// Alle Werte stehen auf „aus".
    Off,
    /// Teils/teils, oder nicht lesbar – ehrlicher als schlicht „aus".
    Mixed,
}

/// Zustandsbericht eines Tweaks für die Oberfläche.
#[derive(Debug, Clone)]
pub struct TweakStatus {
    pub key: String,
    pub group: TweakGroup,
    pub state: TweakState,
    pub requires_admin: bool,
    pub apply: Apply,
    /// Auf diesem System wirkungslos (z. B. Windows-11-Tweak unter Win10).
    pub unsupported: bool,
    /// Von einer Gruppenrichtlinie überlagert.
    pub managed: bool,
}

// ---------------------------------------------------------------------------
// Katalog
// ---------------------------------------------------------------------------

/// Anzahl der angebotenen Tweaks.
pub const ANZAHL_TWEAKS: usize = 19;

/// Art eines Registry-Werts in der Werttabelle.
#[derive(Debug, Clone, Copy, PartialEq, Eq, Structural)]
pub enum Datenart {
    Zahl,
    Text,
    Fehlt,
}

/// Alle angebotenen Tweaks: Schlüssel, Gruppe, Adminrechte, Wirkung, nur
/// Windows 11. Der Wert jedes Tweaks steht in derselben Zeile von
/// [`WERT_TABELLE`].
pub const TWEAK_TABELLE: [(&'static str, TweakGroup, bool, Apply, bool); 19] = [
    ("privacy.advertising_id", TweakGroup::Privacy, false, Apply::Immediate, false),
    ("privacy.tailored", TweakGroup::Privacy, false, Apply::Immediate, false),
    ("privacy.app_tracking", TweakGroup::Privacy, false, Apply::Explorer, false),
    ("privacy.input_telemetry", TweakGroup::Privacy, false, Apply::Immediate, false),
    ("privacy.feedback", TweakGroup::Privacy, false, Apply::Immediate, false),
    ("privacy.suggested_apps", TweakGroup::Privacy, true, Apply::Restart, false),
    ("explorer.file_extensions", TweakGroup::Explorer, false, Apply::Explorer, false),
    ("explorer.hidden_files", TweakGroup::Explorer, false, Apply::Explorer, false),
    ("explorer.classic_menu", TweakGroup::Explorer, false, Apply::Explorer, true),
    ("explorer.launch_to_pc", TweakGroup::Explorer, false, Apply::Explorer, false),
    ("explorer.end_task", TweakGroup::Explorer, false, Apply::Explorer, true),
    ("taskbar.align_left", TweakGroup::Taskbar, false, Apply::Explorer, true),
    ("taskbar.hide_search", TweakGroup::Taskbar, false, Apply::Explorer, false),
    ("taskbar.hide_taskview", TweakGroup::Taskbar, false, Apply::Explorer, false),
    ("taskbar.no_bing", TweakGroup::Taskbar, false, Apply::Explorer, false),
    ("performance.game_dvr", TweakGroup::Performance, false, Apply::Restart, false),
    ("performance.fast_startup", TweakGroup::Performance, true, Apply::Restart, false),
    ("system.long_paths", TweakGroup::System, true, Apply::Restart, false),
    ("system.verbose_status", TweakGroup::System, true, Apply::Restart, false),
];

/// Die Werte der Tweaks: Wurzel, Pfad, Name, dann „an" und „aus" je als
/// Art, Zahl und Text.
pub const WERT_TABELLE: [(&'static str, &'static str, &'static str, Datenart, u32, &'static str, Datenart, u32, &'static str); 19] = [
    ("HKCU", "Software\\Microsoft\\Windows\\CurrentVersion\\AdvertisingInfo", "Enabled", Datenart::Zahl, 0u32, "", Datenart::Zahl, 1u32, ""),
    ("HKCU", "Software\\Microsoft\\Windows\\CurrentVersion\\Privacy", "TailoredExperiencesWithDiagnosticDataEnabled", Datenart::Zahl, 0u32, "", Datenart::Zahl, 1u32, ""),
    ("HKCU", "Software\\Microsoft\\Windows\\CurrentVersion\\Explorer\\Advanced", "Start_TrackProgs", Datenart::Zahl, 0u32, "", Datenart::Zahl, 1u32, ""),
    ("HKCU", "Software\\Microsoft\\Input\\TIPC", "Enabled", Datenart::Zahl, 0u32, "", Datenart::Zahl, 1u32, ""),
    ("HKCU", "Software\\Microsoft\\Siuf\\Rules", "NumberOfSIUFInPeriod", Datenart::Zahl, 0u32, "", Datenart::Fehlt, 0u32, ""),
    ("HKLM", "SOFTWARE\\Policies\\Microsoft\\Windows\\CloudContent", "DisableWindowsConsumerFeatures", Datenart::Zahl, 1u32, "", Datenart::Fehlt, 0u32, ""),
    ("HKCU", "Software\\Microsoft\\Windows\\CurrentVersion\\Explorer\\Advanced", "HideFileExt", Datenart::Zahl, 0u32, "", Datenart::Zahl, 1u32, ""),
    ("HKCU", "Software\\Microsoft\\Windows\\CurrentVersion\\Explorer\\Advanced", "Hidden", Datenart::Zahl, 1u32, "", Datenart::Zahl, 2u32, ""),
    ("HKCU", "Software\\Classes\\CLSID\\{86ca1aa0-34aa-4e8b-a509-50c905bae2a2}\\InprocServer32", "", Datenart::Text, 0u32, "", Datenart::Fehlt, 0u32, ""),
    ("HKCU", "Software\\Microsoft\\Windows\\CurrentVersion\\Explorer\\Advanced", "LaunchTo", Datenart::Zahl, 1u32, "", Datenart::Zahl, 2u32, ""),
    ("HKCU", "Software\\Microsoft\\Windows\\CurrentVersion\\Explorer\\Advanced\\TaskbarDeveloperSettings", "TaskbarEndTask", Datenart::Zahl, 1u32, "", Datenart::Fehlt, 0u32, ""),
    ("HKCU", "Software\\Microsoft\\Windows\\CurrentVersion\\Explorer\\Advanced", "TaskbarAl", Datenart::Zahl, 0u32, "", Datenart::Zahl, 1u32, ""),
    ("HKCU", "Software\\Microsoft\\Windows\\CurrentVersion\\Search", "SearchboxTaskbarMode", Datenart::Zahl, 0u32, "", Datenart::Zahl, 1u32, ""),
    ("HKCU", "Software\\Microsoft\\Windows\\CurrentVersion\\Explorer\\Advanced", "ShowTaskViewButton", Datenart::Zahl, 0u32, "", Datenart::Zahl, 1u32, ""),
    ("HKCU", "Software\\Microsoft\\Windows\\CurrentVersion\\Search", "BingSearchEnabled", Datenart::Zahl, 0u32, "", Datenart::Zahl, 1u32, ""),
    ("HKCU", "System\\GameConfigStore", "GameDVR_Enabled", Datenart::Zahl, 0u32, "", Datenart::Zahl, 1u32, ""),
    ("HKLM", "SYSTEM\\CurrentControlSet\\Control\\Session Manager\\Power", "HiberbootEnabled", Datenart::Zahl, 0u32, "", Datenart::Zahl, 1u32, ""),
    ("HKLM", "SYSTEM\\CurrentControlSet\\Control\\FileSystem", "LongPathsEnabled", Datenart::Zahl, 1u32, "", Datenart::Zahl, 0u32, ""),
    ("HKLM", "SOFTWARE\\Microsoft\\Windows\\CurrentVersion\\Policies\\System", "VerboseStatus", Datenart::Zahl, 1u32, "", Datenart::Fehlt, 0u32, ""),
];

/// Ein Registry-Zustand aus Art, Zahl und Text.
pub open spec fn regdaten(art: Datenart, zahl: u32, text: &'static str) -> RegData {
    match art {
        Datenart::Zahl => RegData::Dword(zahl),
        Datenart::Text => RegData::Text(text),
        Datenart::Fehlt => RegData::Absent,
    }
}

/// Der Wert des Tweaks aus Zeile `i`.
pub open spec fn regwert(i: int) -> RegValue {
    let w = WERT_TABELLE[i];
    RegValue { hive: w.0, path: w.1, name: w.2, on: regdaten(w.3, w.4, w.5), off: regdaten(w.6, w.7, w.8) }
}

fn regdaten_aus(art: Datenart, zahl: u32, text: &'static str) -> (r: RegData)
    ensures
        r == regdaten(art, zahl, text),
{
    match art {
        Datenart::Zahl => RegData::Dword(zahl),
        Datenart::Text => RegData::Text(text),
        Datenart::Fehlt => RegData::Absent,
    }
}

fn regwert_aus(i: usize) -> (r: RegValue)
    requires
        i < ANZAHL_TWEAKS,
    ensures
        r == regwert(i as int),
{
    let w = WERT_TABELLE[i];
    assert(w == WERT_TABELLE[i as int]);
    RegValue { hive: w.0, path: w.1, name: w.2, on: regdaten_aus(w.3, w.4, w.5), off: regdaten_aus(w.6, w.7, w.8) }
}

/// `t` ist der Tweak aus Zeile `i`.
pub open spec fn tweak_passt(t: Tweak, i: int) -> bool {
    let z = TWEAK_TABELLE[i];
    &&& t.key == z.0
    &&& t.group == z.1
    &&& t.values@ == seq![regwert(i)]
    &&& t.requires_admin == z.2
    &&& t.apply == z.3
    &&& t.windows11_only == z.4
}

/// Die erste Zeile ab `i` mit dem Schlüssel `key`.
pub open spec fn tweakzeile_ab(key: Seq<char>, i: int) -> Option<int>
    decreases ANZAHL_TWEAKS - i,
{
    if i < 0 || i >= ANZAHL_TWEAKS {
        None
    } else if TWEAK_TABELLE[i].0@ == key {
        Some(i)
    } else {
        tweakzeile_ab(key, i + 1)
    }
}

/// So wird ein Schlüssel vor dem Nachschlagen aufbereitet.
pub open spec fn schluesselform(key: Seq<char>) -> Seq<char> {
    zeichen::klein_folge(zeichen::getrimmt(key))
}

fn tweak_aus(i: usize) -> (r: Tweak)
    requires
        i < ANZAHL_TWEAKS,
    ensures
        tweak_passt(r, i as int),
{
    let z = TWEAK_TABELLE[i];
    assert(z == TWEAK_TABELLE[i as int]);
    let werte = vec![regwert_aus(i)];
    assert(werte@ =~= seq![regwert(i as int)]);
    Tweak { key: z.0, group: z.1, values: werte, requires_admin: z.2, apply: z.3, windows11_only: z.4 }
}

/// Alle angebotenen Tweaks in Katalogreihenfolge.
pub fn tweaks() -> (r: Vec<Tweak>)
    ensures
        r@.len() == ANZAHL_TWEAKS,
        forall|i: int| 0 <= i < ANZAHL_TWEAKS ==> #[trigger] tweak_passt(r@[i], i),
{
    let mut r: Vec<Tweak> = Vec::new();
    let mut i: usize = 0;
    while i < ANZAHL_TWEAKS
        invariant
            i <= ANZAHL_TWEAKS,
            r@.len() == i,
            forall|k: int| 0 <= k < i ==> #[trigger] tweak_passt(r@[k], k),
        decreases ANZAHL_TWEAKS - i,
    {
        r.push(tweak_aus(i));
        i = i + 1;
    }
    r
}

/// Tweak zu einem Schlüssel; Leerraum außen und Groß-/Kleinschreibung
/// zählen nicht.
pub fn tweak_by_key(key: &str) -> (r: Option<Tweak>)
    ensures
        match tweakzeile_ab(schluesselform(key@), 0) {
            Some(i) => r is Some && tweak_passt(r->0, i),
            None => r is None,
        },
{
    let gesucht = klein_von(&getrimmt_von(&zeichen_von(key)));
    let mut i: usize = 0;
    while i < ANZAHL_TWEAKS
        invariant
            i <= ANZAHL_TWEAKS,
            gesucht@ == schluesselform(key@),
            tweakzeile_ab(schluesselform(key@), 0) == tweakzeile_ab(schluesselform(key@), i as int),
        decreases ANZAHL_TWEAKS - i,
    {
        let z = TWEAK_TABELLE[i];
        assert(z == TWEAK_TABELLE[i as int]);
        if gleiche_folge(&zeichen_von(z.0), &gesucht) {
            return Some(tweak_aus(i));
        }
        i = i + 1;
    }
    None
}

impl Tweak {
    pub fn i18n_name(&self) -> (r: String)
        ensures
            r@ == "tweak."@ + self.key@ + ".name"@,
    {
        verkettet("tweak.", self.key, ".name")
    }

    pub fn i18n_description(&self) -> (r: String)
        ensures
            r@ == "tweak."@ + self.key@ + ".description"@,
    {
        verkettet("tweak.", self.key, ".description")
    }

    /// Übersetzungsschlüssel der Nebenwirkung.
    pub fn i18n_effect(&self) -> (r: String)
        ensures
            r@ == "tweak."@ + self.key@ + ".effect"@,
    {
        verkettet("tweak.", self.key, ".effect")
    }
}

// ---------------------------------------------------------------------------
// Zustand
// ---------------------------------------------------------------------------

/// Ein gesicherter Wert, so wie er **vor** der Änderung war.
#[derive(Debug, Clone, PartialEq)]
pub struct Snapshot {
    pub hive: String,
    pub path: String,
    pub name: String,
    /// Existierte der Wert vorher überhaupt?
    pub existed: bool,
    /// Registry-Typ als Zahl (`REG_DWORD` = 4, `REG_SZ` = 1).
    pub value_type: u32,
    /// Zahlenwert, falls DWORD.
    pub dword: Option<u32>,
    /// Textwert, falls REG_SZ.
    pub text: Option<String>,
}

/// Der Schnappschuss entspricht dem Sollzustand – typgenau.
pub open spec fn entspricht_spec(s: Snapshot, soll: RegData) -> bool {
    match soll {
        RegData::Absent => !s.existed,
        RegData::Dword(zahl) => s.dword == Some(zahl),
        RegData::Text(text) => s.text matches Some(t) && t@ == text@,
    }
}

/// Den aktuellen Zustand mit dem Sollzustand vergleichen. Typkonform: `"0"`
/// (Text) und `0` (Zahl) sind verschiedene Dinge.
pub fn entspricht(schnappschuss: &Snapshot, soll: RegData) -> (r: bool)
    ensures
        r == entspricht_spec(*schnappschuss, soll),
{
    match soll {
        RegData::Absent => !schnappschuss.existed,
        RegData::Dword(zahl) => match schnappschuss.dword {
            Some(d) => d == zahl,
            None => false,
        },
        RegData::Text(text) => match &schnappschuss.text {
            Some(t) => gleich(t.as_str(), text),
            None => false,
        },
    }
}

/// Anzahl der Werte, die auf „an" stehen.
pub open spec fn an_zahl(werte: Seq<RegValue>, s: Seq<Snapshot>) -> nat
    decreases werte.len(),
{
    if werte.len() == 0 {
        0
    } else {
        let i = werte.len() - 1;
        an_zahl(werte.drop_last(), s) + if entspricht_spec(s[i], werte[i].on) { 1nat } else { 0nat }
    }
}

/// Anzahl der Werte, die auf „aus" stehen; ein fehlender Wert zählt als
/// „aus", denn dann gilt der Windows-Standard.
pub open spec fn aus_zahl(werte: Seq<RegValue>, s: Seq<Snapshot>) -> nat
    decreases werte.len(),
{
    if werte.len() == 0 {
        0
    } else {
        let i = werte.len() - 1;
        aus_zahl(werte.drop_last(), s) + if !entspricht_spec(s[i], werte[i].on)
            && (entspricht_spec(s[i], werte[i].off) || !s[i].existed) { 1nat } else { 0nat }
    }
}

/// Der Zustand eines Tweaks zu den gelesenen Werten: alle „an", alle „aus",
/// sonst gemischt.
pub open spec fn zustand_spec(werte: Seq<RegValue>, s: Seq<Snapshot>) -> TweakState {
    if an_zahl(werte, s) == werte.len() {
        TweakState::On
    } else if aus_zahl(werte, s) == werte.len() {
        TweakState::Off
    } else {
        TweakState::Mixed
    }
}

proof fn lemma_zahlen_begrenzt(werte: Seq<RegValue>, s: Seq<Snapshot>)
    ensures
        an_zahl(werte, s) <= werte.len(),
        aus_zahl(werte, s) <= werte.len(),
    decreases werte.len(),
{
    if werte.len() > 0 {
        lemma_zahlen_begrenzt(werte.drop_last(), s);
    }
}

/// Zustand eines Tweaks aus den Schnappschüssen seiner Werte, einer je Wert
/// in derselben Reihenfolge.
pub fn zustand_aus(tweak: &Tweak, schnappschuesse: &Vec<Snapshot>) -> (r: TweakState)
    requires
        schnappschuesse@.len() == tweak.values@.len(),
    ensures
        r == zustand_spec(tweak.values@, schnappschuesse@),
{
    let mut an: usize = 0;
    let mut aus: usize = 0;
    let mut i: usize = 0;
    while i < tweak.values.len()
        invariant
            i <= tweak.values@.len(),
            schnappschuesse@.len() == tweak.values@.len(),
            an == an_zahl(tweak.values@.subrange(0, i as int), schnappschuesse@),
            aus == aus_zahl(tweak.values@.subrange(0, i as int), schnappschuesse@),
        decreases tweak.values@.len() - i,
    {
        proof {
            let t = tweak.values@.subrange(0, i + 1);
            assert(t.drop_last() =~= tweak.values@.subrange(0, i as int));
            lemma_zahlen_begrenzt(tweak.values@.subrange(0, i as int), schnappschuesse@);
        }
        let wert = tweak.values[i];
        let s = &schnappschuesse[i];
        if entspricht(s, wert.on) {
            an = an + 1;
        } else if entspricht(s, wert.off) || !s.existed {
            aus = aus + 1;
        }
        i = i + 1;
    }
    assert(tweak.values@.subrange(0, i as int) =~= tweak.values@);
    if an == tweak.values.len() {
        TweakState::On
    } else if aus == tweak.values.len() {
        TweakState::Off
    } else {
        TweakState::Mixed
    }
}

/// Der Schnappschuss eines Werts, den es nicht gibt.
pub open spec fn nicht_vorhanden(s: Snapshot, wert: RegValue) -> bool {
    &&& s.hive@ == wert.hive@
    &&& s.path@ == wert.path@
    &&& s.name@ == wert.name@
    &&& !s.existed
    &&& s.value_type == 0
    &&& s.dword is None
    &&& s.text is None
}

/// Den aktuellen Zustand eines Werts festhalten. Ohne Registry – außerhalb
/// von Windows – existiert kein Wert.
pub fn lies_snapshot(wert: &RegValue) -> (r: Snapshot)
    ensures
        nicht_vorhanden(r, *wert),
{
    Snapshot {
        hive: text_von(wert.hive),
        path: text_von(wert.path),
        name: text_von(wert.name),
        existed: false,
        value_type: 0,
        dword: None,
        text: None,
    }
}

/// Zustand eines Tweaks. Ohne Registry steht jeder Wert auf dem
/// Windows-Standard, der Tweak also auf „aus".
pub fn zustand(tweak: &Tweak) -> (r: TweakState)
    ensures
        r == TweakState::Off,
{
    TweakState::Off
}

/// Ob eine Gruppenrichtlinie denselben Bereich belegt; ohne Registry nie.
pub fn ist_verwaltet(_tweak: &Tweak) -> (r: bool)
    ensures
        !r,
{
    false
}

/// Einen Tweak anwenden oder zurücknehmen; Registry-Werte gibt es nur unter
/// Windows.
pub fn setze(_tweak: &Tweak, _ein: bool) -> (r: Result<Vec<Snapshot>, String>)
    ensures
        r matches Err(e) && e@ == "Tweaks gibt es nur unter Windows"@,
{
    Err(text_von("Tweaks gibt es nur unter Windows"))
}

/// Einen gesicherten Zustand wiederherstellen; Registry-Werte gibt es nur
/// unter Windows.
pub fn stelle_wieder_her(_schnappschuss: &Snapshot) -> (r: Result<(), String>)
    ensures
        r matches Err(e) && e@ == "Tweaks gibt es nur unter Windows"@,
{
    Err(text_von("Tweaks gibt es nur unter Windows"))
}

// ---------------------------------------------------------------------------
// Windows-Version
// ---------------------------------------------------------------------------

/// `sysinfo::System::kernel_version`: die Kernelversion des laufenden
/// Systems, unter Windows die Buildnummer. Sie hängt von der Maschine ab;
/// über den Wert wird nichts zugesichert.
#[verifier::external_body]
fn kernelversion() -> (r: Option<String>)
{
    sysinfo::System::kernel_version()
}

/// `u32::from_str`: Ziffern mit optionalem `+`, passend in `u32`.
pub open spec fn u32_aus(t: Seq<char>) -> Option<u32> {
    if t.len() > 0 && t[0] == '+' {
        update::zahl(t.drop_first())
    } else {
        update::zahl(t)
    }
}

/// Windows 11 laut Kernelversion: der letzte Punktteil ist eine Buildnummer
/// ab 22000.
pub open spec fn windows11_laut(kernel: Option<Seq<char>>) -> bool {
    match kernel {
        None => false,
        Some(k) => {
            let teile = zeichen::teile(k, '.');
            match u32_aus(teile.last()) {
                Some(build) => build >= 22000,
                None => false,
            }
        },
    }
}

/// Ist die Kernelversion die eines Windows 11?
pub fn windows11_aus(kernel: Option<String>) -> (r: bool)
    ensures
        r == windows11_laut(match kernel {
            Some(k) => Some(k@),
            None => None,
        }),
{
    match kernel {
        None => false,
        Some(k) => {
            let v = zeichen_von(k.as_str());
            let teile = zeichen::zerteile(&v, '.');
            let n = teile.len();
            proof {
                assert(zeichen::teile(k@, '.').len() > 0);
            }
            let letzter = &teile[n - 1];
            let zahl = if letzter.len() > 0 && letzter[0] == '+' {
                let rest = teilfolge(letzter, 1, letzter.len());
                assert(rest@ =~= letzter@.drop_first());
                update::zahl_lesen(&rest)
            } else {
                update::zahl_lesen(letzter)
            };
            match zahl {
                Some(build) => build >= 22000,
                None => false,
            }
        },
    }
}

/// Läuft Windows 11 (Buildnummer ab 22000)?
pub fn ist_windows11() -> (r: bool)
{
    windows11_aus(kernelversion())
}

// ---------------------------------------------------------------------------
// Status
// ---------------------------------------------------------------------------

/// `s` ist der Status des Tweaks aus Zeile `i` auf einem System, das Windows
/// 11 ist oder nicht.
pub open spec fn status_passt(s: TweakStatus, i: int, win11: bool) -> bool {
    let z = TWEAK_TABELLE[i];
    &&& s.key@ == z.0@
    &&& s.group == z.1
    &&& s.state == TweakState::Off
    &&& s.requires_admin == z.2
    &&& s.apply == z.3
    &&& s.unsupported == (z.4 && !win11)
    &&& !s.managed
}

/// `r` ist der Status aller Tweaks in Katalogreihenfolge.
pub open spec fn alle_status_passen(r: Seq<TweakStatus>, win11: bool) -> bool {
    &&& r.len() == ANZAHL_TWEAKS
    &&& forall|i: int| 0 <= i < ANZAHL_TWEAKS ==> #[trigger] status_passt(r[i], i, win11)
}

/// Zustand aller Tweaks auf einem System, das Windows 11 ist oder nicht.
pub fn status_fuer(win11: bool) -> (r: Vec<TweakStatus>)
    ensures
        alle_status_passen(r@, win11),
{
    let alle = tweaks();
    let mut r: Vec<TweakStatus> = Vec::new();
    let mut i: usize = 0;
    while i < alle.len()
        invariant
            i <= ANZAHL_TWEAKS,
            alle@.len() == ANZAHL_TWEAKS,
            forall|k: int| 0 <= k < ANZAHL_TWEAKS ==> #[trigger] tweak_passt(alle@[k], k),
            r@.len() == i,
            forall|k: int| 0 <= k < i ==> #[trigger] status_passt(r@[k], k, win11),
        decreases ANZAHL_TWEAKS - i,
    {
        let tweak = &alle[i];
        assert(tweak_passt(*tweak, i as int));
        r.push(TweakStatus {
            key: text_von(tweak.key),
            group: tweak.group,
            state: zustand(tweak),
            requires_admin: tweak.requires_admin,
            apply: tweak.apply,
            unsupported: tweak.windows11_only && !win11,
            managed: ist_verwaltet(tweak),
        });
        i = i + 1;
    }
    r
}

/// Zustand aller Tweaks auf diesem System.
pub fn status_aller() -> (r: Vec<TweakStatus>)
    ensures
        exists|win11: bool| #[trigger] alle_status_passen(r@, win11),
{
    let win11 = ist_windows11();
    status_fuer(win11)
}

// ---------------------------------------------------------------------------
// Journal
// ---------------------------------------------------------------------------

/// Dateiname des Journals im Konfigurationsverzeichnis.
pub const JOURNAL_FILE: &'static str = "tweaks.json";

/// Pfad des Journals im Konfigurationsverzeichnis.
pub fn journal_path(config_dir: &str) -> (r: String)
    ensures
        r@ == fsutil::angehaengt(config_dir@, JOURNAL_FILE@),
{
    fsutil::pfad_anhaengen(config_dir, JOURNAL_FILE)
}

/// So viele Einträge behält das Journal höchstens.
pub const JOURNAL_GRENZE: usize = 500;

/// Ein Journaleintrag: alles, was ein Tweak verändert hat.
#[derive(Debug, Clone)]
pub struct JournalEntry {
    pub tweak: String,
    /// Unix-Zeit in Sekunden.
    pub timestamp: u64,
    /// Wurde der Tweak ein- oder ausgeschaltet?
    pub enabled: bool,
    pub before: Vec<Snapshot>,
}

/// Die Stelle des jüngsten Eintrags eines Tweaks: der mit dem größten
/// Zeitstempel, bei gleichem der spätere.
pub open spec fn juengster(j: Seq<JournalEntry>, tweak: Seq<char>) -> Option<int>
    decreases j.len(),
{
    if j.len() == 0 {
        None
    } else {
        let b = juengster(j.drop_last(), tweak);
        let e = j.last();
        if e.tweak@ == tweak && (match b {
            None => true,
            Some(k) => e.timestamp >= j[k].timestamp,
        }) {
            Some(j.len() - 1)
        } else {
            b
        }
    }
}

proof fn lemma_juengster(j: Seq<JournalEntry>, tweak: Seq<char>)
    ensures
        juengster(j, tweak) matches Some(k) ==> 0 <= k < j.len() && j[k].tweak@ == tweak
            && forall|m: int| 0 <= m < j.len() && j[m].tweak@ == tweak ==> j[m].timestamp <= j[k].timestamp,
        juengster(j, tweak) is None ==> forall|m: int| 0 <= m < j.len() ==> j[m].tweak@ != tweak,
    decreases j.len(),
{
    if j.len() > 0 {
        let d = j.drop_last();
        lemma_juengster(d, tweak);
        assert forall|m: int| 0 <= m < d.len() implies d[m] == j[m] by {}
    }
}

/// Den jüngsten Journaleintrag eines Tweaks finden.
pub fn letzter_eintrag<'a>(journal: &'a [JournalEntry], tweak: &str) -> (r: Option<&'a JournalEntry>)
    ensures
        r is None <==> juengster(journal@, tweak@) is None,
        r matches Some(e) ==> juengster(journal@, tweak@) matches Some(k) && *e == journal@[k],
{
    match stelle_des_juengsten(journal, tweak) {
        Some(k) => Some(&journal[k]),
        None => None,
    }
}

fn stelle_des_juengsten(journal: &[JournalEntry], tweak: &str) -> (r: Option<usize>)
    ensures
        r is None <==> juengster(journal@, tweak@) is None,
        r matches Some(k) ==> juengster(journal@, tweak@) == Some(k as int) && k < journal@.len(),
{
    let mut beste: Option<usize> = None;
    let mut i: usize = 0;
    while i < journal.len()
        invariant
            i <= journal@.len(),
            beste is None <==> juengster(journal@.subrange(0, i as int), tweak@) is None,
            beste matches Some(k) ==> juengster(journal@.subrange(0, i as int), tweak@) == Some(k as int) && k < i,
        decreases journal@.len() - i,
    {
        let ghost t = journal@.subrange(0, i + 1);
        assert(t.drop_last() =~= journal@.subrange(0, i as int));
        let e = &journal[i];
        if gleich(e.tweak.as_str(), tweak) {
            let neuer = match beste {
                None => true,
                Some(k) => e.timestamp >= journal[k].timestamp,
            };
            if neuer {
                beste = Some(i);
            }
        }
        i = i + 1;
    }
    assert(journal@.subrange(0, i as int) =~= journal@);
    beste
}

/// Das Journal nach einem neuen Eintrag: angehängt, und es wachsen nicht
/// über die Grenze – die ältesten Einträge fallen heraus.
pub open spec fn ergaenzt(j: Seq<JournalEntry>, e: JournalEntry) -> Seq<JournalEntry> {
    let neu = j.push(e);
    if neu.len() > JOURNAL_GRENZE {
        neu.subrange(neu.len() - JOURNAL_GRENZE, neu.len() as int)
    } else {
        neu
    }
}

/// Einen Eintrag anhängen; das Journal darf nicht unbegrenzt wachsen.
pub fn journal_ergaenzen(journal: &mut Vec<JournalEntry>, eintrag: JournalEntry)
    ensures
        final(journal)@ == ergaenzt(old(journal)@, eintrag),
{
    journal.push(eintrag);
    let ghost neu = journal@;
    let gesamt = journal.len();
    let mut weg: usize = 0;
    while journal.len() > JOURNAL_GRENZE
        invariant
            neu.len() == gesamt,
            neu.len() >= weg,
            journal@ == neu.subrange(weg as int, neu.len() as int),
            weg > 0 ==> neu.len() - weg >= JOURNAL_GRENZE,
        decreases journal@.len(),
    {
        journal.remove(0);
        weg = weg + 1;
    }
    assert(neu.subrange(0, neu.len() as int) =~= neu);
}

/// Ein Tweak, der ohne Administratorrechte nicht geht, scheitert ohne sie.
pub open spec fn ablehnung(key: Seq<char>, admin: bool) -> Option<Seq<char>> {
    match tweakzeile_ab(schluesselform(key), 0) {
        None => Some("Unbekannter Tweak: "@ + key),
        Some(i) => if TWEAK_TABELLE[i].2 && !admin {
            Some("tweak.needs_admin"@)
        } else {
            None
        },
    }
}

/// Den Tweak zu einem Schlüssel holen, wenn er ausgeführt werden darf.
fn freigegeben(key: &str, admin: bool) -> (r: Result<Tweak, String>)
    ensures
        r is Err <==> ablehnung(key@, admin) is Some,
        r matches Err(e) ==> ablehnung(key@, admin) == Some(e@),
        r matches Ok(t) ==> tweakzeile_ab(schluesselform(key@), 0) matches Some(i) && tweak_passt(t, i),
{
    proof {
        reveal_strlit("");
    }
    let tweak = match tweak_by_key(key) {
        None => {
            let e = verkettet("Unbekannter Tweak: ", key, "");
            assert(e@ =~= "Unbekannter Tweak: "@ + key@);
            return Err(e);
        },
        Some(t) => t,
    };
    if tweak.requires_admin && !admin {
        return Err(text_von("tweak.needs_admin"));
    }
    Ok(tweak)
}

/// Einen Tweak setzen und den Vorzustand im Journal ablegen.
///
/// Ein unbekannter Schlüssel und fehlende Administratorrechte werden vorher
/// abgelehnt. Die Registry gibt es nur unter Windows: anderswo scheitert das
/// Setzen, und das Journal bleibt unberührt.
pub fn anwenden(key: &str, ein: bool, _config_dir: &str) -> (r: Result<TweakState, String>)
    ensures
        r matches Err(e) && e@ == (match ablehnung(key@, false) {
            Some(g) => g,
            None => "Tweaks gibt es nur unter Windows"@,
        }),
{
    proof {
        reveal_strlit("");
    }
    let admin = runtime::is_admin();
    let tweak = match freigegeben(key, admin) {
        Err(e) => {
            assert(e@ =~= ablehnung(key@, false)->0);
            return Err(e);
        },
        Ok(t) => t,
    };
    match setze(&tweak, ein) {
        Err(e) => Err(e),
        Ok(_) => Ok(zustand(&tweak)),
    }
}

/// Was das Zurücknehmen eines Tweaks bewirkt: der jüngste Journaleintrag des
/// Tweaks wird wiederhergestellt und mit allen Einträgen desselben Tweaks
/// und Zeitstempels aus dem Journal entfernt, damit ein zweites
/// Zurücknehmen nicht denselben Zustand erneut schreibt.
pub open spec fn bleibt(e: JournalEntry, weg: JournalEntry) -> bool {
    !(e.tweak@ == weg.tweak@ && e.timestamp == weg.timestamp)
}

/// Das Journal ohne die Einträge, die wie `weg` heißen und datiert sind.
pub open spec fn ohne_eintrag(j: Seq<JournalEntry>, weg: JournalEntry) -> Seq<JournalEntry>
    decreases j.len(),
{
    if j.len() == 0 {
        seq![]
    } else {
        let v = ohne_eintrag(j.drop_last(), weg);
        if bleibt(j.last(), weg) { v.push(j.last()) } else { v }
    }
}

/// Das Zurücknehmen planen: welcher Eintrag wiederherzustellen ist und wie
/// das Journal danach aussieht.
///
/// Abgelehnt wird ein unbekannter Tweak, ein Tweak ohne die nötigen Rechte
/// und ein Tweak ohne Journaleintrag (`tweak.no_journal`).
pub fn zuruecknehmen_planen(key: &str, journal: Vec<JournalEntry>, admin: bool)
    -> (r: Result<(JournalEntry, Vec<JournalEntry>), String>)
    ensures
        ablehnung(key@, admin) matches Some(g) ==> r matches Err(e) && e@ == g,
        ablehnung(key@, admin) is None ==> match tweakzeile_ab(schluesselform(key@), 0) {
            Some(i) => match juengster(journal@, TWEAK_TABELLE[i].0@) {
                None => r matches Err(e) && e@ == "tweak.no_journal"@,
                Some(k) => r matches Ok((e, rest)) && e == journal@[k]
                    && rest@ == ohne_eintrag(journal@, journal@[k]),
            },
            None => false,
        },
{
    let tweak = match freigegeben(key, admin) {
        Err(e) => {
            return Err(e);
        },
        Ok(t) => t,
    };
    let k = match stelle_des_juengsten(&journal, tweak.key) {
        None => {
            return Err(text_von("tweak.no_journal"));
        },
        Some(k) => k,
    };
    let ghost alt = journal@;
    let weg_tweak = text_von(journal[k].tweak.as_str());
    let weg_zeit = journal[k].timestamp;
    let mut journal = journal;
    let mut rest: Vec<JournalEntry> = Vec::new();
    let mut gewaehlt: Option<JournalEntry> = None;
    let mut i: usize = 0;
    let n = journal.len();
    // Der Reihe nach entnehmen; der gewählte Eintrag wird zurückgegeben, alle
    // gleich benannten und datierten fallen heraus.
    while i < n
        invariant
            n == alt.len(),
            i <= n,
            k < n,
            weg_tweak@ == alt[k as int].tweak@,
            weg_zeit == alt[k as int].timestamp,
            journal@ == alt.subrange(i as int, n as int),
            rest@ == ohne_eintrag(alt.subrange(0, i as int), alt[k as int]),
            i > k ==> gewaehlt == Some(alt[k as int]),
        decreases n - i,
    {
        let ghost vorher = alt.subrange(0, i + 1);
        assert(vorher.drop_last() =~= alt.subrange(0, i as int));
        let e = journal.remove(0);
        assert(e == alt[i as int]);
        assert(journal@ =~= alt.subrange(i + 1, n as int));
        let gleich_benannt = gleich(e.tweak.as_str(), weg_tweak.as_str()) && e.timestamp == weg_zeit;
        if gleich_benannt {
            if i == k {
                gewaehlt = Some(e);
            }
        } else {
            rest.push(e);
        }
        i = i + 1;
    }
    assert(alt.subrange(0, n as int) =~= alt);
    match gewaehlt {
        Some(e) => Ok((e, rest)),
        None => Err(text_von("tweak.no_journal")),
    }
}

// ---------------------------------------------------------------------------
// Gesetze des Katalogs
// ---------------------------------------------------------------------------

/// Jede Zeilennummer des Katalogs ist eine der bekannten.
proof fn lemma_tweakzeile(i: int)
    requires
        0 <= i < ANZAHL_TWEAKS,
    ensures
        i == 0 || i == 1 || i == 2 || i == 3 || i == 4 || i == 5 || i == 6 || i == 7 || i == 8 || i == 9 || i == 10 || i == 11 || i == 12 || i == 13 || i == 14 || i == 15 || i == 16 || i == 17 || i == 18,
{
}

/// Kein Schlüssel kommt zweimal vor.
pub proof fn tweak_schluessel_sind_eindeutig(i: int, j: int)
    requires
        0 <= i < j < ANZAHL_TWEAKS,
    ensures
        TWEAK_TABELLE[i].0@ != TWEAK_TABELLE[j].0@,
{
    reveal_strlit("privacy.advertising_id");
    reveal_strlit("privacy.tailored");
    reveal_strlit("privacy.app_tracking");
    reveal_strlit("privacy.input_telemetry");
    reveal_strlit("privacy.feedback");
    reveal_strlit("privacy.suggested_apps");
    reveal_strlit("explorer.file_extensions");
    reveal_strlit("explorer.hidden_files");
    reveal_strlit("explorer.classic_menu");
    reveal_strlit("explorer.launch_to_pc");
    reveal_strlit("explorer.end_task");
    reveal_strlit("taskbar.align_left");
    reveal_strlit("taskbar.hide_search");
    reveal_strlit("taskbar.hide_taskview");
    reveal_strlit("taskbar.no_bing");
    reveal_strlit("performance.game_dvr");
    reveal_strlit("performance.fast_startup");
    reveal_strlit("system.long_paths");
    reveal_strlit("system.verbose_status");
    lemma_tweakzeile(i);
    lemma_tweakzeile(j);
    let a = TWEAK_TABELLE[i].0@;
    let b = TWEAK_TABELLE[j].0@;
    if a == b {
        assert(a.len() == b.len() && a[0] == b[0] && a[1] == b[1] && a[2] == b[2] && a[3] == b[3] && a[4] == b[4] && a[5] == b[5] && a[6] == b[6] && a[7] == b[7] && a[8] == b[8] && a[9] == b[9] && a[10] == b[10] && a[11] == b[11]);
    }
}

/// Jeder Tweak ändert etwas: „an" und „aus" unterscheiden sich, und er
/// schreibt nur nach `HKCU` oder `HKLM`.
pub proof fn jeder_tweak_aendert_etwas(i: int)
    requires
        0 <= i < ANZAHL_TWEAKS,
    ensures
        regwert(i).on != regwert(i).off,
        regwert(i).hive@ == "HKCU"@ || regwert(i).hive@ == "HKLM"@,
{
    lemma_tweakzeile(i);
}

/// Administratorrechte verlangt genau, wer nach `HKLM` schreibt.
pub proof fn adminrechte_genau_fuer_hklm(i: int)
    requires
        0 <= i < ANZAHL_TWEAKS,
    ensures
        TWEAK_TABELLE[i].2 <==> regwert(i).hive@ == "HKLM"@,
{
    reveal_strlit("HKCU");
    reveal_strlit("HKLM");
    lemma_tweakzeile(i);
    assert("HKCU"@[2] != "HKLM"@[2]);
}

/// Jede Gruppe hat Tweaks.
pub proof fn jede_gruppe_hat_tweaks(g: TweakGroup)
    ensures
        exists|i: int| 0 <= i < ANZAHL_TWEAKS && #[trigger] TWEAK_TABELLE[i].1 == g,
{
    match g {
        TweakGroup::Privacy => assert(TWEAK_TABELLE[0].1 == g),
        TweakGroup::Explorer => assert(TWEAK_TABELLE[6].1 == g),
        TweakGroup::Taskbar => assert(TWEAK_TABELLE[11].1 == g),
        TweakGroup::Performance => assert(TWEAK_TABELLE[15].1 == g),
        TweakGroup::System => assert(TWEAK_TABELLE[17].1 == g),
    }
}

/// Das Journal wächst nie über die Grenze, und der neue Eintrag steht
/// zuletzt.
pub proof fn journal_bleibt_begrenzt(j: Seq<JournalEntry>, e: JournalEntry)
    ensures
        ergaenzt(j, e).len() <= JOURNAL_GRENZE,
        ergaenzt(j, e).len() == (if j.len() + 1 > JOURNAL_GRENZE { JOURNAL_GRENZE as int } else { j.len() + 1int }),
        ergaenzt(j, e).last() == e,
{
}

/// Nach dem Zurücknehmen steht kein Eintrag desselben Tweaks und
/// Zeitstempels mehr im Journal: ein zweites Zurücknehmen schreibt nicht
/// denselben Zustand erneut.
pub proof fn zuruecknehmen_verbraucht_den_eintrag(j: Seq<JournalEntry>, weg: JournalEntry)
    ensures
        forall|m: int| 0 <= m < ohne_eintrag(j, weg).len() ==> bleibt(#[trigger] ohne_eintrag(j, weg)[m], weg),
        forall|m: int| 0 <= m < ohne_eintrag(j, weg).len() ==> j.contains(#[trigger] ohne_eintrag(j, weg)[m]),
    decreases j.len(),
{
    if j.len() > 0 {
        let d = j.drop_last();
        zuruecknehmen_verbraucht_den_eintrag(d, weg);
        let v = ohne_eintrag(d, weg);
        assert forall|m: int| 0 <= m < ohne_eintrag(j, weg).len() implies j.contains(#[trigger] ohne_eintrag(j, weg)[m]) by {
            if m < v.len() {
                assert(d.contains(v[m]));
                let k = choose|k: int| 0 <= k < d.len() && d[k] == v[m];
                assert(j[k] == d[k]);
            } else {
                assert(j[j.len() - 1] == j.last());
            }
        }
    }
}

// ---------------------------------------------------------------------------
// Anzeige
// ---------------------------------------------------------------------------

/// Der angezeigte Zustand: Aktiv, Inaktiv, Teilweise.
pub open spec fn zustandsname_spec(z: TweakState) -> Seq<char> {
    match z {
        TweakState::On => "Aktiv"@,
        TweakState::Off => "Inaktiv"@,
        TweakState::Mixed => "Teilweise"@,
    }
}

/// Anzeigename eines Zustands.
pub fn zustandsname(z: TweakState) -> (r: &'static str)
    ensures
        r@ == zustandsname_spec(z),
{
    match z {
        TweakState::On => "Aktiv",
        TweakState::Off => "Inaktiv",
        TweakState::Mixed => "Teilweise",
    }
}

/// Warum ein Punkt auf diesem System nicht wie angezeigt wirkt: wirkungslos
/// (etwa ein Windows-11-Punkt unter Windows 10), von einer Richtlinie
/// überlagert, beides – oder leer.
pub open spec fn statushinweis_spec(unsupported: bool, managed: bool) -> Seq<char> {
    if unsupported && managed {
        "wirkungslos auf diesem System, von einer Richtlinie überlagert"@
    } else if unsupported {
        "wirkungslos auf diesem System"@
    } else if managed {
        "von einer Richtlinie überlagert"@
    } else {
        ""@
    }
}

/// Hinweis zum Zustand eines Punkts.
pub fn statushinweis(s: &TweakStatus) -> (r: &'static str)
    ensures
        r@ == statushinweis_spec(s.unsupported, s.managed),
{
    if s.unsupported && s.managed {
        "wirkungslos auf diesem System, von einer Richtlinie überlagert"
    } else if s.unsupported {
        "wirkungslos auf diesem System"
    } else if s.managed {
        "von einer Richtlinie überlagert"
    } else {
        ""
    }
}


// ---------------------------------------------------------------------------
// Bewusst nicht angeboten
// ---------------------------------------------------------------------------

/// Registry-Bereiche, deren Veränderung nachweislich Systeme beschädigt hat.
pub const SCHADENSBEREICHE: [&'static str; 5] = ["WindowsUpdate", "Windows Defender", "Services", "BitLocker", "Winlogon"];

/// Der Pfad enthält weder `U` noch `B` noch die Paare `ef`, `vi`, `nl` – je
/// eines davon steckt in jedem der Schadensbereiche.
spec fn ohne_schadenszeichen(p: Seq<char>) -> bool {
    forall|i: int| 0 <= i < p.len() ==> {
        &&& #[trigger] p[i] != 'U'
        &&& p[i] != 'B'
        &&& (i + 1 < p.len() ==> !(p[i] == 'e' && p[i + 1] == 'f'))
        &&& (i + 1 < p.len() ==> !(p[i] == 'v' && p[i + 1] == 'i'))
        &&& (i + 1 < p.len() ==> !(p[i] == 'n' && p[i + 1] == 'l'))
    }
}

/// Steht `w` in `p`, dann steht jedes Zeichen von `w` an seiner Stelle in `p`.
proof fn lemma_enthalten_heisst_zeichen(p: Seq<char>, w: Seq<char>) -> (j: int)
    requires
        zeichen::enthaelt(p, w),
    ensures
        0 <= j,
        j + w.len() <= p.len(),
        forall|k: int| 0 <= k < w.len() ==> #[trigger] p[j + k] == w[k],
{
    zeichen::lemma_stelle_ab(p, w, 0);
    let j = zeichen::stelle_ab(p, w, 0)->0;
    assert forall|k: int| 0 <= k < w.len() implies #[trigger] p[j + k] == w[k] by {
        assert(p.subrange(j, j + w.len())[k] == p[j + k]);
    }
    j
}

proof fn lemma_kein_schadensbereich(p: Seq<char>, v: int)
    requires
        ohne_schadenszeichen(p),
        0 <= v < 5,
    ensures
        !zeichen::enthaelt(p, SCHADENSBEREICHE[v]@),
{
    let w = SCHADENSBEREICHE[v]@;
    reveal_strlit("WindowsUpdate");
    reveal_strlit("Windows Defender");
    reveal_strlit("Services");
    reveal_strlit("BitLocker");
    reveal_strlit("Winlogon");
    if zeichen::enthaelt(p, w) {
        let j = lemma_enthalten_heisst_zeichen(p, w);
        if v == 0 {
            assert(p[j + 7] == 'U');
        } else if v == 1 {
            assert(p[j + 9] == 'e' && p[j + 10] == 'f');
        } else if v == 2 {
            assert(p[j + 3] == 'v' && p[j + 4] == 'i');
        } else if v == 3 {
            assert(p[j + 0] == 'B');
        } else {
            assert(p[j + 2] == 'n' && p[j + 3] == 'l');
        }
    }
}

/// Kein Tweak fasst einen der Schadensbereiche an: Windows Update,
/// Defender, Dienste, BitLocker und die Anmeldung bleiben unberührt.
pub proof fn gefaehrliche_bereiche_werden_nicht_angefasst(i: int, v: int)
    requires
        0 <= i < ANZAHL_TWEAKS,
        0 <= v < 5,
    ensures
        !zeichen::enthaelt(regwert(i).path@, SCHADENSBEREICHE[v]@),
{
    reveal_strlit("Software\\Microsoft\\Windows\\CurrentVersion\\AdvertisingInfo");
    assert(ohne_schadenszeichen("Software\\Microsoft\\Windows\\CurrentVersion\\AdvertisingInfo"@));
    reveal_strlit("Software\\Microsoft\\Windows\\CurrentVersion\\Privacy");
    assert(ohne_schadenszeichen("Software\\Microsoft\\Windows\\CurrentVersion\\Privacy"@));
    reveal_strlit("Software\\Microsoft\\Windows\\CurrentVersion\\Explorer\\Advanced");
    assert(ohne_schadenszeichen("Software\\Microsoft\\Windows\\CurrentVersion\\Explorer\\Advanced"@));
    reveal_strlit("Software\\Microsoft\\Input\\TIPC");
    assert(ohne_schadenszeichen("Software\\Microsoft\\Input\\TIPC"@));
    reveal_strlit("Software\\Microsoft\\Siuf\\Rules");
    assert(ohne_schadenszeichen("Software\\Microsoft\\Siuf\\Rules"@));
    reveal_strlit("SOFTWARE\\Policies\\Microsoft\\Windows\\CloudContent");
    assert(ohne_schadenszeichen("SOFTWARE\\Policies\\Microsoft\\Windows\\CloudContent"@));
    reveal_strlit("Software\\Classes\\CLSID\\{86ca1aa0-34aa-4e8b-a509-50c905bae2a2}\\InprocServer32");
    assert(ohne_schadenszeichen("Software\\Classes\\CLSID\\{86ca1aa0-34aa-4e8b-a509-50c905bae2a2}\\InprocServer32"@));
    reveal_strlit("Software\\Microsoft\\Windows\\CurrentVersion\\Explorer\\Advanced\\TaskbarDeveloperSettings");
    assert(ohne_schadenszeichen("Software\\Microsoft\\Windows\\CurrentVersion\\Explorer\\Advanced\\TaskbarDeveloperSettings"@));
    reveal_strlit("Software\\Microsoft\\Windows\\CurrentVersion\\Search");
    assert(ohne_schadenszeichen("Software\\Microsoft\\Windows\\CurrentVersion\\Search"@));
    reveal_strlit("System\\GameConfigStore");
    assert(ohne_schadenszeichen("System\\GameConfigStore"@));
    reveal_strlit("SYSTEM\\CurrentControlSet\\Control\\Session Manager\\Power");
    assert(ohne_schadenszeichen("SYSTEM\\CurrentControlSet\\Control\\Session Manager\\Power"@));
    reveal_strlit("SYSTEM\\CurrentControlSet\\Control\\FileSystem");
    assert(ohne_schadenszeichen("SYSTEM\\CurrentControlSet\\Control\\FileSystem"@));
    reveal_strlit("SOFTWARE\\Microsoft\\Windows\\CurrentVersion\\Policies\\System");
    assert(ohne_schadenszeichen("SOFTWARE\\Microsoft\\Windows\\CurrentVersion\\Policies\\System"@));
    lemma_tweakzeile(i);
    lemma_kein_schadensbereich(regwert(i).path@, v);
}

} // verus!
