//! Datentypen der Reinigungs-Engine.
//!
//! Die Engine arbeitet zweistufig: erst die **Analyse** ([`ScanReport`]), die
//! nichts verändert, dann die **Bereinigung** ([`CleanReport`]) dessen, was der
//! Nutzer aus dem Analyseergebnis ausgewählt hat.

use vstd::prelude::*;
use crate::zeichen;
use crate::zeichen::{enthaelt_folge, klein_von, verkettet, zeichen_von};

verus! {

/// Oberkategorie eines Reinigungsziels. Bestimmt die Gruppierung in UI und CLI.
#[derive(Debug, Clone, Copy, PartialEq, Eq, Structural, PartialOrd, Ord, Hash)]
pub enum Category {
    /// Windows selbst: Temp, Prefetch, Update-Cache, Absturzberichte …
    System,
    /// Browser-Caches und -Daten.
    Browsers,
    /// Caches einzelner Anwendungen.
    Apps,
    /// Gefundene Installationsdateien – werden nur vorgeschlagen.
    Installers,
    /// Papierkorb.
    RecycleBin,
    /// Registry-Einträge.
    Registry,
}

/// Der stabile Schlüssel einer Kategorie.
pub open spec fn kategorie_schluessel(c: Category) -> Seq<char> {
    match c {
        Category::System => "system"@,
        Category::Browsers => "browsers"@,
        Category::Apps => "apps"@,
        Category::Installers => "installers"@,
        Category::RecycleBin => "recyclebin"@,
        Category::Registry => "registry"@,
    }
}

impl Category {
    /// Alle Kategorien in Anzeigereihenfolge.
    pub const ALL: [Category; 6] = [
        Category::System,
        Category::Browsers,
        Category::Apps,
        Category::Installers,
        Category::RecycleBin,
        Category::Registry,
    ];

    pub fn key(self) -> (r: &'static str)
        ensures
            r@ == kategorie_schluessel(self),
    {
        match self {
            Category::System => "system",
            Category::Browsers => "browsers",
            Category::Apps => "apps",
            Category::Installers => "installers",
            Category::RecycleBin => "recyclebin",
            Category::Registry => "registry",
        }
    }

    /// Übersetzungsschlüssel des Anzeigenamens.
    pub fn i18n_key(self) -> (r: String)
        ensures
            r@ == "category."@ + kategorie_schluessel(self),
    {
        proof {
            reveal_strlit("");
        }
        let r = verkettet("category.", self.key(), "");
        assert(r@ =~= "category."@ + kategorie_schluessel(self));
        r
    }
}

/// Jede Kategorie steht genau einmal in [`Category::ALL`], und verschiedene
/// Kategorien haben verschiedene Schlüssel.
pub proof fn kategorien_sind_vollstaendig_und_eindeutig(a: Category, b: Category)
    ensures
        exists|i: int| 0 <= i < 6 && Category::ALL[i] == a,
        kategorie_schluessel(a) == kategorie_schluessel(b) ==> a == b,
{
    reveal_strlit("system");
    reveal_strlit("browsers");
    reveal_strlit("apps");
    reveal_strlit("installers");
    reveal_strlit("recyclebin");
    reveal_strlit("registry");
    match a {
        Category::System => assert(Category::ALL[0] == a),
        Category::Browsers => assert(Category::ALL[1] == a),
        Category::Apps => assert(Category::ALL[2] == a),
        Category::Installers => assert(Category::ALL[3] == a),
        Category::RecycleBin => assert(Category::ALL[4] == a),
        Category::Registry => assert(Category::ALL[5] == a),
    }
    if kategorie_schluessel(a) == kategorie_schluessel(b) && a != b {
        assert(kategorie_schluessel(a).len() != kategorie_schluessel(b).len()
            || kategorie_schluessel(a)[0] != kategorie_schluessel(b)[0]
            || kategorie_schluessel(a)[1] != kategorie_schluessel(b)[1]);
    }
}

/// Risikostufe eines Ziels. Steuert Vorauswahl und Warnhinweise.
#[derive(Debug, Clone, Copy, PartialEq, Eq, Structural, PartialOrd, Ord, Hash)]
pub enum Risk {
    /// Reiner Cache. Wird vom System bei Bedarf neu erzeugt.
    Safe,
    /// Spürbare Nebenwirkung (Abmeldungen, längere Startzeiten, Verlauf weg).
    Notice,
    /// Datenverlust möglich. Niemals vorausgewählt.
    Caution,
}

/// Der stabile Schlüssel einer Risikostufe.
pub open spec fn risiko_schluessel(r: Risk) -> Seq<char> {
    match r {
        Risk::Safe => "safe"@,
        Risk::Notice => "notice"@,
        Risk::Caution => "caution"@,
    }
}

impl Risk {
    pub fn key(self) -> (r: &'static str)
        ensures
            r@ == risiko_schluessel(self),
    {
        match self {
            Risk::Safe => "safe",
            Risk::Notice => "notice",
            Risk::Caution => "caution",
        }
    }
}

/// Was beim Löschen eines Dateiziels passieren soll.
#[derive(Debug, Clone)]
pub struct FileRule {
    /// Glob-Muster mit `%VAR%`-Platzhaltern. `*` gilt je Pfadsegment,
    /// `**` steigt rekursiv ab.
    pub pattern: &'static str,
    /// Nur Einträge löschen, die mindestens so alt sind (0 = egal).
    pub min_age_days: u32,
    /// Teilzeichenketten, die einen Treffer ausschließen (ohne Groß-/
    /// Kleinschreibung).
    pub exclude: Vec<&'static str>,
}

/// `pfad` enthält – ohne Groß-/Kleinschreibung – eines der Muster.
pub open spec fn ausgeschlossen(muster: Seq<&'static str>, pfad: Seq<char>) -> bool {
    exists|i: int| 0 <= i < muster.len() && zeichen::enthaelt(zeichen::klein_folge(pfad), zeichen::klein_folge(#[trigger] muster[i]@))
}

impl FileRule {
    pub fn new(pattern: &'static str) -> (r: Self)
        ensures
            r.pattern == pattern,
            r.min_age_days == 0,
            r.exclude@.len() == 0,
    {
        FileRule { pattern, min_age_days: 0, exclude: Vec::new() }
    }

    pub fn older_than(self, tage: u32) -> (r: Self)
        ensures
            r == (FileRule { min_age_days: tage, ..self }),
    {
        FileRule { min_age_days: tage, ..self }
    }

    pub fn excluding(self, muster: &[&'static str]) -> (r: Self)
        ensures
            r.pattern == self.pattern,
            r.min_age_days == self.min_age_days,
            r.exclude@ == muster@,
    {
        let mut exclude: Vec<&'static str> = Vec::new();
        let mut i: usize = 0;
        while i < muster.len()
            invariant
                i <= muster@.len(),
                exclude@ == muster@.subrange(0, i as int),
            decreases muster@.len() - i,
        {
            exclude.push(muster[i]);
            i = i + 1;
            assert(exclude@ =~= muster@.subrange(0, i as int));
        }
        assert(muster@.subrange(0, i as int) =~= muster@);
        FileRule { exclude, ..self }
    }

    /// `true`, wenn der Pfad durch [`FileRule::exclude`] geschützt ist.
    pub fn is_excluded(&self, pfad: &str) -> (r: bool)
        ensures
            r == ausgeschlossen(self.exclude@, pfad@),
    {
        if self.exclude.len() == 0 {
            return false;
        }
        let klein = klein_von(&zeichen_von(pfad));
        let mut i: usize = 0;
        while i < self.exclude.len()
            invariant
                i <= self.exclude@.len(),
                klein@ == zeichen::klein_folge(pfad@),
                forall|k: int| 0 <= k < i ==> !zeichen::enthaelt(zeichen::klein_folge(pfad@), zeichen::klein_folge(#[trigger] self.exclude@[k]@)),
            decreases self.exclude@.len() - i,
        {
            let muster = klein_von(&zeichen_von(self.exclude[i]));
            if enthaelt_folge(&klein, &muster) {
                return true;
            }
            i = i + 1;
        }
        false
    }
}

/// Wie ein Registry-Eintrag auf Gültigkeit geprüft wird.
#[derive(Debug, Clone, Copy, PartialEq, Eq)]
pub enum RegistryCheck {
    /// Der **Wertname** ist ein Dateipfad.
    ValueNameIsPath,
    /// Der **Wert** enthält einen Dateipfad (ggf. mit Argumenten).
    ValueIsPath { value: &'static str },
    /// Unterschlüssel, dessen Standardwert auf eine ProgID zeigt, die in
    /// HKCR nicht existiert.
    SubkeyProgId,
    /// Uninstall-Eintrag, dessen Zielprogramm fehlt.
    UninstallEntry,
}

/// Registry-Prüfung: welcher Schlüssel wird wie auf Verwaisung geprüft.
#[derive(Debug, Clone, Copy)]
pub struct RegistryRule {
    /// Wurzel: `"HKCU"`, `"HKLM"` oder `"HKCR"`.
    pub hive: &'static str,
    /// Unterschlüssel.
    pub path: &'static str,
    /// Art der Verwaisungsprüfung.
    pub check: RegistryCheck,
}

/// Art des Ziels.
#[derive(Debug, Clone)]
pub enum TargetKind {
    /// Dateien und Ordner nach Glob-Regeln.
    Files(Vec<FileRule>),
    /// Papierkorb aller Laufwerke.
    RecycleBin,
    /// Externer Befehl ohne Shell (z. B. `ipconfig /flushdns`).
    Command(Vec<&'static str>),
    /// Suche nach Installationsdateien in den üblichen Ablageorten.
    Installers,
    /// Registry-Prüfungen.
    Registry(Vec<RegistryRule>),
}

/// Konkretes Reinigungsziel. Namen und Beschreibungen stehen im
/// Sprachkatalog unter [`Target::i18n_name`] und [`Target::i18n_description`].
#[derive(Debug, Clone)]
pub struct Target {
    pub key: &'static str,
    pub category: Category,
    pub kind: TargetKind,
    pub risk: Risk,
    /// Ohne Administratorrechte nicht durchführbar.
    pub requires_admin: bool,
    /// Bei einer Standardanalyse vorausgewählt.
    pub default_enabled: bool,
    /// Dienste, die vor dem Löschen gestoppt und danach gestartet werden.
    pub services: Vec<&'static str>,
    /// Prozesse, die das Ziel sperren. Laufen sie, wird gewarnt.
    pub blocking_processes: Vec<&'static str>,
}

/// Nur ein Vorschlag, nie automatisch gelöscht.
pub open spec fn nur_vorschlag(t: Target) -> bool {
    t.kind is Installers
}

impl Target {
    pub fn i18n_name(&self) -> (r: String)
        ensures
            r@ == "target."@ + self.key@ + ".name"@,
    {
        verkettet("target.", self.key, ".name")
    }

    pub fn i18n_description(&self) -> (r: String)
        ensures
            r@ == "target."@ + self.key@ + ".description"@,
    {
        verkettet("target.", self.key, ".description")
    }

    /// `true`, wenn das Ziel ohne ausdrückliche Bestätigung laufen darf.
    pub fn is_safe(&self) -> (r: bool)
        ensures
            r == (self.risk == Risk::Safe && !self.requires_admin),
    {
        self.risk == Risk::Safe && !self.requires_admin
    }

    /// `true`, wenn nur analysiert und vorgeschlagen wird.
    pub fn is_suggestion_only(&self) -> (r: bool)
        ensures
            r == nur_vorschlag(*self),
    {
        match self.kind {
            TargetKind::Installers => true,
            _ => false,
        }
    }
}

/// Ein einzelner gefundener Eintrag.
#[derive(Debug, Clone)]
pub struct ScanItem {
    /// Anzeige- und Löschpfad. Bei Registry-Treffern der Schlüsselpfad.
    pub path: String,
    /// Belegter Platz in Bytes. Registry-Einträge zählen 0.
    pub size: u64,
    /// Zusatzinformation für die UI.
    pub detail: String,
    /// Registry-Wertname, falls ein Wert (nicht ein Schlüssel) entfernt wird.
    pub value_name: Option<String>,
}

impl ScanItem {
    pub fn new(path: &str, size: u64) -> (r: Self)
        ensures
            r.path@ == path@,
            r.size == size,
            r.detail@.len() == 0,
            r.value_name is None,
    {
        ScanItem { path: path.to_owned(), size, detail: String::new(), value_name: None }
    }

    pub fn with_detail(self, detail: &str) -> (r: Self)
        ensures
            r.path == self.path,
            r.size == self.size,
            r.detail@ == detail@,
            r.value_name == self.value_name,
    {
        ScanItem { detail: detail.to_owned(), ..self }
    }
}

/// Ein Eintrag, wie die Oberfläche ihn sieht: Pfad, Größe, Detail und
/// Registry-Wertname.
pub open spec fn sicht(i: ScanItem) -> (Seq<char>, u64, Seq<char>, Option<String>) {
    (i.path@, i.size, i.detail@, i.value_name)
}

pub open spec fn sichten(s: Seq<ScanItem>) -> Seq<(Seq<char>, u64, Seq<char>, Option<String>)> {
    s.map_values(|i: ScanItem| sicht(i))
}

/// Belegter Platz aller Einträge zusammen.
pub open spec fn belegt(s: Seq<ScanItem>) -> nat
    decreases s.len(),
{
    if s.len() == 0 {
        0
    } else {
        (belegt(s.drop_last()) + s.last().size) as nat
    }
}

/// Ein Anfang belegt nie mehr als das Ganze.
pub proof fn lemma_belegt_anfang(s: Seq<ScanItem>, n: int)
    requires
        0 <= n <= s.len(),
    ensures
        belegt(s.subrange(0, n)) <= belegt(s),
    decreases s.len() - n,
{
    if n < s.len() {
        lemma_belegt_anfang(s, n + 1);
        assert(s.subrange(0, n + 1).drop_last() =~= s.subrange(0, n));
    } else {
        assert(s.subrange(0, n) =~= s);
    }
}

/// Belegter Platz aller Einträge zusammen.
pub fn belegt_von(eintraege: &Vec<ScanItem>) -> (r: u64)
    requires
        belegt(eintraege@) <= u64::MAX,
    ensures
        r == belegt(eintraege@),
{
    let mut summe: u64 = 0;
    let mut i: usize = 0;
    while i < eintraege.len()
        invariant
            i <= eintraege@.len(),
            summe == belegt(eintraege@.subrange(0, i as int)),
            belegt(eintraege@) <= u64::MAX,
        decreases eintraege@.len() - i,
    {
        proof {
            assert(eintraege@.subrange(0, i + 1).drop_last() =~= eintraege@.subrange(0, i as int));
            lemma_belegt_anfang(eintraege@, i + 1);
        }
        summe = summe + eintraege[i].size;
        i = i + 1;
    }
    proof {
        assert(eintraege@.subrange(0, i as int) =~= eintraege@);
    }
    summe
}

/// Analyseergebnis eines einzelnen Ziels.
#[derive(Debug, Clone)]
pub struct TargetScan {
    pub key: String,
    pub category: Category,
    pub risk: Risk,
    pub requires_admin: bool,
    pub default_enabled: bool,
    pub suggestion_only: bool,
    /// Anzahl gefundener Einträge.
    pub item_count: usize,
    /// Summe der Größen in Bytes.
    pub size: u64,
    /// Gefundene Einträge; aus Speichergründen begrenzt, `item_count` bleibt vollständig.
    pub items: Vec<ScanItem>,
    /// Ziel konnte nicht analysiert werden.
    pub skipped: bool,
    /// Grund für `skipped` als Übersetzungsschlüssel.
    pub skip_reason: String,
    /// Nicht lesbare Pfade o. Ä. – blockieren die Analyse nicht.
    pub warnings: Vec<String>,
}

impl TargetScan {
    pub fn skipped(target: &Target, reason: &str) -> (r: Self)
        ensures
            r.key@ == target.key@,
            r.category == target.category,
            r.risk == target.risk,
            r.requires_admin == target.requires_admin,
            r.default_enabled == target.default_enabled,
            r.suggestion_only == nur_vorschlag(*target),
            r.item_count == 0,
            r.size == 0,
            r.items@.len() == 0,
            r.skipped,
            r.skip_reason@ == reason@,
            r.warnings@.len() == 0,
    {
        TargetScan {
            key: target.key.to_owned(),
            category: target.category,
            risk: target.risk,
            requires_admin: target.requires_admin,
            default_enabled: target.default_enabled,
            suggestion_only: target.is_suggestion_only(),
            item_count: 0,
            size: 0,
            items: Vec::new(),
            skipped: true,
            skip_reason: reason.to_owned(),
            warnings: Vec::new(),
        }
    }
}

/// Gesamtergebnis der Analyse.
#[derive(Debug, Clone)]
pub struct ScanReport {
    pub targets: Vec<TargetScan>,
    /// Summe über alle Ziele.
    pub total_size: u64,
    pub total_items: usize,
    pub duration_ms: u64,
    /// Analyse wurde vom Nutzer abgebrochen.
    pub cancelled: bool,
}

/// Summe der Größen aller vorausgewählten, nicht übersprungenen Ziele.
pub open spec fn auswahlsumme(s: Seq<TargetScan>) -> nat
    decreases s.len(),
{
    if s.len() == 0 {
        0
    } else {
        let t = s.last();
        auswahlsumme(s.drop_last()) + if t.default_enabled && !t.skipped { t.size as nat } else { 0 }
    }
}

impl ScanReport {
    /// Summe der Ziele, die standardmäßig vorausgewählt sind.
    pub fn selectable_size(&self) -> (r: u64)
        requires
            auswahlsumme(self.targets@) <= u64::MAX,
        ensures
            r == auswahlsumme(self.targets@),
    {
        let mut summe: u64 = 0;
        let mut i: usize = 0;
        while i < self.targets.len()
            invariant
                i <= self.targets@.len(),
                auswahlsumme(self.targets@) <= u64::MAX,
                summe == auswahlsumme(self.targets@.subrange(0, i as int)),
            decreases self.targets@.len() - i,
        {
            proof {
                lemma_auswahlsumme_monoton(self.targets@, i as int + 1);
                assert(self.targets@.subrange(0, i as int + 1).drop_last()
                    =~= self.targets@.subrange(0, i as int));
            }
            let t = &self.targets[i];
            if t.default_enabled && !t.skipped {
                summe = summe + t.size;
            }
            i = i + 1;
        }
        assert(self.targets@.subrange(0, i as int) =~= self.targets@);
        summe
    }
}

/// Ein Anfangsstück hat nie eine größere Auswahlsumme als das Ganze.
pub proof fn lemma_auswahlsumme_monoton(s: Seq<TargetScan>, k: int)
    requires
        0 <= k <= s.len(),
    ensures
        auswahlsumme(s.subrange(0, k)) <= auswahlsumme(s),
    decreases s.len() - k,
{
    if k < s.len() {
        lemma_auswahlsumme_monoton(s, k + 1);
        assert(s.subrange(0, k + 1).drop_last() =~= s.subrange(0, k));
    } else {
        assert(s.subrange(0, k) =~= s);
    }
}

/// Ergebnis der Bereinigung eines Ziels.
#[derive(Debug, Clone)]
pub struct TargetClean {
    pub key: String,
    pub category: Category,
    pub ok: bool,
    pub skipped: bool,
    pub skip_reason: String,
    /// Tatsächlich freigegebene Bytes – gemessen, nicht geschätzt.
    pub freed: u64,
    /// Anzahl entfernter Einträge.
    pub removed_items: usize,
    /// Einträge, die ein laufendes Programm offen hielt.
    pub locked_items: usize,
    /// Einträge, für die die Rechte fehlten.
    pub denied_items: usize,
    /// Einträge, die das System grundsätzlich verweigert.
    pub blocked_items: usize,
    pub errors: Vec<String>,
}

impl TargetClean {
    pub fn skipped(key: &str, category: Category, reason: &str) -> (r: Self)
        ensures
            r.key@ == key@,
            r.category == category,
            r.ok,
            r.skipped,
            r.skip_reason@ == reason@,
            r.freed == 0,
            r.removed_items == 0,
            r.locked_items == 0,
            r.denied_items == 0,
            r.blocked_items == 0,
            r.errors@.len() == 0,
    {
        TargetClean {
            key: key.to_owned(),
            category,
            ok: true,
            skipped: true,
            skip_reason: reason.to_owned(),
            freed: 0,
            removed_items: 0,
            locked_items: 0,
            denied_items: 0,
            blocked_items: 0,
            errors: Vec::new(),
        }
    }
}

/// Gesamtergebnis der Bereinigung.
#[derive(Debug, Clone)]
pub struct CleanReport {
    pub success: bool,
    pub targets: Vec<TargetClean>,
    pub total_freed: u64,
    pub total_removed: usize,
    pub total_locked: usize,
    pub total_denied: usize,
    pub total_blocked: usize,
    pub duration_ms: u64,
    pub cancelled: bool,
    /// Pfad der angelegten Registry-Sicherung, falls Registry bereinigt wurde.
    pub registry_backup: Option<String>,
    pub error: String,
}

/// Auswahl für einen Bereinigungslauf.
#[derive(Debug, Clone)]
pub struct CleanRequest {
    /// Zu bereinigende Zielschlüssel.
    pub targets: Vec<String>,
    /// Nur diese Pfade bereinigen (leer = alle Treffer des Ziels).
    pub only_paths: Vec<String>,
    /// Nichts löschen, nur berichten, was passieren würde.
    pub dry_run: bool,
}

impl Default for CleanRequest {
    fn default() -> (r: Self)
        ensures
            r.targets@.len() == 0,
            r.only_paths@.len() == 0,
            !r.dry_run,
    {
        CleanRequest { targets: Vec::new(), only_paths: Vec::new(), dry_run: false }
    }
}

} // verus!
