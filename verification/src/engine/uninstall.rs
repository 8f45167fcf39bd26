//! Programme auflisten und deinstallieren.
//!
//! Plane startet hier **fremde** Deinstallationsprogramme. Das ist etwas
//! anderes als Dateien zu löschen: der Ausgang liegt nicht in unserer Hand.
//! Deshalb gelten drei Regeln:
//!
//! 1. **Plane deinstalliert nie von selbst.** Jeder Eintrag wird einzeln
//!    bestätigt.
//! 2. **Geschützte Einträge werden gesperrt, nicht versteckt.** Wer sein
//!    Visual C++ Redistributable sucht, soll sehen, *dass* es da ist und
//!    *warum* Plane es nicht anfasst.
//! 3. **Kein Raten bei stillen Schaltern.** Nur `QuietUninstallString` wird
//!    für eine stille Deinstallation verwendet; sonst läuft der Deinstaller
//!    sichtbar.
//!
//! Hier stehen die Regeln: Schutz, Deutung der Registry-Werte und der
//! Store-Ausgabe, Zerlegen der Kommandozeilen, Deutung der Exitcodes. Das
//! Lesen der Registry und das Starten der Deinstaller gehören zur
//! Anwendung, die ihre Werte als einfache Daten hereinreicht.

use vstd::prelude::*;
use crate::zeichen;
use crate::zeichen::{
    beginnt_mit_folge, endet_mit_folge, enthaelt_folge, finde_ab, finde_zeichen, getrimmt_von,
    gleich, klein_von, ohne_rand_von, teilfolge, text_aus, text_von, texte_aus, woerter_von,
    zeichen_von, zerteile,
};

verus! {

// ---------------------------------------------------------------------------
// Datenmodell
// ---------------------------------------------------------------------------

/// Woher ein Eintrag stammt.
#[derive(Debug, Clone, Copy, PartialEq, Eq, Structural)]
pub enum Quelle {
    /// `HKLM\...\Uninstall`, 64-Bit-Sicht.
    Machine,
    /// `HKLM\...\Uninstall`, 32-Bit-Sicht.
    Machine32,
    /// `HKCU\...\Uninstall` – betrifft nur den angemeldeten Nutzer.
    User,
    /// Store-/MSIX-Paket.
    Store,
}

/// Der stabile Schlüssel einer Quelle.
pub open spec fn quellen_schluessel(q: Quelle) -> Seq<char> {
    match q {
        Quelle::Machine => "machine"@,
        Quelle::Machine32 => "machine32"@,
        Quelle::User => "user"@,
        Quelle::Store => "store"@,
    }
}

impl Quelle {
    pub fn key(self) -> (r: &'static str)
        ensures
            r@ == quellen_schluessel(self),
    {
        match self {
            Quelle::Machine => "machine",
            Quelle::Machine32 => "machine32",
            Quelle::User => "user",
            Quelle::Store => "store",
        }
    }
}

/// Ein installiertes Programm.
#[derive(Debug, Clone)]
pub struct Programm {
    /// Registry-Schlüsselname bzw. Paketname – eindeutig je Quelle.
    pub id: String,
    pub name: String,
    pub version: String,
    pub publisher: String,
    /// Installationsdatum als `YYYYMMDD`, falls hinterlegt.
    pub install_date: String,
    /// Geschätzte Größe in Bytes. 0 = unbekannt.
    pub size: u64,
    pub source: Quelle,
    /// Kann Plane den Eintrag entfernen?
    pub removable: bool,
    /// Übersetzungsschlüssel, warum nicht – leer, wenn entfernbar.
    pub protection: String,
    /// Läuft die Deinstallation ohne Dialog?
    pub quiet: bool,
    /// Braucht die Deinstallation Administratorrechte?
    pub requires_admin: bool,
    /// Rohwert von `DisplayIcon` – Quelle für das Programmsymbol.
    pub icon: String,
}

/// Ergebnis einer Deinstallation.
#[derive(Debug, Clone)]
pub struct UninstallResult {
    pub id: String,
    pub name: String,
    pub ok: bool,
    /// Exitcode des Deinstallers; `-1`, wenn keiner ermittelbar war.
    pub exit_code: i32,
    /// Windows verlangt einen Neustart, um fertig zu werden.
    pub reboot_required: bool,
    /// Der Registry-Eintrag ist nach dem Lauf verschwunden.
    pub verified: bool,
    /// Übersetzungsschlüssel der Meldung.
    pub message: String,
}

// ---------------------------------------------------------------------------
// Schutzregeln
// ---------------------------------------------------------------------------

/// Namensmuster, die niemals zur Deinstallation angeboten werden, mit dem
/// Übersetzungsschlüssel des Grundes. Kleingeschrieben; geprüft wird, ob der
/// kleingeschriebene Name das Muster enthält. Das erste passende Muster gilt.
pub const GESCHUETZTE_NAMEN: [(&'static str, &'static str); 16] = [
    ("microsoft visual c++", "uninstall.protected.runtime"),
    ("microsoft .net", "uninstall.protected.runtime"),
    (".net framework", "uninstall.protected.runtime"),
    ("webview2", "uninstall.protected.runtime"),
    ("windows app runtime", "uninstall.protected.runtime"),
    ("windows software development kit", "uninstall.protected.runtime"),
    ("microsoft defender", "uninstall.protected.security"),
    ("windows defender", "uninstall.protected.security"),
    ("security update", "uninstall.protected.update"),
    ("update for windows", "uninstall.protected.update"),
    ("windows-treiberpaket", "uninstall.protected.driver"),
    ("windows driver package", "uninstall.protected.driver"),
    ("chipset", "uninstall.protected.driver"),
    ("graphics driver", "uninstall.protected.driver"),
    ("audio driver", "uninstall.protected.driver"),
    ("plane", "uninstall.protected.self"),
];

/// Herausgeber, deren Treiberpakete geschützt sind.
pub const TREIBER_HERSTELLER: [&'static str; 7] = [
    "intel",
    "nvidia",
    "advanced micro devices",
    "realtek",
    "qualcomm",
    "synaptics",
    "mediatek",
];

/// Store-Pakete, die zur Shell gehören.
pub const GESCHUETZTE_PAKETE: [&'static str; 11] = [
    "microsoft.windowsstore",
    "microsoft.desktopappinstaller",
    "microsoft.ui.xaml",
    "microsoft.vclibs",
    "microsoft.net.native",
    "microsoft.windows.shellexperiencehost",
    "microsoft.windows.startmenuexperiencehost",
    "microsoftwindows.client",
    "microsoft.sechealthui",
    "microsoft.windows.search",
    "windows.immersivecontrolpanel",
];

/// Grund des ersten Namensmusters ab Zeile `i`, das im kleingeschriebenen
/// Namen `kn` vorkommt.
pub open spec fn namensschutz_ab(kn: Seq<char>, i: int) -> Option<Seq<char>>
    decreases 16 - i,
{
    if i < 0 || i >= 16 {
        None
    } else if zeichen::enthaelt(kn, GESCHUETZTE_NAMEN[i].0@) {
        Some(GESCHUETZTE_NAMEN[i].1@)
    } else {
        namensschutz_ab(kn, i + 1)
    }
}

/// Der kleingeschriebene Herausgeber nennt einen Treiberhersteller.
pub open spec fn treiberhersteller(kp: Seq<char>) -> bool {
    exists|h: int| 0 <= h < 7 && zeichen::enthaelt(kp, #[trigger] TREIBER_HERSTELLER[h]@)
}

/// Der kleingeschriebene Paketname enthält ein Shell-Paket.
pub open spec fn shellpaket(kn: Seq<char>) -> bool {
    exists|p: int| 0 <= p < 11 && zeichen::enthaelt(kn, #[trigger] GESCHUETZTE_PAKETE[p]@)
}

/// Der Name bezeichnet einen Treiber.
pub open spec fn treibername(kn: Seq<char>) -> bool {
    zeichen::enthaelt(kn, "driver"@) || zeichen::enthaelt(kn, "treiber"@)
}

/// Warum ein Eintrag nicht entfernt werden darf – `None`, wenn er es darf.
///
/// Store-Pakete sind nur geschützt, wenn sie zur Shell gehören. Sonst gilt
/// das erste passende Namensmuster; Treiberpakete erkennt man erst an
/// Hersteller **und** Name zusammen.
pub open spec fn schutz(name: Seq<char>, publisher: Seq<char>, quelle: Quelle) -> Option<Seq<char>> {
    let kn = zeichen::klein_folge(name);
    if quelle == Quelle::Store {
        if shellpaket(kn) {
            Some("uninstall.protected.system"@)
        } else {
            None
        }
    } else {
        match namensschutz_ab(kn, 0) {
            Some(g) => Some(g),
            None => if treiberhersteller(zeichen::klein_folge(publisher)) && treibername(kn) {
                Some("uninstall.protected.driver"@)
            } else {
                None
            },
        }
    }
}

proof fn lemma_kein_namensmuster(kn: Seq<char>, i: int)
    requires
        0 <= i <= 16,
        forall|j: int| 0 <= j < 16 ==> !zeichen::enthaelt(kn, #[trigger] GESCHUETZTE_NAMEN[j].0@),
    ensures
        namensschutz_ab(kn, i) is None,
    decreases 16 - i,
{
    if i < 16 {
        assert(!zeichen::enthaelt(kn, GESCHUETZTE_NAMEN[i].0@));
        lemma_kein_namensmuster(kn, i + 1);
    }
}

/// Ein Treiberpaket ist nie entfernbar: nennt der kleingeschriebene
/// Herausgeber eines Eintrags, der nicht aus dem Store stammt, einen
/// Treiberhersteller und enthält der kleingeschriebene Name „driver“ oder
/// „treiber“, gibt es einen Schutzgrund. Trifft dabei kein Namensmuster,
/// ist es der Treibergrund.
pub proof fn treiberpakete_sind_geschuetzt(name: Seq<char>, publisher: Seq<char>, quelle: Quelle, h: int)
    requires
        quelle != Quelle::Store,
        0 <= h < 7,
        zeichen::enthaelt(zeichen::klein_folge(publisher), TREIBER_HERSTELLER[h]@),
        zeichen::enthaelt(zeichen::klein_folge(name), "driver"@)
            || zeichen::enthaelt(zeichen::klein_folge(name), "treiber"@),
    ensures
        schutz(name, publisher, quelle) is Some,
        (forall|j: int| 0 <= j < 16 ==> !zeichen::enthaelt(zeichen::klein_folge(name), #[trigger] GESCHUETZTE_NAMEN[j].0@))
            ==> schutz(name, publisher, quelle) == Some("uninstall.protected.driver"@),
{
    assert(zeichen::enthaelt(zeichen::klein_folge(publisher), TREIBER_HERSTELLER[h]@));
    if forall|j: int| 0 <= j < 16 ==> !zeichen::enthaelt(zeichen::klein_folge(name), #[trigger] GESCHUETZTE_NAMEN[j].0@) {
        lemma_kein_namensmuster(zeichen::klein_folge(name), 0);
    }
}

/// Ein Eintrag, dessen kleingeschriebener Name ein geschütztes Namensmuster
/// enthält und der nicht aus dem Store stammt, ist nie entfernbar.
pub proof fn geschuetzte_namen_sind_geschuetzt(name: Seq<char>, publisher: Seq<char>, quelle: Quelle, j: int)
    requires
        quelle != Quelle::Store,
        0 <= j < 16,
        zeichen::enthaelt(zeichen::klein_folge(name), GESCHUETZTE_NAMEN[j].0@),
    ensures
        schutz(name, publisher, quelle) is Some,
{
    lemma_namensmuster_gefunden(zeichen::klein_folge(name), 0, j);
}

/// Store-Pakete sind genau dann geschützt, wenn ihr kleingeschriebener Name
/// ein Shell-Paket enthält; Namensmuster und Treiberregel gelten für sie
/// nicht.
pub proof fn store_pakete_nur_als_shellpaket_geschuetzt(name: Seq<char>, publisher: Seq<char>)
    ensures
        (exists|p: int| 0 <= p < 11 && zeichen::enthaelt(zeichen::klein_folge(name), #[trigger] GESCHUETZTE_PAKETE[p]@))
            ==> schutz(name, publisher, Quelle::Store) == Some("uninstall.protected.system"@),
        (forall|p: int| 0 <= p < 11 ==> !zeichen::enthaelt(zeichen::klein_folge(name), #[trigger] GESCHUETZTE_PAKETE[p]@))
            ==> schutz(name, publisher, Quelle::Store) is None,
{
}

proof fn lemma_namensmuster_gefunden(kn: Seq<char>, i: int, j: int)
    requires
        0 <= i <= j < 16,
        zeichen::enthaelt(kn, GESCHUETZTE_NAMEN[j].0@),
    ensures
        namensschutz_ab(kn, i) is Some,
    decreases j - i,
{
    if i < j && !zeichen::enthaelt(kn, GESCHUETZTE_NAMEN[i].0@) {
        lemma_namensmuster_gefunden(kn, i + 1, j);
    }
}

/// Kommt eines der Muster `tabelle[0..n]` in `kn` vor?
fn kommt_vor(kn: &[char], tabelle: &[&'static str], n: usize) -> (r: bool)
    requires
        n <= tabelle@.len(),
    ensures
        r == exists|i: int| 0 <= i < n && zeichen::enthaelt(kn@, #[trigger] tabelle@[i]@),
{
    let mut i: usize = 0;
    while i < n
        invariant
            n <= tabelle@.len(),
            i <= n,
            forall|k: int| 0 <= k < i ==> !zeichen::enthaelt(kn@, #[trigger] tabelle@[k]@),
        decreases n - i,
    {
        let muster = zeichen_von(tabelle[i]);
        if enthaelt_folge(kn, &muster) {
            return true;
        }
        i = i + 1;
    }
    false
}

/// Prüft einen Eintrag gegen die Schutzregeln.
///
/// Gibt den Übersetzungsschlüssel des Grundes zurück, oder `None`, wenn der
/// Eintrag entfernt werden darf.
pub fn schutzgrund(name: &str, publisher: &str, quelle: Quelle) -> (r: Option<&'static str>)
    ensures
        r is None <==> schutz(name@, publisher@, quelle) is None,
        r matches Some(g) ==> schutz(name@, publisher@, quelle) == Some(g@),
{
    let n = zeichen_von(name);
    let kn = klein_von(&n);

    if quelle == Quelle::Store {
        let pakete = GESCHUETZTE_PAKETE;
        let treffer = kommt_vor(&kn, &pakete, 11);
        assert(treffer == shellpaket(kn@));
        if treffer {
            return Some("uninstall.protected.system");
        }
        return None;
    }

    let namen = GESCHUETZTE_NAMEN;
    let mut i: usize = 0;
    while i < 16
        invariant
            i <= 16,
            namen == GESCHUETZTE_NAMEN,
            quelle != Quelle::Store,
            kn@ == zeichen::klein_folge(name@),
            namensschutz_ab(kn@, 0) == namensschutz_ab(kn@, i as int),
        decreases 16 - i,
    {
        let (muster, grund) = namen[i];
        let m = zeichen_von(muster);
        if enthaelt_folge(&kn, &m) {
            return Some(grund);
        }
        i = i + 1;
    }

    let p = zeichen_von(publisher);
    let kp = klein_von(&p);
    let hersteller = TREIBER_HERSTELLER;
    let vom_hersteller = kommt_vor(&kp, &hersteller, 7);
    assert(vom_hersteller == treiberhersteller(kp@));
    let driver = zeichen_von("driver");
    let treiber = zeichen_von("treiber");
    if vom_hersteller && (enthaelt_folge(&kn, &driver) || enthaelt_folge(&kn, &treiber)) {
        return Some("uninstall.protected.driver");
    }
    None
}

// ---------------------------------------------------------------------------
// Kommandozeilen
// ---------------------------------------------------------------------------

/// Ein Zeichen, das in einer GUID zwischen den Klammern stehen darf.
pub open spec fn guidzeichen(c: char) -> bool {
    ('0' <= c && c <= '9') || ('a' <= c && c <= 'f') || ('A' <= c && c <= 'F') || c == '-'
}

/// `{` + 36 Hexziffern oder Striche + `}`.
pub open spec fn ist_guid(s: Seq<char>) -> bool {
    &&& s.len() == 38
    &&& s[0] == '{'
    &&& s[37] == '}'
    &&& forall|i: int| 1 <= i < 37 ==> guidzeichen(#[trigger] s[i])
}

/// Die MSI-Produkt-GUID: der Schlüsselname, wenn er eine ist; sonst der
/// Abschnitt vom ersten `{` bis zum nächsten `}` der Kommandozeile, wenn er
/// eine ist.
pub open spec fn guid_aus(schluessel: Seq<char>, zeile: Seq<char>) -> Option<Seq<char>> {
    if ist_guid(schluessel) {
        Some(schluessel)
    } else {
        match zeichen::zeichenstelle(zeile, '{') {
            None => None,
            Some(a) => match zeichen::zeichenstelle(zeile.subrange(a, zeile.len() as int), '}') {
                None => None,
                Some(b) => {
                    let k = zeile.subrange(a, a + b + 1);
                    if ist_guid(k) {
                        Some(k)
                    } else {
                        None
                    }
                },
            },
        }
    }
}

fn ist_guid_von(s: &[char]) -> (r: bool)
    ensures
        r == ist_guid(s@),
{
    if s.len() != 38 || s[0] != '{' || s[37] != '}' {
        return false;
    }
    let mut i: usize = 1;
    while i < 37
        invariant
            s@.len() == 38,
            1 <= i <= 37,
            forall|k: int| 1 <= k < i ==> guidzeichen(#[trigger] s@[k]),
        decreases 37 - i,
    {
        let c = s[i];
        if !(('0' <= c && c <= '9') || ('a' <= c && c <= 'f') || ('A' <= c && c <= 'F') || c == '-') {
            return false;
        }
        i = i + 1;
    }
    true
}

/// Eine MSI-Produkt-GUID aus einem Schlüsselnamen oder einer Kommandozeile.
///
/// Bei MSI ist der Registry-Schlüssel die Produkt-GUID – daraus lässt sich der
/// Aufruf sicher rekonstruieren, statt die Zeichenkette zu zerlegen.
pub fn msi_guid(schluessel: &str, uninstall_string: &str) -> (r: Option<String>)
    ensures
        r is None <==> guid_aus(schluessel@, uninstall_string@) is None,
        r matches Some(g) ==> guid_aus(schluessel@, uninstall_string@) == Some(g@),
{
    let k = zeichen_von(schluessel);
    if ist_guid_von(&k) {
        return Some(text_von(schluessel));
    }
    let t = zeichen_von(uninstall_string);
    let start = match finde_zeichen(&t, '{') {
        Some(a) => a,
        None => {
            return None;
        },
    };
    proof {
        zeichen::lemma_stelle_ab(t@, seq!['{'], 0);
    }
    let rest = teilfolge(&t, start, t.len());
    let ende = match finde_zeichen(&rest, '}') {
        Some(b) => b,
        None => {
            return None;
        },
    };
    proof {
        zeichen::lemma_stelle_ab(rest@, seq!['}'], 0);
    }
    let kandidat = teilfolge(&t, start, start + ende + 1);
    if ist_guid_von(&kandidat) {
        Some(text_aus(&kandidat))
    } else {
        None
    }
}

/// Ausführbare Endungen, nach denen eine Kommandozeile ohne
/// Anführungszeichen zerlegt wird – in dieser Reihenfolge.
pub const ENDUNGEN: [&'static str; 4] = [".exe", ".com", ".bat", ".cmd"];

/// Ende des Programmpfads: hinter dem ersten Vorkommen der ersten Endung ab
/// Zeile `i`, die in `kl` vorkommt.
pub open spec fn programmende_ab(kl: Seq<char>, i: int) -> Option<int>
    decreases 4 - i,
{
    if i < 0 || i >= 4 {
        None
    } else {
        match zeichen::stelle_ab(kl, ENDUNGEN[i]@, 0) {
            Some(p) => Some(p + ENDUNGEN[i]@.len()),
            None => programmende_ab(kl, i + 1),
        }
    }
}

/// Programm und Argumente einer Kommandozeile.
///
/// `"C:\P\u.exe" /S`: das Programm steht zwischen den Anführungszeichen.
/// Ohne Anführungszeichen endet es hinter der ersten ausführbaren Endung, so
/// dass Leerzeichen im Pfad erhalten bleiben; ohne Endung ist es das erste
/// Wort. Die Argumente sind die Wörter dahinter.
pub open spec fn zerlegt(zeile: Seq<char>) -> Option<(Seq<char>, Seq<Seq<char>>)> {
    let t = zeichen::getrimmt(zeile);
    if t.len() == 0 {
        None
    } else if t[0] == '"' {
        let rest = t.subrange(1, t.len() as int);
        match zeichen::zeichenstelle(rest, '"') {
            None => None,
            Some(e) => Some(
                (rest.subrange(0, e), zeichen::woerter(rest.subrange(e + 1, rest.len() as int))),
            ),
        }
    } else {
        match programmende_ab(zeichen::klein_folge(t), 0) {
            Some(s) => Some((t.subrange(0, s), zeichen::woerter(t.subrange(s, t.len() as int)))),
            None => {
                let w = zeichen::woerter(t);
                if w.len() == 0 {
                    None
                } else {
                    Some((w[0], w.drop_first()))
                }
            },
        }
    }
}

/// Wörter eines Teilbereichs als Zeichenketten.
fn woerter_als_texte(v: &[char], a: usize, b: usize) -> (r: Vec<String>)
    requires
        a <= b <= v@.len(),
    ensures
        zeichen::text_folgen(r@) == zeichen::woerter(v@.subrange(a as int, b as int)),
{
    let stueck = teilfolge(v, a, b);
    let w = woerter_von(&stueck);
    texte_aus(&w)
}

/// Eine Kommandozeile in Programm und Argumente zerlegen.
///
/// Behandelt die drei Formen, die in `UninstallString` vorkommen:
/// `"C:\P\u.exe" /S`, `C:\P\u.exe /S` und `MsiExec.exe /X{GUID}`.
/// Bewusst **kein** Umweg über `cmd.exe` – der wäre eine Injektionsfläche.
pub fn zerlege_befehl(zeile: &str) -> (r: Option<(String, Vec<String>)>)
    ensures
        r is None <==> zerlegt(zeile@) is None,
        r matches Some((p, a)) ==> zerlegt(zeile@) == Some((p@, zeichen::text_folgen(a@))),
{
    let z = zeichen_von(zeile);
    let t = getrimmt_von(&z);
    let n = t.len();
    if n == 0 {
        return None;
    }

    if t[0] == '"' {
        let rest = teilfolge(&t, 1, n);
        let ende = match finde_zeichen(&rest, '"') {
            Some(e) => e,
            None => {
                return None;
            },
        };
        proof {
            zeichen::lemma_stelle_ab(rest@, seq!['"'], 0);
        }
        let programm = teilfolge(&rest, 0, ende);
        let argumente = woerter_als_texte(&rest, ende + 1, rest.len());
        return Some((text_aus(&programm), argumente));
    }

    // Ohne Anführungszeichen: bis zur ersten ausführbaren Endung suchen.
    // `C:\Program Files\X\uninst.exe -mode` hat Leerzeichen im Pfad; ein
    // schlichtes Zerlegen in Wörter würde ihn zerreißen.
    let kl = klein_von(&t);
    let endungen = ENDUNGEN;
    let mut i: usize = 0;
    while i < 4
        invariant
            i <= 4,
            endungen == ENDUNGEN,
            n == t@.len(),
            n > 0,
            t@ == zeichen::getrimmt(zeile@),
            t@[0] != '"',
            kl@ == zeichen::klein_folge(t@),
            programmende_ab(kl@, 0) == programmende_ab(kl@, i as int),
        decreases 4 - i,
    {
        let e = zeichen_von(endungen[i]);
        match finde_ab(&kl, &e, 0) {
            Some(p) => {
                proof {
                    zeichen::lemma_stelle_ab(kl@, e@, 0);
                }
                let schnitt = p + e.len();
                let programm = teilfolge(&t, 0, schnitt);
                let argumente = woerter_als_texte(&t, schnitt, n);
                return Some((text_aus(&programm), argumente));
            },
            None => {},
        }
        i = i + 1;
    }

    let w = woerter_von(&t);
    if w.len() == 0 {
        return None;
    }
    let mut texte = texte_aus(&w);
    let programm = texte.remove(0);
    assert(zeichen::text_folgen(texte@) =~= zeichen::woerter(t@).drop_first());
    Some((programm, texte))
}

/// Deutung eines Exitcodes: Erfolg, Neustartbedarf, Meldungsschlüssel.
pub open spec fn deutung(code: i32) -> (bool, bool, Seq<char>) {
    if code == 0 {
        (true, false, ""@)
    } else if code == 3010 {
        (true, true, "uninstall.reboot_required"@)
    } else if code == 1641 {
        (true, true, "uninstall.reboot_started"@)
    } else if code == 1605 {
        (true, false, "uninstall.not_installed"@)
    } else if code == 1602 {
        (false, false, "uninstall.user_cancelled"@)
    } else if code == 1618 {
        (false, false, "uninstall.installer_busy"@)
    } else if code == 1625 {
        (false, false, "uninstall.blocked_by_policy"@)
    } else {
        (false, false, "uninstall.failed"@)
    }
}

/// Exitcodes des Windows Installers deuten.
///
/// `3010` ist kein Fehlschlag, sondern Erfolg mit Neustartbedarf; `1605`
/// (Produkt war gar nicht installiert) ist ebenfalls kein Fehler.
pub fn deute_exitcode(code: i32) -> (r: (bool, bool, &'static str))
    ensures
        (r.0, r.1, r.2@) == deutung(code),
{
    match code {
        0 => (true, false, ""),
        3010 => (true, true, "uninstall.reboot_required"),
        1641 => (true, true, "uninstall.reboot_started"),
        1605 => (true, false, "uninstall.not_installed"),
        1602 => (false, false, "uninstall.user_cancelled"),
        1618 => (false, false, "uninstall.installer_busy"),
        1625 => (false, false, "uninstall.blocked_by_policy"),
        _ => (false, false, "uninstall.failed"),
    }
}

/// Argumente für eine stille MSI-Deinstallation. Ohne `/norestart` startet
/// msiexec den Rechner eigenmächtig neu.
pub fn msi_argumente(guid: &str) -> (r: Vec<String>)
    ensures
        zeichen::text_folgen(r@) == seq!["/x"@, guid@, "/qn"@, "/norestart"@],
{
    let r = vec![text_von("/x"), text_von(guid), text_von("/qn"), text_von("/norestart")];
    assert(zeichen::text_folgen(r@) =~= seq!["/x"@, guid@, "/qn"@, "/norestart"@]);
    r
}

// ---------------------------------------------------------------------------
// Store-Pakete
// ---------------------------------------------------------------------------

/// `CN=Microsoft Corporation, O=…` → `Microsoft Corporation`: der erste
/// Teil ab Stelle `i`, der getrimmt mit `CN=` beginnt, ohne dieses Präfix.
pub open spec fn cn_ab(teile: Seq<Seq<char>>, i: int) -> Option<Seq<char>>
    decreases teile.len() - i,
{
    if i < 0 || i >= teile.len() {
        None
    } else {
        let t = zeichen::getrimmt(teile[i]);
        if zeichen::beginnt_mit(t, "CN="@) {
            Some(t.subrange("CN="@.len() as int, t.len() as int))
        } else {
            cn_ab(teile, i + 1)
        }
    }
}

/// Der kurze Name eines Herausgebers: der `CN=`-Teil des Distinguished Name,
/// sonst der ganze Text.
pub open spec fn kurzform(dn: Seq<char>) -> Seq<char> {
    match cn_ab(zeichen::teile(dn, ','), 0) {
        Some(x) => x,
        None => dn,
    }
}

/// `CN=Microsoft Corporation, O=…` → `Microsoft Corporation`.
pub fn kurzer_herausgeber(dn: &str) -> (r: String)
    ensures
        r@ == kurzform(dn@),
{
    let d = zeichen_von(dn);
    let teile = zerteile(&d, ',');
    let cn = zeichen_von("CN=");
    let mut i: usize = 0;
    while i < teile.len()
        invariant
            i <= teile@.len(),
            zeichen::ansichten(teile@) == zeichen::teile(dn@, ','),
            cn@ == "CN="@,
            cn_ab(zeichen::ansichten(teile@), 0) == cn_ab(zeichen::ansichten(teile@), i as int),
        decreases teile@.len() - i,
    {
        let t = getrimmt_von(&teile[i]);
        if beginnt_mit_folge(&t, &cn) {
            let rest = teilfolge(&t, cn.len(), t.len());
            return text_aus(&rest);
        }
        i = i + 1;
    }
    text_von(dn)
}

/// Die Felder einer Store-Zeile `Name|PackageFullName|Version|Publisher`.
pub open spec fn storefelder(zeile: Seq<char>) -> Seq<Seq<char>> {
    zeichen::teile(zeichen::getrimmt(zeile), '|')
}

/// Eine Store-Zeile mit mindestens vier Feldern und einem Namen.
pub open spec fn storezeile_gueltig(zeile: Seq<char>) -> bool {
    let f = storefelder(zeile);
    f.len() >= 4 && f[0].len() > 0
}

/// Der Schutzgrund als Text – leer, wenn keiner besteht.
pub open spec fn schutztext(g: Option<Seq<char>>) -> Seq<char> {
    match g {
        Some(x) => x,
        None => Seq::empty(),
    }
}

/// `p` ist das Programm, das eine gültige Store-Zeile beschreibt.
pub open spec fn store_programm(p: Programm, zeile: Seq<char>) -> bool {
    let f = storefelder(zeile);
    &&& p.id@ == f[1]
    &&& p.name@ == f[0]
    &&& p.version@ == f[2]
    &&& p.publisher@ == kurzform(f[3])
    &&& p.install_date@.len() == 0
    &&& p.size == 0
    &&& p.source == Quelle::Store
    &&& p.protection@ == schutztext(schutz(f[0], f[3], Quelle::Store))
    &&& p.removable == (p.protection@.len() == 0)
    &&& p.quiet
    &&& !p.requires_admin
    &&& p.icon@.len() == 0
}

/// Der Schutzgrund als Zeichenkette – leer, wenn keiner besteht.
fn schutz_als_text(g: Option<&'static str>) -> (r: String)
    ensures
        g is None ==> r@.len() == 0,
        g matches Some(x) ==> r@ == x@,
{
    match g {
        Some(x) => text_von(x),
        None => String::new(),
    }
}

/// Ist die Zeichenkette leer?
fn ist_leer(s: &String) -> (r: bool)
    ensures
        r == (s@.len() == 0),
{
    let v = zeichen_von(s.as_str());
    v.len() == 0
}

/// Ein Store-Paket aus einer Zeile der Paketliste – oder `None`, wenn die
/// Zeile keines beschreibt.
pub fn store_eintrag(zeile: &str) -> (r: Option<Programm>)
    ensures
        r is None <==> !storezeile_gueltig(zeile@),
        r matches Some(p) ==> store_programm(p, zeile@),
{
    let z = zeichen_von(zeile);
    let t = getrimmt_von(&z);
    let teile = zerteile(&t, '|');
    if teile.len() < 4 || teile[0].len() == 0 {
        return None;
    }
    let name = text_aus(&teile[0]);
    let herausgeber = text_aus(&teile[3]);
    let grund = schutzgrund(name.as_str(), herausgeber.as_str(), Quelle::Store);
    let protection = schutz_als_text(grund);
    let removable = ist_leer(&protection);
    let ergebnis = Programm {
        id: text_aus(&teile[1]),
        name,
        version: text_aus(&teile[2]),
        publisher: kurzer_herausgeber(herausgeber.as_str()),
        install_date: String::new(),
        size: 0,
        source: Quelle::Store,
        removable,
        protection,
        quiet: true,
        requires_admin: false,
        // Store-Pakete legen ihr Symbol im Paketmanifest ab, nicht in der
        // Registry; die Oberfläche zeigt hier ein Ersatzbild.
        icon: String::new(),
    };
    assert(storefelder(zeile@) == zeichen::ansichten(teile@));
    assert(ergebnis.id@ == storefelder(zeile@)[1]);
    assert(ergebnis.name@ == storefelder(zeile@)[0]);
    assert(ergebnis.publisher@ == kurzform(storefelder(zeile@)[3]));
    assert(ergebnis.protection@ == schutztext(schutz(storefelder(zeile@)[0], storefelder(zeile@)[3], Quelle::Store)));
    assert(ergebnis.install_date@.len() == 0);
    assert(ergebnis.icon@.len() == 0);
    Some(ergebnis)
}

/// Die Zeilen eines Textes (`str::lines`), ohne das Zeilenende. Ein
/// abschließendes `\r` bleibt stehen; für die Store-Zeilen ist das gleich,
/// denn sie werden vor dem Zerlegen getrimmt.
pub open spec fn zeilen(s: Seq<char>) -> Seq<Seq<char>> {
    let t = zeichen::teile(s, '\n');
    if t.len() > 0 && t.last().len() == 0 {
        t.drop_last()
    } else {
        t
    }
}

/// Die gültigen Store-Zeilen in ihrer Reihenfolge.
pub open spec fn gueltige_zeilen(z: Seq<Seq<char>>) -> Seq<Seq<char>>
    decreases z.len(),
{
    if z.len() == 0 {
        seq![]
    } else {
        let v = gueltige_zeilen(z.drop_last());
        if storezeile_gueltig(z.last()) {
            v.push(z.last())
        } else {
            v
        }
    }
}

/// Alle Store-Pakete aus der Ausgabe der Paketabfrage, eine Zeile je Paket.
pub fn store_pakete_aus(ausgabe: &str) -> (r: Vec<Programm>)
    ensures
        r@.len() == gueltige_zeilen(zeilen(ausgabe@)).len(),
        forall|i: int|
            0 <= i < r@.len() ==> store_programm(#[trigger] r@[i], gueltige_zeilen(zeilen(ausgabe@))[i]),
{
    let a = zeichen_von(ausgabe);
    let t = zerteile(&a, '\n');
    let mut n = t.len();
    if n > 0 && t[n - 1].len() == 0 {
        n = n - 1;
    }
    let ghost z = zeilen(ausgabe@);
    assert(z =~= zeichen::ansichten(t@).subrange(0, n as int));
    let mut r: Vec<Programm> = Vec::new();
    let mut i: usize = 0;
    while i < n
        invariant
            i <= n <= t@.len(),
            z == zeilen(ausgabe@),
            z =~= zeichen::ansichten(t@).subrange(0, n as int),
            r@.len() == gueltige_zeilen(z.subrange(0, i as int)).len(),
            forall|j: int|
                0 <= j < r@.len() ==> store_programm(#[trigger] r@[j], gueltige_zeilen(z.subrange(0, i as int))[j]),
        decreases n - i,
    {
        let zeile = text_aus(&t[i]);
        let ghost vor = r@;
        let ghost g = gueltige_zeilen(z.subrange(0, i as int));
        assert(z.subrange(0, i + 1).drop_last() =~= z.subrange(0, i as int));
        assert(z.subrange(0, i + 1).last() == zeile@);
        match store_eintrag(zeile.as_str()) {
            Some(p) => {
                r.push(p);
                assert forall|j: int| 0 <= j < r@.len() implies store_programm(
                    #[trigger] r@[j],
                    gueltige_zeilen(z.subrange(0, i + 1))[j],
                ) by {
                    if j < vor.len() {
                        assert(r@[j] == vor[j]);
                        assert(gueltige_zeilen(z.subrange(0, i + 1))[j] == g[j]);
                    }
                }
            },
            None => {},
        }
        i = i + 1;
    }
    assert(z.subrange(0, n as int) =~= z);
    r
}

// ---------------------------------------------------------------------------
// Registry-Einträge
// ---------------------------------------------------------------------------

/// Die Werte eines Uninstall-Schlüssels, wie die Registry sie liefert.
/// Fehlende Zeichenkettenwerte sind leer, fehlende Zahlen 0.
#[derive(Debug, Clone)]
pub struct Eintragswerte {
    pub display_name: String,
    pub system_component: u32,
    pub parent_key_name: String,
    pub release_type: String,
    pub uninstall_string: String,
    pub quiet_uninstall_string: String,
    pub windows_installer: u32,
    pub publisher: String,
    pub no_remove: u32,
    pub display_version: String,
    pub install_date: String,
    /// Geschätzte Größe in KiB.
    pub estimated_size: u32,
    pub display_icon: String,
}

/// Update-Typen, die Windows selbst nicht in „Apps & Features" zeigt.
pub const UPDATE_TYPEN: [&'static str; 5] = [
    "update",
    "hotfix",
    "security update",
    "update rollup",
    "servicepack",
];

/// Der kleingeschriebene `ReleaseType` ist ein Update-Typ.
pub open spec fn update_typ(kr: Seq<char>) -> bool {
    exists|i: int| 0 <= i < 5 && kr == #[trigger] UPDATE_TYPEN[i]@
}

/// Update-Altlasten heißen `KB` gefolgt von Ziffern.
pub open spec fn kb_altlast(schluessel: Seq<char>) -> bool {
    &&& schluessel.len() > 2
    &&& zeichen::beginnt_mit(schluessel, "KB"@)
    &&& zeichen::nur_ziffern(schluessel.subrange(2, schluessel.len() as int))
}

/// Zeigt Windows den Eintrag in „Apps & Features"? Es gibt dafür keinen
/// dokumentierten Vertrag; das ist die etablierte Annäherung.
pub open spec fn wird_gezeigt(w: Eintragswerte, schluessel: Seq<char>) -> bool {
    &&& zeichen::getrimmt(w.display_name@).len() > 0
    &&& w.system_component != 1
    &&& w.parent_key_name@.len() == 0
    &&& !update_typ(zeichen::klein_folge(w.release_type@))
    &&& !kb_altlast(schluessel)
}

/// Ein MSI-Paket: so gekennzeichnet oder über `msiexec` deinstalliert.
pub open spec fn ist_msi(w: Eintragswerte) -> bool {
    w.windows_installer == 1 || zeichen::enthaelt(zeichen::klein_folge(w.uninstall_string@), "msiexec"@)
}

/// Der Schutzgrund eines Registry-Eintrags: die Schutzregeln; `NoRemove`
/// geht vor; ohne jeden Deinstallationsweg ist er nur informativ.
pub open spec fn eintragsschutz(w: Eintragswerte, quelle: Quelle) -> Seq<char> {
    let g = schutztext(schutz(w.display_name@, w.publisher@, quelle));
    let g2 = if w.no_remove == 1 {
        "uninstall.protected.noremove"@
    } else {
        g
    };
    let technisch = w.uninstall_string@.len() > 0 || w.quiet_uninstall_string@.len() > 0;
    if !technisch && g2.len() == 0 {
        "uninstall.protected.no_uninstaller"@
    } else {
        g2
    }
}

/// Woher das Programmsymbol kommt: `DisplayIcon`, wenn angegeben; sonst die
/// Deinstallationsdatei, wenn sie eine echte `.exe` und nicht `msiexec` ist.
/// `None`: im Installationsordner suchen.
pub open spec fn symbol(angabe: Seq<char>, uninstall_string: Seq<char>) -> Option<Seq<char>> {
    if zeichen::getrimmt(angabe).len() > 0 {
        Some(angabe)
    } else {
        match zerlegt(uninstall_string) {
            Some((p, _)) => {
                let k = zeichen::klein_folge(p);
                if zeichen::endet_mit(k, ".exe"@) && !zeichen::enthaelt(k, "msiexec"@) {
                    Some(p)
                } else {
                    None
                }
            },
            None => None,
        }
    }
}

/// `p` ist das Programm, das ein gezeigter Registry-Eintrag beschreibt.
pub open spec fn registry_programm(p: Programm, w: Eintragswerte, schluessel: Seq<char>, quelle: Quelle) -> bool {
    &&& p.id@ == schluessel
    &&& p.name@ == w.display_name@
    &&& p.version@ == w.display_version@
    &&& p.publisher@ == w.publisher@
    &&& p.install_date@ == w.install_date@
    &&& p.size == w.estimated_size * 1024
    &&& p.source == quelle
    &&& p.protection@ == eintragsschutz(w, quelle)
    &&& p.removable == (p.protection@.len() == 0)
    &&& p.quiet == (w.quiet_uninstall_string@.len() > 0 || ist_msi(w))
    &&& p.requires_admin == (quelle != Quelle::User)
    &&& p.icon@ == schutztext(symbol(w.display_icon@, w.uninstall_string@))
}

/// Woher das Programmsymbol kommt.
///
/// `DisplayIcon` ist der vorgesehene Weg, fehlt aber bei etwa jedem dritten
/// Eintrag. Dann taugt die Deinstallationsdatei als Ersatz – allerdings nur,
/// wenn es eine echte `.exe` ist: bei MSI-Paketen steht dort `msiexec.exe`,
/// und dessen Symbol vor jedem zweiten Programm wäre schlechter als gar
/// keins. `None` heißt: die Hauptanwendung im Installationsordner suchen
/// ([`symbol_waehlen`]).
pub fn symbolquelle(angabe: &str, uninstall_string: &str) -> (r: Option<String>)
    ensures
        r is None <==> symbol(angabe@, uninstall_string@) is None,
        r matches Some(x) ==> symbol(angabe@, uninstall_string@) == Some(x@),
{
    let a = zeichen_von(angabe);
    let ta = getrimmt_von(&a);
    if ta.len() > 0 {
        return Some(text_von(angabe));
    }
    match zerlege_befehl(uninstall_string) {
        Some((programm, _)) => {
            let p = zeichen_von(programm.as_str());
            let k = klein_von(&p);
            let exe = zeichen_von(".exe");
            let msiexec = zeichen_von("msiexec");
            if endet_mit_folge(&k, &exe) && !enthaelt_folge(&k, &msiexec) {
                Some(programm)
            } else {
                None
            }
        },
        None => None,
    }
}

/// Einen Registry-Eintrag in ein [`Programm`] übersetzen – oder ihn
/// verwerfen, wenn Windows ihn nicht zeigen würde.
///
/// Liefert die Symbolquelle nichts, bleibt `icon` leer; die Anwendung sucht
/// dann im Installationsordner.
pub fn eintrag_deuten(werte: &Eintragswerte, schluessel: &str, quelle: Quelle) -> (r: Option<Programm>)
    ensures
        r is None <==> !wird_gezeigt(*werte, schluessel@),
        r matches Some(p) ==> registry_programm(p, *werte, schluessel@, quelle),
{
    let name = zeichen_von(werte.display_name.as_str());
    let tn = getrimmt_von(&name);
    if tn.len() == 0 {
        return None;
    }
    if werte.system_component == 1 {
        return None;
    }
    if !ist_leer(&werte.parent_key_name) {
        return None;
    }
    let rel = zeichen_von(werte.release_type.as_str());
    let kr = klein_von(&rel);
    let typen = UPDATE_TYPEN;
    let mut i: usize = 0;
    while i < 5
        invariant
            i <= 5,
            typen == UPDATE_TYPEN,
            kr@ == zeichen::klein_folge(werte.release_type@),
            forall|k: int| 0 <= k < i ==> kr@ != #[trigger] UPDATE_TYPEN[k]@,
        decreases 5 - i,
    {
        let t = zeichen_von(typen[i]);
        if zeichen::gleiche_folge(&kr, &t) {
            assert(kr@ == UPDATE_TYPEN[i as int]@);
            return None;
        }
        i = i + 1;
    }
    let s = zeichen_von(schluessel);
    let kb = zeichen_von("KB");
    if s.len() > 2 && beginnt_mit_folge(&s, &kb) {
        let rest = teilfolge(&s, 2, s.len());
        if nur_ziffern_von(&rest) {
            return None;
        }
    }

    let us = zeichen_von(werte.uninstall_string.as_str());
    let kus = klein_von(&us);
    let msiexec = zeichen_von("msiexec");
    let msi = werte.windows_installer == 1 || enthaelt_folge(&kus, &msiexec);
    let us_leer = ist_leer(&werte.uninstall_string);
    let qs_leer = ist_leer(&werte.quiet_uninstall_string);
    let entfernbar_technisch = !us_leer || !qs_leer;

    let grund = schutzgrund(werte.display_name.as_str(), werte.publisher.as_str(), quelle);
    let mut schutz = schutz_als_text(grund);
    // Windows selbst bietet diese Einträge nicht zum Entfernen an.
    if werte.no_remove == 1 {
        schutz = text_von("uninstall.protected.noremove");
    }
    if !entfernbar_technisch && ist_leer(&schutz) {
        schutz = text_von("uninstall.protected.no_uninstaller");
    }
    let removable = ist_leer(&schutz);
    let icon = match symbolquelle(werte.display_icon.as_str(), werte.uninstall_string.as_str()) {
        Some(x) => x,
        None => String::new(),
    };
    let ergebnis = Programm {
        id: text_von(schluessel),
        name: werte.display_name.clone(),
        version: werte.display_version.clone(),
        publisher: werte.publisher.clone(),
        install_date: werte.install_date.clone(),
        // EstimatedSize steht in KiB.
        size: (werte.estimated_size as u64) * 1024,
        source: quelle,
        removable,
        protection: schutz,
        quiet: !qs_leer || msi,
        requires_admin: quelle != Quelle::User,
        icon,
    };
    assert(ergebnis.name@ == werte.display_name@);
    assert(ergebnis.protection@ == eintragsschutz(*werte, quelle));
    assert(ergebnis.quiet == (werte.quiet_uninstall_string@.len() > 0 || ist_msi(*werte)));
    assert(ergebnis.icon@ == schutztext(symbol(werte.display_icon@, werte.uninstall_string@)));
    assert(wird_gezeigt(*werte, schluessel@));
    Some(ergebnis)
}

/// Stehen nur Ziffern in der Folge?
fn nur_ziffern_von(v: &[char]) -> (r: bool)
    ensures
        r == zeichen::nur_ziffern(v@),
{
    let mut i: usize = 0;
    while i < v.len()
        invariant
            i <= v@.len(),
            forall|k: int| 0 <= k < i ==> zeichen::ist_ziffer(#[trigger] v@[k]),
        decreases v@.len() - i,
    {
        if !('0' <= v[i] && v[i] <= '9') {
            return false;
        }
        i = i + 1;
    }
    true
}

// ---------------------------------------------------------------------------
// Symbol im Installationsordner
// ---------------------------------------------------------------------------

/// Der Installationsordner ohne Leerraum und Anführungszeichen am Rand.
pub open spec fn ordner(angabe: Seq<char>) -> Seq<char> {
    zeichen::ohne_rand(zeichen::getrimmt(angabe), '"')
}

/// `InstallLocation` als Pfad: getrimmt, Anführungszeichen am Rand entfernt.
pub fn ordnerpfad(angabe: &str) -> (r: String)
    ensures
        r@ == ordner(angabe@),
{
    let a = zeichen_von(angabe);
    let t = getrimmt_von(&a);
    let o = ohne_rand_von(&t, '"');
    text_aus(&o)
}

/// Ein Eintrag eines Installationsordners.
#[derive(Debug, Clone)]
pub struct Ordnereintrag {
    /// Dateiname.
    pub name: String,
    /// Größe in Bytes; 0, wenn unbekannt.
    pub groesse: u64,
    /// Voller Pfad.
    pub pfad: String,
}

/// Eine Programmdatei, die kein Deinstaller ist.
pub open spec fn symbolkandidat(name: Seq<char>) -> bool {
    let k = zeichen::klein_folge(name);
    zeichen::endet_mit(k, ".exe"@) && !zeichen::beginnt_mit(k, "unins"@)
}

/// Die größte Programmdatei; bei gleicher Größe die zuerst gefundene.
pub open spec fn groesste_programmdatei(s: Seq<Ordnereintrag>) -> Option<(u64, Seq<char>)>
    decreases s.len(),
{
    if s.len() == 0 {
        None
    } else {
        let b = groesste_programmdatei(s.drop_last());
        let e = s.last();
        if symbolkandidat(e.name@) && (match b {
            None => true,
            Some((g, _)) => e.groesse > g,
        }) {
            Some((e.groesse, e.pfad@))
        } else {
            b
        }
    }
}

/// Die wahrscheinlichste Programmdatei in einem Installationsordner.
///
/// Ein Ordner enthält oft mehrere `.exe` – Hilfsprogramme, Updater,
/// Deinstaller. Genommen wird die **größte**, denn das ist in aller Regel
/// die Hauptanwendung, und nur die trägt ein aussagekräftiges Symbol. Leer,
/// wenn keine in Frage kommt.
pub fn symbol_waehlen(eintraege: &Vec<Ordnereintrag>) -> (r: String)
    ensures
        r@ == (match groesste_programmdatei(eintraege@) {
            Some((_, p)) => p,
            None => Seq::empty(),
        }),
{
    let exe = zeichen_von(".exe");
    let unins = zeichen_von("unins");
    let mut beste: Option<(u64, String)> = None;
    let mut i: usize = 0;
    while i < eintraege.len()
        invariant
            i <= eintraege@.len(),
            exe@ == ".exe"@,
            unins@ == "unins"@,
            (match beste {
                None => groesste_programmdatei(eintraege@.subrange(0, i as int)) is None,
                Some((g, p)) => groesste_programmdatei(eintraege@.subrange(0, i as int)) == Some((g, p@)),
            }),
        decreases eintraege@.len() - i,
    {
        let e = &eintraege[i];
        let n = zeichen_von(e.name.as_str());
        let k = klein_von(&n);
        let kandidat = endet_mit_folge(&k, &exe) && !beginnt_mit_folge(&k, &unins);
        let besser = match &beste {
            None => true,
            Some((g, _)) => e.groesse > *g,
        };
        assert(eintraege@.subrange(0, i + 1).drop_last() =~= eintraege@.subrange(0, i as int));
        if kandidat && besser {
            beste = Some((e.groesse, e.pfad.clone()));
        }
        i = i + 1;
    }
    assert(eintraege@.subrange(0, i as int) =~= eintraege@);
    match beste {
        Some((_, p)) => p,
        None => String::new(),
    }
}

// ---------------------------------------------------------------------------
// Deinstallieren
// ---------------------------------------------------------------------------

/// Die Kommandozeile einer Deinstallation.
///
/// Still: bei MSI der aus der GUID rekonstruierte Aufruf – der einzige Fall,
/// in dem ein stiller Schalter sicher bekannt ist –, sonst
/// `QuietUninstallString`, wenn vorhanden. Andernfalls `UninstallString`.
pub open spec fn befehl(id: Seq<char>, us: Seq<char>, qs: Seq<char>, still: bool) -> Option<(Seq<char>, Seq<Seq<char>>)> {
    if still && guid_aus(id, us) is Some {
        Some(("msiexec"@, seq!["/x"@, guid_aus(id, us)->0, "/qn"@, "/norestart"@]))
    } else if still && qs.len() > 0 {
        zerlegt(qs)
    } else {
        zerlegt(us)
    }
}

/// Kommandozeile für die Deinstallation zusammenstellen.
pub fn befehl_waehlen(id: &str, uninstall_string: &str, quiet_string: &str, still: bool) -> (r: Option<(String, Vec<String>)>)
    ensures
        r is None <==> befehl(id@, uninstall_string@, quiet_string@, still) is None,
        r matches Some((p, a)) ==> befehl(id@, uninstall_string@, quiet_string@, still) == Some((p@, zeichen::text_folgen(a@))),
{
    if still {
        match msi_guid(id, uninstall_string) {
            Some(guid) => {
                return Some((text_von("msiexec"), msi_argumente(guid.as_str())));
            },
            None => {},
        }
        let q = zeichen_von(quiet_string);
        if q.len() > 0 {
            return zerlege_befehl(quiet_string);
        }
    }
    zerlege_befehl(uninstall_string)
}

/// Ein Ergebnis, bei dem nichts gestartet wurde.
fn nichts_gestartet(programm: &Programm, meldung: &str) -> (r: UninstallResult)
    ensures
        r.id@ == programm.id@,
        r.name@ == programm.name@,
        !r.ok,
        r.exit_code == -1,
        !r.reboot_required,
        !r.verified,
        r.message@ == meldung@,
{
    UninstallResult {
        id: programm.id.clone(),
        name: programm.name.clone(),
        ok: false,
        exit_code: -1,
        reboot_required: false,
        verified: false,
        message: text_von(meldung),
    }
}

/// Das Ergebnis eines gelaufenen Deinstallers.
///
/// Bei Registry-Einträgen ist der verlässliche Test, ob der Eintrag danach
/// verschwunden ist – Nicht-MSI-Deinstaller liefern beliebige Exitcodes, oft
/// immer 0. Ist er weg, gilt die Deinstallation als gelungen; meldet der
/// Deinstaller Erfolg, steht der Eintrag aber noch, heißt das „nicht
/// bestätigt". Bei Store-Paketen entscheidet der Exitcode.
pub open spec fn ausgewertet(r: UninstallResult, p: Programm, code: i32, noch_da: bool) -> bool {
    let (erfolg, neustart, meldung) = deutung(code);
    &&& r.id@ == p.id@
    &&& r.name@ == p.name@
    &&& r.exit_code == code
    &&& r.reboot_required == neustart
    &&& if p.source == Quelle::Store {
        r.ok == erfolg && r.verified == erfolg && r.message@ == meldung
    } else if !noch_da {
        r.ok && r.verified && r.message@ == (if meldung == "uninstall.failed"@ {
            Seq::empty()
        } else {
            meldung
        })
    } else {
        !r.verified && r.ok == erfolg && r.message@ == (if erfolg && meldung.len() == 0 {
            "uninstall.unverified"@
        } else {
            meldung
        })
    }
}

/// Einen gelaufenen Deinstaller auswerten: `code` ist sein Exitcode,
/// `eintrag_noch_da`, ob der Uninstall-Schlüssel danach noch existiert.
pub fn deinstallation_auswerten(programm: &Programm, code: i32, eintrag_noch_da: bool) -> (r: UninstallResult)
    ensures
        ausgewertet(r, *programm, code, eintrag_noch_da),
{
    let (erfolg, neustart, meldung) = deute_exitcode(code);
    let mut ergebnis = nichts_gestartet(programm, meldung);
    ergebnis.exit_code = code;
    ergebnis.ok = erfolg;
    ergebnis.reboot_required = neustart;

    if programm.source != Quelle::Store {
        ergebnis.verified = !eintrag_noch_da;
        if ergebnis.verified {
            ergebnis.ok = true;
            if gleich(meldung, "uninstall.failed") {
                ergebnis.message = String::new();
            }
        } else if ergebnis.ok && ist_leer(&ergebnis.message) {
            // Erfolg gemeldet, Eintrag aber noch da: manche Deinstaller
            // räumen verzögert auf.
            ergebnis.message = text_von("uninstall.unverified");
        }
    } else {
        ergebnis.verified = erfolg;
    }
    ergebnis
}

/// Ein Programm deinstallieren.
///
/// Ein gesperrter Eintrag wird nie angefasst: es wird nichts gestartet, die
/// Meldung lautet `uninstall.protected`. Deinstaller starten kann Plane nur
/// unter Windows; auf anderen Systemen lautet die Meldung sonst
/// `uninstall.windows_only`.
pub fn deinstalliere(programm: &Programm, still: bool) -> (r: UninstallResult)
    ensures
        r.id@ == programm.id@,
        r.name@ == programm.name@,
        !r.ok,
        r.exit_code == -1,
        !r.reboot_required,
        !r.verified,
        r.message@ == (if programm.removable {
            "uninstall.windows_only"@
        } else {
            "uninstall.protected"@
        }),
{
    if !programm.removable {
        return nichts_gestartet(programm, "uninstall.protected");
    }
    nichts_gestartet(programm, "uninstall.windows_only")
}

/// Alle installierten Programme. Die Quellen – Registry und Store – gibt es
/// nur unter Windows; auf anderen Systemen ist die Liste leer.
pub fn liste() -> (r: Vec<Programm>)
    ensures
        r@.len() == 0,
{
    Vec::new()
}

// ---------------------------------------------------------------------------
// Auflisten
// ---------------------------------------------------------------------------

/// Ob ein Programm in der Liste erscheint: entfernbar oder `alle`, und –
/// mit Filter – der Name enthält ihn, ohne Rücksicht auf Groß- und
/// Kleinschreibung.
pub open spec fn gezeigt(p: Programm, filter: Option<Seq<char>>, alle: bool) -> bool {
    &&& (alle || p.removable)
    &&& match filter {
        Some(f) => zeichen::enthaelt(zeichen::unicode_klein(p.name@), zeichen::unicode_klein(f)),
        None => true,
    }
}

/// Die Programme, die gezeigt werden, in ihrer Reihenfolge.
pub open spec fn gezeigte(s: Seq<Programm>, filter: Option<Seq<char>>, alle: bool) -> Seq<Programm>
    decreases s.len(),
{
    if s.len() == 0 {
        Seq::empty()
    } else if gezeigt(s.last(), filter, alle) {
        gezeigte(s.drop_last(), filter, alle).push(s.last())
    } else {
        gezeigte(s.drop_last(), filter, alle)
    }
}

/// Programme für die Anzeige auswählen: standardmäßig nur entfernbare,
/// mit `alle` auch geschützte; mit Filter nur Namen, die ihn enthalten.
pub fn programme_filtern(liste: Vec<Programm>, filter: Option<&str>, alle: bool) -> (r: Vec<Programm>)
    ensures
        r@ == gezeigte(liste@, match filter { Some(f) => Some(f@), None => None }, alle),
{
    let ghost sf = match filter { Some(f) => Some(f@), None => None::<Seq<char>> };
    let muster: Option<Vec<char>> = match filter {
        Some(f) => Some(zeichen_von(zeichen::kleingeschrieben(f).as_str())),
        None => None,
    };
    let ghost s = liste@;
    let ghost n = s.len();
    let mut offen = liste;
    let mut r: Vec<Programm> = Vec::new();
    proof {
        assert(s.subrange(0, 0) =~= Seq::<Programm>::empty());
        assert(offen@ =~= s.subrange(0, n as int));
    }
    while offen.len() > 0
        invariant
            n == s.len(),
            offen@.len() <= n,
            offen@ == s.subrange(n - offen@.len(), n as int),
            r@ == gezeigte(s.subrange(0, n - offen@.len()), sf, alle),
            match muster {
                Some(m) => sf is Some && m@ == zeichen::unicode_klein(sf->0),
                None => sf is None,
            },
        decreases offen@.len(),
    {
        let ghost k = n - offen@.len();
        let p = offen.remove(0);
        proof {
            assert(offen@ =~= s.subrange(k + 1, n as int));
            assert(s.subrange(0, k + 1).drop_last() =~= s.subrange(0, k));
            assert(s.subrange(0, k + 1).last() == p);
        }
        let passt = match &muster {
            Some(m) => enthaelt_folge(&zeichen_von(zeichen::kleingeschrieben(p.name.as_str()).as_str()), m),
            None => true,
        };
        if (alle || p.removable) && passt {
            r.push(p);
        }
    }
    proof {
        assert(s.subrange(0, n as int) =~= s);
    }
    r
}

} // verus!
