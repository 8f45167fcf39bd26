//! Katalog aller Reinigungsziele.
//!
//! Der Katalog ist die einzige Stelle, an der steht, *was* Plane bereinigt.
//! Er ist als Tabelle abgelegt: je Ziel eine Zeile in [`ZIELE`], deren
//! Regeln, Dienste und sperrende Prozesse als Bereiche `[von, bis)` in den
//! Nebentabellen stehen. Reihenfolge = Anzeigereihenfolge = Ausführungsreihenfolge.
//!
//! Regeln für Einträge: Schlüssel sind kleingeschrieben und mit `.` gegliedert;
//! alles, was Nutzerdaten betrifft, ist nie vorausgewählt; Ziele, die Dienste
//! steuern, brauchen Administratorrechte; Pfade beginnen immer mit `%VAR%`.

use vstd::prelude::*;
use crate::zeichen;
use crate::engine::types::{Category, FileRule, RegistryCheck, RegistryRule, Risk, Target, TargetKind};
use crate::zeichen::{getrimmt_von, gleiche_folge, klein_von, zeichen_von};

verus! {

/// Art eines Katalogziels; bestimmt, in welcher Nebentabelle seine Regeln stehen.
#[derive(Debug, Clone, Copy, PartialEq, Eq, Structural)]
pub enum Art {
    /// Dateiregeln in [`DATEIREGELN`].
    Dateien,
    /// Papierkorb, ohne Regeln.
    Papierkorb,
    /// Befehlszeile in [`BEFEHLE`].
    Befehl,
    /// Suche nach Installationsdateien, ohne Regeln.
    Installationsdateien,
    /// Registry-Regeln in [`REGISTRYREGELN`].
    Registry,
}

/// Prüfart einer Registry-Regel, wie sie in [`REGISTRYREGELN`] steht.
#[derive(Debug, Clone, Copy, PartialEq, Eq, Structural)]
pub enum Pruefart {
    WertnameIstPfad,
    WertIstPfad,
    UnterschluesselProgId,
    Deinstallationseintrag,
}

/// Eine Katalogzeile: Schlüssel, Kategorie, Art, Risiko, Adminrechte nötig,
/// vorausgewählt, Regeln `[von, bis)`, Dienste `[von, bis)` in [`DIENSTE`],
/// sperrende Prozesse `[von, bis)` in [`PROZESSE`].
pub type Zeile = (&'static str, Category, Art, Risk, bool, bool, usize, usize, usize, usize, usize, usize);

/// Anzahl der Katalogziele.
pub const ANZAHL: usize = 38;

/// Alle bekannten Reinigungsziele.
pub const ZIELE: [Zeile; 38] = [
    ("system.temp.user", Category::System, Art::Dateien, Risk::Safe, false, true, 0, 1, 0, 0, 0, 0),
    ("system.temp.windows", Category::System, Art::Dateien, Risk::Safe, true, true, 1, 2, 0, 0, 0, 0),
    ("system.thumbnails", Category::System, Art::Dateien, Risk::Safe, false, true, 2, 4, 0, 0, 0, 0),
    ("system.inetcache", Category::System, Art::Dateien, Risk::Safe, false, true, 4, 6, 0, 0, 0, 0),
    ("system.errorreports", Category::System, Art::Dateien, Risk::Safe, false, true, 6, 10, 0, 0, 0, 0),
    ("system.crashdumps", Category::System, Art::Dateien, Risk::Safe, false, true, 10, 14, 0, 0, 0, 0),
    ("system.logs", Category::System, Art::Dateien, Risk::Safe, true, true, 14, 21, 0, 0, 0, 0),
    ("system.dns", Category::System, Art::Befehl, Risk::Safe, false, true, 0, 2, 0, 0, 0, 0),
    ("system.prefetch", Category::System, Art::Dateien, Risk::Notice, true, false, 21, 22, 0, 0, 0, 0),
    ("system.windowsupdate", Category::System, Art::Dateien, Risk::Notice, true, false, 22, 25, 0, 2, 0, 0),
    ("system.deliveryoptimization", Category::System, Art::Dateien, Risk::Safe, true, false, 25, 27, 2, 3, 0, 0),
    ("system.fontcache", Category::System, Art::Dateien, Risk::Safe, true, false, 27, 28, 3, 4, 0, 0),
    ("system.recentdocs", Category::System, Art::Dateien, Risk::Notice, false, false, 28, 30, 4, 4, 0, 0),
    ("system.searchcache", Category::System, Art::Dateien, Risk::Safe, false, false, 30, 31, 4, 4, 0, 0),
    ("system.windowsold", Category::System, Art::Dateien, Risk::Caution, true, false, 31, 34, 4, 4, 0, 0),
    ("recyclebin.all", Category::RecycleBin, Art::Papierkorb, Risk::Caution, false, false, 0, 0, 4, 4, 0, 0),
    ("browser.edge.cache", Category::Browsers, Art::Dateien, Risk::Safe, false, true, 34, 40, 4, 4, 0, 1),
    ("browser.chrome.cache", Category::Browsers, Art::Dateien, Risk::Safe, false, true, 40, 46, 4, 4, 1, 2),
    ("browser.firefox.cache", Category::Browsers, Art::Dateien, Risk::Safe, false, true, 46, 51, 4, 4, 2, 3),
    ("browser.brave.cache", Category::Browsers, Art::Dateien, Risk::Safe, false, true, 51, 54, 4, 4, 3, 4),
    ("browser.opera.cache", Category::Browsers, Art::Dateien, Risk::Safe, false, true, 54, 57, 4, 4, 4, 5),
    ("browser.vivaldi.cache", Category::Browsers, Art::Dateien, Risk::Safe, false, true, 57, 59, 4, 4, 5, 6),
    ("browser.cookies", Category::Browsers, Art::Dateien, Risk::Caution, false, false, 59, 63, 4, 4, 6, 6),
    ("browser.history", Category::Browsers, Art::Dateien, Risk::Notice, false, false, 63, 66, 4, 4, 6, 6),
    ("browser.predictor", Category::Browsers, Art::Dateien, Risk::Safe, false, false, 66, 68, 4, 4, 6, 6),
    ("app.discord", Category::Apps, Art::Dateien, Risk::Safe, false, true, 68, 71, 4, 4, 6, 7),
    ("app.teams", Category::Apps, Art::Dateien, Risk::Safe, false, true, 71, 79, 4, 4, 7, 9),
    ("app.spotify", Category::Apps, Art::Dateien, Risk::Safe, false, true, 79, 82, 4, 4, 9, 9),
    ("app.vscode", Category::Apps, Art::Dateien, Risk::Safe, false, true, 82, 89, 4, 4, 9, 9),
    ("app.gpushadercache", Category::Apps, Art::Dateien, Risk::Safe, false, true, 89, 98, 4, 4, 9, 9),
    ("app.steam", Category::Apps, Art::Dateien, Risk::Safe, false, false, 98, 102, 4, 4, 9, 9),
    ("app.adobe", Category::Apps, Art::Dateien, Risk::Notice, false, false, 102, 104, 4, 4, 9, 9),
    ("app.java", Category::Apps, Art::Dateien, Risk::Safe, false, false, 104, 105, 4, 4, 9, 9),
    ("app.office", Category::Apps, Art::Dateien, Risk::Safe, false, false, 105, 107, 4, 4, 9, 9),
    ("app.packagemanagers", Category::Apps, Art::Dateien, Risk::Notice, false, false, 107, 109, 4, 4, 9, 9),
    ("installers.downloads", Category::Installers, Art::Installationsdateien, Risk::Notice, false, false, 0, 0, 4, 4, 9, 9),
    ("registry.privacy", Category::Registry, Art::Registry, Risk::Notice, false, false, 0, 2, 4, 4, 9, 9),
    ("registry.orphans", Category::Registry, Art::Registry, Risk::Caution, false, false, 2, 8, 4, 4, 9, 9),
];

/// Dateiregeln: Muster, Mindestalter in Tagen, Ausschlüsse `[von, bis)` in [`AUSSCHLUESSE`].
pub const DATEIREGELN: [(&'static str, u32, usize, usize); 109] = [
    ("%TEMP%/*", 0, 0, 1),
    ("%WINDIR%/Temp/*", 0, 1, 1),
    ("%LOCALAPPDATA%/Microsoft/Windows/Explorer/thumbcache_*.db", 0, 1, 1),
    ("%LOCALAPPDATA%/Microsoft/Windows/Explorer/iconcache_*.db", 0, 1, 1),
    ("%LOCALAPPDATA%/Microsoft/Windows/INetCache/**/*", 0, 1, 1),
    ("%LOCALAPPDATA%/Microsoft/Windows/INetCache/IE/*", 0, 1, 1),
    ("%LOCALAPPDATA%/Microsoft/Windows/WER/ReportArchive/*", 0, 1, 1),
    ("%LOCALAPPDATA%/Microsoft/Windows/WER/ReportQueue/*", 0, 1, 1),
    ("%PROGRAMDATA%/Microsoft/Windows/WER/ReportArchive/*", 0, 1, 1),
    ("%PROGRAMDATA%/Microsoft/Windows/WER/ReportQueue/*", 0, 1, 1),
    ("%LOCALAPPDATA%/CrashDumps/*", 0, 1, 1),
    ("%WINDIR%/Minidump/*.dmp", 0, 1, 1),
    ("%WINDIR%/MEMORY.DMP", 0, 1, 1),
    ("%WINDIR%/LiveKernelReports/**/*.dmp", 0, 1, 1),
    ("%WINDIR%/Logs/CBS/CbsPersist_*.log", 7, 1, 1),
    ("%WINDIR%/Logs/CBS/*.cab", 7, 1, 1),
    ("%WINDIR%/Logs/DISM/*.log", 7, 1, 1),
    ("%WINDIR%/Logs/WindowsUpdate/*", 7, 1, 1),
    ("%WINDIR%/Panther/*.log", 30, 1, 1),
    ("%WINDIR%/INF/setupapi.dev*.log", 30, 1, 1),
    ("%PROGRAMDATA%/USOShared/Logs/*", 7, 1, 1),
    ("%WINDIR%/Prefetch/*.pf", 0, 1, 1),
    ("%WINDIR%/SoftwareDistribution/Download/*", 0, 1, 1),
    ("%WINDIR%/SoftwareDistribution/DataStore/Logs/*", 0, 1, 1),
    ("%WINDIR%/SoftwareDistribution/*.log", 0, 1, 1),
    ("%PROGRAMDATA%/Microsoft/Windows/DeliveryOptimization/Cache/*", 0, 1, 1),
    ("%WINDIR%/ServiceProfiles/NetworkService/AppData/Local/Microsoft/Windows/DeliveryOptimization/*", 0, 1, 1),
    ("%WINDIR%/ServiceProfiles/LocalService/AppData/Local/FontCache/*.dat", 0, 1, 1),
    ("%APPDATA%/Microsoft/Windows/Recent/*.lnk", 0, 1, 1),
    ("%APPDATA%/Microsoft/Windows/Recent/AutomaticDestinations/*", 0, 1, 1),
    ("%LOCALAPPDATA%/Packages/Microsoft.Windows.Search_cw5n1h2txyewy/LocalState/AppIconCache/**/*", 0, 1, 1),
    ("%SYSTEMDRIVE%/Windows.old", 0, 1, 1),
    ("%SYSTEMDRIVE%/$Windows.~BT", 0, 1, 1),
    ("%SYSTEMDRIVE%/$Windows.~WS", 0, 1, 1),
    ("%LOCALAPPDATA%/Microsoft/Edge/User Data/*/Cache/Cache_Data/*", 0, 1, 1),
    ("%LOCALAPPDATA%/Microsoft/Edge/User Data/*/Code Cache/**/*", 0, 1, 1),
    ("%LOCALAPPDATA%/Microsoft/Edge/User Data/*/GPUCache/*", 0, 1, 1),
    ("%LOCALAPPDATA%/Microsoft/Edge/User Data/*/Service Worker/CacheStorage/**/*", 0, 1, 1),
    ("%LOCALAPPDATA%/Microsoft/Edge/User Data/ShaderCache/**/*", 0, 1, 1),
    ("%LOCALAPPDATA%/Microsoft/Edge/User Data/GrShaderCache/**/*", 0, 1, 1),
    ("%LOCALAPPDATA%/Google/Chrome/User Data/*/Cache/Cache_Data/*", 0, 1, 1),
    ("%LOCALAPPDATA%/Google/Chrome/User Data/*/Code Cache/**/*", 0, 1, 1),
    ("%LOCALAPPDATA%/Google/Chrome/User Data/*/GPUCache/*", 0, 1, 1),
    ("%LOCALAPPDATA%/Google/Chrome/User Data/*/Service Worker/CacheStorage/**/*", 0, 1, 1),
    ("%LOCALAPPDATA%/Google/Chrome/User Data/ShaderCache/**/*", 0, 1, 1),
    ("%LOCALAPPDATA%/Google/Chrome/User Data/GrShaderCache/**/*", 0, 1, 1),
    ("%LOCALAPPDATA%/Mozilla/Firefox/Profiles/*/cache2/entries/*", 0, 1, 1),
    ("%LOCALAPPDATA%/Mozilla/Firefox/Profiles/*/startupCache/*", 0, 1, 1),
    ("%LOCALAPPDATA%/Mozilla/Firefox/Profiles/*/thumbnails/*", 0, 1, 1),
    ("%LOCALAPPDATA%/Mozilla/Firefox/Profiles/*/jumpListCache/*", 0, 1, 1),
    ("%APPDATA%/Mozilla/Firefox/Crash Reports/**/*", 0, 1, 1),
    ("%LOCALAPPDATA%/BraveSoftware/Brave-Browser/User Data/*/Cache/Cache_Data/*", 0, 1, 1),
    ("%LOCALAPPDATA%/BraveSoftware/Brave-Browser/User Data/*/Code Cache/**/*", 0, 1, 1),
    ("%LOCALAPPDATA%/BraveSoftware/Brave-Browser/User Data/*/GPUCache/*", 0, 1, 1),
    ("%LOCALAPPDATA%/Opera Software/Opera*/Cache/Cache_Data/*", 0, 1, 1),
    ("%LOCALAPPDATA%/Opera Software/Opera*/Code Cache/**/*", 0, 1, 1),
    ("%LOCALAPPDATA%/Opera Software/Opera*/GPUCache/*", 0, 1, 1),
    ("%LOCALAPPDATA%/Vivaldi/User Data/*/Cache/Cache_Data/*", 0, 1, 1),
    ("%LOCALAPPDATA%/Vivaldi/User Data/*/Code Cache/**/*", 0, 1, 1),
    ("%LOCALAPPDATA%/Microsoft/Edge/User Data/*/Network/Cookies", 0, 1, 1),
    ("%LOCALAPPDATA%/Google/Chrome/User Data/*/Network/Cookies", 0, 1, 1),
    ("%LOCALAPPDATA%/Mozilla/Firefox/Profiles/*/cookies.sqlite", 0, 1, 1),
    ("%LOCALAPPDATA%/BraveSoftware/Brave-Browser/User Data/*/Network/Cookies", 0, 1, 1),
    ("%LOCALAPPDATA%/Microsoft/Edge/User Data/*/History", 0, 1, 1),
    ("%LOCALAPPDATA%/Google/Chrome/User Data/*/History", 0, 1, 1),
    ("%LOCALAPPDATA%/Mozilla/Firefox/Profiles/*/places.sqlite", 0, 1, 1),
    ("%LOCALAPPDATA%/Microsoft/Edge/User Data/*/Network Action Predictor", 0, 1, 1),
    ("%LOCALAPPDATA%/Google/Chrome/User Data/*/Network Action Predictor", 0, 1, 1),
    ("%APPDATA%/discord/Cache/Cache_Data/*", 0, 1, 1),
    ("%APPDATA%/discord/Code Cache/**/*", 0, 1, 1),
    ("%APPDATA%/discord/GPUCache/*", 0, 1, 1),
    ("%APPDATA%/Microsoft/Teams/Cache/*", 0, 1, 1),
    ("%APPDATA%/Microsoft/Teams/Code Cache/**/*", 0, 1, 1),
    ("%APPDATA%/Microsoft/Teams/GPUCache/*", 0, 1, 1),
    ("%APPDATA%/Microsoft/Teams/blob_storage/**/*", 0, 1, 1),
    ("%APPDATA%/Microsoft/Teams/tmp/*", 0, 1, 1),
    ("%APPDATA%/Microsoft Teams/Logs/*", 7, 1, 1),
    ("%LOCALAPPDATA%/Packages/MSTeams_8wekyb3d8bbwe/LocalCache/**/*", 0, 1, 1),
    ("%LOCALAPPDATA%/Packages/MSTeams_8wekyb3d8bbwe/TempState/**/*", 0, 1, 1),
    ("%LOCALAPPDATA%/Spotify/Data/*", 0, 1, 1),
    ("%LOCALAPPDATA%/Spotify/Browser/Cache/*", 0, 1, 1),
    ("%APPDATA%/Spotify/*.log", 7, 1, 1),
    ("%APPDATA%/Code/Cache/*", 0, 1, 1),
    ("%APPDATA%/Code/CachedData/*", 0, 1, 1),
    ("%APPDATA%/Code/CachedExtensionVSIXs/*", 0, 1, 1),
    ("%APPDATA%/Code/Code Cache/**/*", 0, 1, 1),
    ("%APPDATA%/Code/GPUCache/*", 0, 1, 1),
    ("%APPDATA%/Code/logs/*", 7, 1, 1),
    ("%APPDATA%/Code/Crashpad/**/*", 0, 1, 1),
    ("%LOCALAPPDATA%/NVIDIA/DXCache/*", 0, 1, 1),
    ("%LOCALAPPDATA%/NVIDIA/GLCache/**/*", 0, 1, 1),
    ("%LOCALAPPDATA%/NVIDIA Corporation/NV_Cache/*", 0, 1, 1),
    ("%LOCALAPPDATA%/AMD/DxCache/*", 0, 1, 1),
    ("%LOCALAPPDATA%/AMD/DxcCache/*", 0, 1, 1),
    ("%LOCALAPPDATA%/AMD/GLCache/**/*", 0, 1, 1),
    ("%LOCALAPPDATA%/AMD/VkCache/**/*", 0, 1, 1),
    ("%LOCALAPPDATA%/D3DSCache/**/*", 0, 1, 1),
    ("%LOCALAPPDATA%/Intel/ShaderCache/**/*", 0, 1, 1),
    ("%LOCALAPPDATA%/Steam/htmlcache/**/*", 0, 1, 1),
    ("%PROGRAMFILES(X86)%/Steam/appcache/httpcache/**/*", 0, 1, 1),
    ("%PROGRAMFILES(X86)%/Steam/logs/*", 7, 1, 1),
    ("%PROGRAMFILES(X86)%/Steam/dumps/*", 7, 1, 1),
    ("%APPDATA%/Adobe/Common/Media Cache Files/*", 0, 1, 1),
    ("%APPDATA%/Adobe/Common/Media Cache/*", 0, 1, 1),
    ("%LOCALAPPDATA%/Sun/Java/Deployment/cache/**/*", 0, 1, 1),
    ("%LOCALAPPDATA%/Microsoft/Office/*/WebServiceCache/**/*", 0, 1, 1),
    ("%LOCALAPPDATA%/Microsoft/Office/OffDiag/*", 0, 1, 1),
    ("%LOCALAPPDATA%/npm-cache/_cacache/**/*", 0, 1, 1),
    ("%LOCALAPPDATA%/pip/cache/**/*", 0, 1, 1),
];

/// Teilzeichenketten, die Treffer einer Dateiregel ausschließen.
pub const AUSSCHLUESSE: [&'static str; 1] = ["\\Temp\\Low"];

/// Befehlszeilen der Befehlsziele.
pub const BEFEHLE: [&'static str; 2] = ["ipconfig", "/flushdns"];

/// Registry-Regeln: Wurzel, Unterschlüssel, Prüfart, Wertname.
pub const REGISTRYREGELN: [(&'static str, &'static str, Pruefart, &'static str); 8] = [
    ("HKCU", "SOFTWARE\\Microsoft\\Windows\\ShellNoRoam\\MUICache", Pruefart::WertnameIstPfad, ""),
    ("HKCU", "SOFTWARE\\Classes\\Local Settings\\Software\\Microsoft\\Windows\\Shell\\MuiCache", Pruefart::WertnameIstPfad, ""),
    ("HKLM", "SOFTWARE\\Microsoft\\Windows\\CurrentVersion\\SharedDLLs", Pruefart::WertnameIstPfad, ""),
    ("HKCU", "SOFTWARE\\Microsoft\\Windows\\CurrentVersion\\Run", Pruefart::WertIstPfad, ""),
    ("HKLM", "SOFTWARE\\Microsoft\\Windows\\CurrentVersion\\Run", Pruefart::WertIstPfad, ""),
    ("HKLM", "SOFTWARE\\Microsoft\\Windows\\CurrentVersion\\App Paths", Pruefart::UnterschluesselProgId, ""),
    ("HKCU", "SOFTWARE\\Microsoft\\Windows\\CurrentVersion\\Uninstall", Pruefart::Deinstallationseintrag, ""),
    ("HKLM", "SOFTWARE\\Microsoft\\Windows\\CurrentVersion\\Uninstall", Pruefart::Deinstallationseintrag, ""),
];

/// Dienste, die ein Ziel vor dem Löschen anhält.
pub const DIENSTE: [&'static str; 4] = ["wuauserv", "bits", "DoSvc", "FontCache"];

/// Prozesse, die die Dateien eines Ziels sperren.
pub const PROZESSE: [&'static str; 9] = ["msedge.exe", "chrome.exe", "firefox.exe", "brave.exe", "opera.exe", "vivaldi.exe", "Discord.exe", "ms-teams.exe", "Teams.exe"];

// ---------------------------------------------------------------------------
// Spezifikation
// ---------------------------------------------------------------------------

/// Die Bereiche von Zeile `i` liegen innerhalb ihrer Nebentabellen.
pub open spec fn zeile_wohlgeformt(i: int) -> bool {
    let z = ZIELE[i];
    &&& z.6 <= z.7
    &&& z.8 <= z.9 <= DIENSTE@.len()
    &&& z.10 <= z.11 <= PROZESSE@.len()
    &&& (z.2 == Art::Dateien ==> z.7 <= DATEIREGELN@.len())
    &&& (z.2 == Art::Befehl ==> z.7 <= BEFEHLE@.len())
    &&& (z.2 == Art::Registry ==> z.7 <= REGISTRYREGELN@.len())
}

/// Die Ausschlüsse von Dateiregel `j` liegen innerhalb von [`AUSSCHLUESSE`].
pub open spec fn dateiregel_wohlgeformt(j: int) -> bool {
    DATEIREGELN[j].2 <= DATEIREGELN[j].3 <= AUSSCHLUESSE@.len()
}

/// Alle Bereiche des Katalogs liegen innerhalb ihrer Nebentabellen.
pub open spec fn wohlgeformt() -> bool {
    &&& forall|i: int| 0 <= i < ANZAHL ==> #[trigger] zeile_wohlgeformt(i)
    &&& forall|j: int| 0 <= j < DATEIREGELN@.len() ==> #[trigger] dateiregel_wohlgeformt(j)
}

/// Die Katalogtabellen sind wohlgeformt.
pub proof fn lemma_wohlgeformt()
    ensures
        wohlgeformt(),
{
    assert forall|i: int| 0 <= i < ANZAHL implies #[trigger] zeile_wohlgeformt(i) by {
        assert(i == 0 || i == 1 || i == 2 || i == 3 || i == 4 || i == 5 || i == 6 || i == 7 || i == 8 || i == 9 || i == 10 || i == 11 || i == 12 || i == 13 || i == 14 || i == 15 || i == 16 || i == 17 || i == 18 || i == 19 || i == 20 || i == 21 || i == 22 || i == 23 || i == 24 || i == 25 || i == 26 || i == 27 || i == 28 || i == 29 || i == 30 || i == 31 || i == 32 || i == 33 || i == 34 || i == 35 || i == 36 || i == 37);
    }
    assert forall|j: int| 0 <= j < DATEIREGELN@.len() implies #[trigger] dateiregel_wohlgeformt(j) by {
        assert(j == 0 || j == 1 || j == 2 || j == 3 || j == 4 || j == 5 || j == 6 || j == 7 || j == 8 || j == 9 || j == 10 || j == 11 || j == 12 || j == 13 || j == 14 || j == 15 || j == 16 || j == 17 || j == 18 || j == 19 || j == 20 || j == 21 || j == 22 || j == 23 || j == 24 || j == 25 || j == 26 || j == 27 || j == 28 || j == 29 || j == 30 || j == 31 || j == 32 || j == 33 || j == 34 || j == 35 || j == 36 || j == 37 || j == 38 || j == 39 || j == 40 || j == 41 || j == 42 || j == 43 || j == 44 || j == 45 || j == 46 || j == 47 || j == 48 || j == 49 || j == 50 || j == 51 || j == 52 || j == 53 || j == 54 || j == 55 || j == 56 || j == 57 || j == 58 || j == 59 || j == 60 || j == 61 || j == 62 || j == 63 || j == 64 || j == 65 || j == 66 || j == 67 || j == 68 || j == 69 || j == 70 || j == 71 || j == 72 || j == 73 || j == 74 || j == 75 || j == 76 || j == 77 || j == 78 || j == 79 || j == 80 || j == 81 || j == 82 || j == 83 || j == 84 || j == 85 || j == 86 || j == 87 || j == 88 || j == 89 || j == 90 || j == 91 || j == 92 || j == 93 || j == 94 || j == 95 || j == 96 || j == 97 || j == 98 || j == 99 || j == 100 || j == 101 || j == 102 || j == 103 || j == 104 || j == 105 || j == 106 || j == 107 || j == 108);
    }
}

/// `r` ist die Dateiregel aus Zeile `j` von [`DATEIREGELN`].
pub open spec fn dateiregel_passt(r: FileRule, j: int) -> bool {
    let z = DATEIREGELN[j];
    &&& r.pattern == z.0
    &&& r.min_age_days == z.1
    &&& r.exclude@ == AUSSCHLUESSE@.subrange(z.2 as int, z.3 as int)
}

/// `r` ist die Registry-Regel aus Zeile `j` von [`REGISTRYREGELN`].
pub open spec fn registryregel_passt(r: RegistryRule, j: int) -> bool {
    let z = REGISTRYREGELN[j];
    &&& r.hive == z.0
    &&& r.path == z.1
    &&& r.check == match z.2 {
        Pruefart::WertnameIstPfad => RegistryCheck::ValueNameIsPath,
        Pruefart::WertIstPfad => RegistryCheck::ValueIsPath { value: z.3 },
        Pruefart::UnterschluesselProgId => RegistryCheck::SubkeyProgId,
        Pruefart::Deinstallationseintrag => RegistryCheck::UninstallEntry,
    }
}

/// `t` ist das Ziel aus Katalogzeile `i`.
pub open spec fn ziel_passt(t: Target, i: int) -> bool {
    let z = ZIELE[i];
    &&& t.key == z.0
    &&& t.category == z.1
    &&& t.risk == z.3
    &&& t.requires_admin == z.4
    &&& t.default_enabled == z.5
    &&& t.services@ == DIENSTE@.subrange(z.8 as int, z.9 as int)
    &&& t.blocking_processes@ == PROZESSE@.subrange(z.10 as int, z.11 as int)
    &&& match t.kind {
        TargetKind::Files(r) => z.2 == Art::Dateien && r@.len() == z.7 - z.6
            && forall|k: int| 0 <= k < r@.len() ==> #[trigger] dateiregel_passt(r@[k], z.6 + k),
        TargetKind::RecycleBin => z.2 == Art::Papierkorb,
        TargetKind::Command(a) => z.2 == Art::Befehl && a@ == BEFEHLE@.subrange(z.6 as int, z.7 as int),
        TargetKind::Installers => z.2 == Art::Installationsdateien,
        TargetKind::Registry(r) => z.2 == Art::Registry && r@.len() == z.7 - z.6
            && forall|k: int| 0 <= k < r@.len() ==> #[trigger] registryregel_passt(r@[k], z.6 + k),
    }
}

/// Die Zeilen `< n`, deren Kategorie `c` ist, in Katalogreihenfolge.
pub open spec fn zeilen_in(c: Category, n: nat) -> Seq<int>
    decreases n,
{
    if n == 0 {
        Seq::empty()
    } else {
        let davor = zeilen_in(c, (n - 1) as nat);
        if ZIELE[n - 1].1 == c { davor.push(n - 1) } else { davor }
    }
}

/// Die Zeilen `< n`, die vorausgewählt sind, in Katalogreihenfolge.
pub open spec fn vorausgewaehlte_zeilen(n: nat) -> Seq<int>
    decreases n,
{
    if n == 0 {
        Seq::empty()
    } else {
        let davor = vorausgewaehlte_zeilen((n - 1) as nat);
        if ZIELE[n - 1].5 { davor.push(n - 1) } else { davor }
    }
}

/// Die erste Zeile ab `i`, deren Schlüssel `key` ist.
pub open spec fn zeile_ab(key: Seq<char>, i: int) -> Option<int>
    decreases ANZAHL - i,
{
    if i < 0 || i >= ANZAHL {
        None
    } else if ZIELE[i].0@ == key {
        Some(i)
    } else {
        zeile_ab(key, i + 1)
    }
}

/// So wird ein Schlüssel vor dem Nachschlagen aufbereitet.
pub open spec fn schluesselform(key: Seq<char>) -> Seq<char> {
    zeichen::klein_folge(zeichen::getrimmt(key))
}

proof fn lemma_zeile_ab(key: Seq<char>, i: int)
    requires
        0 <= i <= ANZAHL,
    ensures
        match zeile_ab(key, i) {
            Some(k) => i <= k < ANZAHL && ZIELE[k].0@ == key
                && forall|m: int| i <= m < k ==> ZIELE[m].0@ != key,
            None => forall|m: int| i <= m < ANZAHL ==> ZIELE[m].0@ != key,
        },
    decreases ANZAHL - i,
{
    if i < ANZAHL {
        lemma_zeile_ab(key, i + 1);
    }
}

// ---------------------------------------------------------------------------
// Ausführbar
// ---------------------------------------------------------------------------

fn texte(tabelle: &[&'static str], von: usize, bis: usize) -> (r: Vec<&'static str>)
    requires
        von <= bis <= tabelle@.len(),
    ensures
        r@ == tabelle@.subrange(von as int, bis as int),
{
    let mut r: Vec<&'static str> = Vec::new();
    let mut k = von;
    while k < bis
        invariant
            von <= k <= bis <= tabelle@.len(),
            r@ == tabelle@.subrange(von as int, k as int),
        decreases bis - k,
    {
        r.push(tabelle[k]);
        k = k + 1;
        assert(r@ =~= tabelle@.subrange(von as int, k as int));
    }
    r
}

fn dateiregeln(von: usize, bis: usize) -> (r: Vec<FileRule>)
    requires
        von <= bis <= DATEIREGELN@.len(),
    ensures
        r@.len() == bis - von,
        forall|k: int| 0 <= k < r@.len() ==> #[trigger] dateiregel_passt(r@[k], von + k),
{
    proof {
        lemma_wohlgeformt();
    }
    let mut r: Vec<FileRule> = Vec::new();
    let mut k = von;
    while k < bis
        invariant
            von <= k <= bis <= DATEIREGELN@.len(),
            wohlgeformt(),
            r@.len() == k - von,
            forall|m: int| 0 <= m < r@.len() ==> #[trigger] dateiregel_passt(r@[m], von + m),
        decreases bis - k,
    {
        let z = DATEIREGELN[k];
        assert(z == DATEIREGELN[k as int]);
        let regel = FileRule {
            pattern: z.0,
            min_age_days: z.1,
            exclude: texte(&AUSSCHLUESSE, z.2, z.3),
        };
        r.push(regel);
        k = k + 1;
    }
    r
}

fn registryregeln(von: usize, bis: usize) -> (r: Vec<RegistryRule>)
    requires
        von <= bis <= REGISTRYREGELN@.len(),
    ensures
        r@.len() == bis - von,
        forall|k: int| 0 <= k < r@.len() ==> #[trigger] registryregel_passt(r@[k], von + k),
{
    let mut r: Vec<RegistryRule> = Vec::new();
    let mut k = von;
    while k < bis
        invariant
            von <= k <= bis <= REGISTRYREGELN@.len(),
            r@.len() == k - von,
            forall|m: int| 0 <= m < r@.len() ==> #[trigger] registryregel_passt(r@[m], von + m),
        decreases bis - k,
    {
        let z = REGISTRYREGELN[k];
        assert(z == REGISTRYREGELN[k as int]);
        let check = match z.2 {
            Pruefart::WertnameIstPfad => RegistryCheck::ValueNameIsPath,
            Pruefart::WertIstPfad => RegistryCheck::ValueIsPath { value: z.3 },
            Pruefart::UnterschluesselProgId => RegistryCheck::SubkeyProgId,
            Pruefart::Deinstallationseintrag => RegistryCheck::UninstallEntry,
        };
        r.push(RegistryRule { hive: z.0, path: z.1, check });
        k = k + 1;
    }
    r
}

/// Das Ziel aus Katalogzeile `i`.
fn ziel(i: usize) -> (t: Target)
    requires
        i < ANZAHL,
    ensures
        ziel_passt(t, i as int),
{
    proof {
        lemma_wohlgeformt();
    }
    let z = ZIELE[i];
    assert(z == ZIELE[i as int]);
    let kind = match z.2 {
        Art::Dateien => TargetKind::Files(dateiregeln(z.6, z.7)),
        Art::Papierkorb => TargetKind::RecycleBin,
        Art::Befehl => TargetKind::Command(texte(&BEFEHLE, z.6, z.7)),
        Art::Installationsdateien => TargetKind::Installers,
        Art::Registry => TargetKind::Registry(registryregeln(z.6, z.7)),
    };
    Target {
        key: z.0,
        category: z.1,
        kind,
        risk: z.3,
        requires_admin: z.4,
        default_enabled: z.5,
        services: texte(&DIENSTE, z.8, z.9),
        blocking_processes: texte(&PROZESSE, z.10, z.11),
    }
}

/// Alle bekannten Reinigungsziele in Katalogreihenfolge.
pub fn targets() -> (r: Vec<Target>)
    ensures
        r@.len() == ANZAHL,
        forall|i: int| 0 <= i < ANZAHL ==> #[trigger] ziel_passt(r@[i], i),
{
    let mut r: Vec<Target> = Vec::new();
    let mut i: usize = 0;
    while i < ANZAHL
        invariant
            i <= ANZAHL,
            r@.len() == i,
            forall|k: int| 0 <= k < i ==> #[trigger] ziel_passt(r@[k], k),
        decreases ANZAHL - i,
    {
        r.push(ziel(i));
        i = i + 1;
    }
    r
}

/// Ziel zu einem Schlüssel; Leerraum außen und Groß-/Kleinschreibung zählen nicht.
pub fn target_by_key(key: &str) -> (r: Option<Target>)
    ensures
        match zeile_ab(schluesselform(key@), 0) {
            Some(i) => r is Some && ziel_passt(r->0, i),
            None => r is None,
        },
{
    let gesucht = klein_von(&getrimmt_von(&zeichen_von(key)));
    let mut i: usize = 0;
    while i < ANZAHL
        invariant
            i <= ANZAHL,
            gesucht@ == schluesselform(key@),
            zeile_ab(schluesselform(key@), 0) == zeile_ab(schluesselform(key@), i as int),
        decreases ANZAHL - i,
    {
        let z = ZIELE[i];
        assert(z == ZIELE[i as int]);
        if gleiche_folge(&zeichen_von(z.0), &gesucht) {
            return Some(ziel(i));
        }
        i = i + 1;
    }
    None
}

/// Alle Ziele einer Kategorie, in Katalogreihenfolge.
pub fn targets_in(category: Category) -> (r: Vec<Target>)
    ensures
        r@.len() == zeilen_in(category, ANZAHL as nat).len(),
        forall|k: int| 0 <= k < r@.len() ==> #[trigger] ziel_passt(r@[k], zeilen_in(category, ANZAHL as nat)[k]),
{
    let mut r: Vec<Target> = Vec::new();
    let mut i: usize = 0;
    while i < ANZAHL
        invariant
            i <= ANZAHL,
            r@.len() == zeilen_in(category, i as nat).len(),
            forall|k: int| 0 <= k < r@.len() ==> #[trigger] ziel_passt(r@[k], zeilen_in(category, i as nat)[k]),
        decreases ANZAHL - i,
    {
        let z = ZIELE[i];
        assert(z == ZIELE[i as int]);
        if z.1 == category {
            r.push(ziel(i));
        }
        i = i + 1;
    }
    r
}

/// Standardauswahl: die Schlüssel der vorausgewählten Ziele.
pub fn default_selection() -> (r: Vec<&'static str>)
    ensures
        r@.len() == vorausgewaehlte_zeilen(ANZAHL as nat).len(),
        forall|k: int| 0 <= k < r@.len() ==> #[trigger] r@[k] == ZIELE[vorausgewaehlte_zeilen(ANZAHL as nat)[k]].0,
{
    let mut r: Vec<&'static str> = Vec::new();
    let mut i: usize = 0;
    while i < ANZAHL
        invariant
            i <= ANZAHL,
            r@.len() == vorausgewaehlte_zeilen(i as nat).len(),
            forall|k: int| 0 <= k < r@.len() ==> #[trigger] r@[k] == ZIELE[vorausgewaehlte_zeilen(i as nat)[k]].0,
        decreases ANZAHL - i,
    {
        let z = ZIELE[i];
        assert(z == ZIELE[i as int]);
        if z.5 {
            r.push(z.0);
        }
        i = i + 1;
    }
    r
}

// ---------------------------------------------------------------------------
// Gesetze des Katalogs
// ---------------------------------------------------------------------------

/// Jede Zeilennummer des Katalogs ist eine der 38 bekannten.
proof fn lemma_zeilennummer(i: int)
    requires
        0 <= i < ANZAHL,
    ensures
        i == 0 || i == 1 || i == 2 || i == 3 || i == 4 || i == 5 || i == 6 || i == 7 || i == 8 || i == 9 || i == 10 || i == 11 || i == 12 || i == 13 || i == 14 || i == 15 || i == 16 || i == 17 || i == 18 || i == 19 || i == 20 || i == 21 || i == 22 || i == 23 || i == 24 || i == 25 || i == 26 || i == 27 || i == 28 || i == 29 || i == 30 || i == 31 || i == 32 || i == 33 || i == 34 || i == 35 || i == 36 || i == 37,
{
}

/// Riskante Ziele (Datenverlust möglich) sind nie vorausgewählt.
pub proof fn riskante_ziele_nie_vorausgewaehlt(t: Target, i: int)
    requires
        0 <= i < ANZAHL,
        ziel_passt(t, i),
        t.risk == Risk::Caution,
    ensures
        !t.default_enabled,
{
    lemma_zeilennummer(i);
}

/// Ein Ziel, das Dienste anhält, verlangt Administratorrechte.
pub proof fn dienststeuerung_verlangt_adminrechte(t: Target, i: int)
    requires
        0 <= i < ANZAHL,
        ziel_passt(t, i),
        t.services@.len() > 0,
    ensures
        t.requires_admin,
{
    lemma_zeilennummer(i);
    lemma_wohlgeformt();
    assert(zeile_wohlgeformt(i));
}

/// Installationsdateien werden nur vorgeschlagen und sind nie vorausgewählt.
pub proof fn vorschlaege_nie_vorausgewaehlt(t: Target, i: int)
    requires
        0 <= i < ANZAHL,
        ziel_passt(t, i),
        t.kind is Installers,
    ensures
        !t.default_enabled,
{
    lemma_zeilennummer(i);
}

proof fn lemma_vorausgewaehlte_zeilen(n: nat)
    requires
        n <= ANZAHL,
    ensures
        forall|k: int| 0 <= k < vorausgewaehlte_zeilen(n).len() ==> {
            let i = #[trigger] vorausgewaehlte_zeilen(n)[k];
            0 <= i < n && ZIELE[i].5
        },
    decreases n,
{
    if n > 0 {
        lemma_vorausgewaehlte_zeilen((n - 1) as nat);
        let davor = vorausgewaehlte_zeilen((n - 1) as nat);
        assert forall|k: int| 0 <= k < vorausgewaehlte_zeilen(n).len() implies {
            let i = #[trigger] vorausgewaehlte_zeilen(n)[k];
            0 <= i < n && ZIELE[i].5
        } by {
            if k < davor.len() {
                assert(vorausgewaehlte_zeilen(n)[k] == davor[k]);
            }
        }
    }
}

/// Die Standardauswahl verweist nur auf Katalogzeilen.
pub proof fn standardauswahl_liegt_im_katalog(n: nat, k: int)
    requires
        n <= ANZAHL,
        0 <= k < vorausgewaehlte_zeilen(n).len(),
    ensures
        0 <= vorausgewaehlte_zeilen(n)[k] < n,
{
    lemma_vorausgewaehlte_zeilen(n);
}

proof fn lemma_auswahl_laenge(n: nat)
    requires
        n <= ANZAHL,
    ensures
        vorausgewaehlte_zeilen(n).len() <= n,
        n == ANZAHL ==> vorausgewaehlte_zeilen(n).len() < n,
    decreases n,
{
    if n > 0 {
        lemma_auswahl_laenge((n - 1) as nat);
        if n == ANZAHL {
            assert(!ZIELE[n - 1].5);
        }
    }
}

/// Die Standardauswahl umfasst nicht den ganzen Katalog.
pub proof fn standardauswahl_ist_nicht_alles()
    ensures
        vorausgewaehlte_zeilen(ANZAHL as nat).len() < ANZAHL,
{
    lemma_auswahl_laenge(ANZAHL as nat);
}

/// Die Standardauswahl enthält nur vorausgewählte und nie riskante Ziele.
pub proof fn standardauswahl_ist_unbedenklich(k: int)
    requires
        0 <= k < vorausgewaehlte_zeilen(ANZAHL as nat).len(),
    ensures
        ZIELE[vorausgewaehlte_zeilen(ANZAHL as nat)[k]].5,
        ZIELE[vorausgewaehlte_zeilen(ANZAHL as nat)[k]].3 != Risk::Caution,
{
    lemma_vorausgewaehlte_zeilen(ANZAHL as nat);
    let i = vorausgewaehlte_zeilen(ANZAHL as nat)[k];
    lemma_zeilennummer(i);
}

/// Jede Kategorie hat mindestens ein Ziel.
pub proof fn jede_kategorie_hat_ziele(c: Category)
    ensures
        exists|i: int| 0 <= i < ANZAHL && #[trigger] ZIELE[i].1 == c,
{
    match c {
        Category::System => assert(ZIELE[0].1 == c),
        Category::RecycleBin => assert(ZIELE[15].1 == c),
        Category::Browsers => assert(ZIELE[16].1 == c),
        Category::Apps => assert(ZIELE[25].1 == c),
        Category::Installers => assert(ZIELE[35].1 == c),
        Category::Registry => assert(ZIELE[36].1 == c),
    }
}

/// Die Zahl der Zeilen `< n`, über alle Kategorien von [`Category::ALL`]
/// summiert.
pub open spec fn zeilen_aller_kategorien(n: nat) -> nat {
    zeilen_in(Category::ALL[0], n).len() + zeilen_in(Category::ALL[1], n).len()
        + zeilen_in(Category::ALL[2], n).len() + zeilen_in(Category::ALL[3], n).len()
        + zeilen_in(Category::ALL[4], n).len() + zeilen_in(Category::ALL[5], n).len()
}

proof fn lemma_kategoriesumme(n: nat)
    requires
        n <= ANZAHL,
    ensures
        zeilen_aller_kategorien(n) == n,
    decreases n,
{
    if n > 0 {
        lemma_kategoriesumme((n - 1) as nat);
        match ZIELE[n - 1].1 {
            Category::System => assert(Category::ALL[0] == Category::System),
            Category::Browsers => assert(Category::ALL[1] == Category::Browsers),
            Category::Apps => assert(Category::ALL[2] == Category::Apps),
            Category::Installers => assert(Category::ALL[3] == Category::Installers),
            Category::RecycleBin => assert(Category::ALL[4] == Category::RecycleBin),
            Category::Registry => assert(Category::ALL[5] == Category::Registry),
        }
    }
}

/// Die Kategorien teilen den Katalog auf: jedes Ziel gehört zu genau einer,
/// und die Zielzahlen aller Kategorien ergeben zusammen den ganzen Katalog.
pub proof fn kategorien_teilen_den_katalog()
    ensures
        zeilen_aller_kategorien(ANZAHL as nat) == ANZAHL,
{
    lemma_kategoriesumme(ANZAHL as nat);
}

/// Verschiedene Katalogzeilen haben verschiedene Schlüssel.
#[verifier::rlimit(100)]
pub proof fn schluessel_sind_eindeutig(i: int, j: int)
    requires
        0 <= i < j < ANZAHL,
    ensures
        ZIELE[i].0@ != ZIELE[j].0@,
{
    reveal_strlit("system.temp.user");
    reveal_strlit("system.temp.windows");
    reveal_strlit("system.thumbnails");
    reveal_strlit("system.inetcache");
    reveal_strlit("system.errorreports");
    reveal_strlit("system.crashdumps");
    reveal_strlit("system.logs");
    reveal_strlit("system.dns");
    reveal_strlit("system.prefetch");
    reveal_strlit("system.windowsupdate");
    reveal_strlit("system.deliveryoptimization");
    reveal_strlit("system.fontcache");
    reveal_strlit("system.recentdocs");
    reveal_strlit("system.searchcache");
    reveal_strlit("system.windowsold");
    reveal_strlit("recyclebin.all");
    reveal_strlit("browser.edge.cache");
    reveal_strlit("browser.chrome.cache");
    reveal_strlit("browser.firefox.cache");
    reveal_strlit("browser.brave.cache");
    reveal_strlit("browser.opera.cache");
    reveal_strlit("browser.vivaldi.cache");
    reveal_strlit("browser.cookies");
    reveal_strlit("browser.history");
    reveal_strlit("browser.predictor");
    reveal_strlit("app.discord");
    reveal_strlit("app.teams");
    reveal_strlit("app.spotify");
    reveal_strlit("app.vscode");
    reveal_strlit("app.gpushadercache");
    reveal_strlit("app.steam");
    reveal_strlit("app.adobe");
    reveal_strlit("app.java");
    reveal_strlit("app.office");
    reveal_strlit("app.packagemanagers");
    reveal_strlit("installers.downloads");
    reveal_strlit("registry.privacy");
    reveal_strlit("registry.orphans");
    lemma_zeilennummer(i);
    lemma_zeilennummer(j);
    let a = ZIELE[i].0@;
    let b = ZIELE[j].0@;
    if a == b {
        assert(a.len() == b.len() && a[0] == b[0] && a[1] == b[1] && a[2] == b[2] && a[3] == b[3] && a[4] == b[4] && a[5] == b[5] && a[6] == b[6] && a[7] == b[7] && a[8] == b[8] && a[9] == b[9] && a[10] == b[10] && a[11] == b[11] && a[12] == b[12]);
    }
}

// ---------------------------------------------------------------------------
// Schreibweisen
// ---------------------------------------------------------------------------

/// Ein Muster beginnt mit einer Umgebungsvariable – kein Laufwerk ist fest
/// verdrahtet – und trennt mit `/`; die Umwandlung in Windows-Trenner
/// geschieht beim Einsetzen der Variablen.
pub open spec fn muster_wohlgeschrieben(m: Seq<char>) -> bool {
    &&& m.len() > 0
    &&& m[0] == '%'
    &&& forall|k: int| 0 <= k < m.len() ==> #[trigger] m[k] != '\\'
}

/// Ein Zielschlüssel besteht aus kleinen ASCII-Buchstaben, Ziffern, `_` und
/// `.` und ist mit `.` gegliedert (`bereich.name`).
pub open spec fn schluessel_wohlgeschrieben(k: Seq<char>) -> bool {
    &&& forall|c: int| 0 <= c < k.len() ==> ('a' <= #[trigger] k[c] && k[c] <= 'z') || ('0' <= k[c] && k[c] <= '9')
        || k[c] == '_' || k[c] == '.'
    &&& exists|c: int| 0 <= c < k.len() && #[trigger] k[c] == '.'
}

proof fn lemma_muster_0(j: int)
    requires
        0 <= j < 22,
    ensures
        muster_wohlgeschrieben(DATEIREGELN[j].0@),
{
    reveal_strlit("%TEMP%/*");
    reveal_strlit("%WINDIR%/Temp/*");
    reveal_strlit("%LOCALAPPDATA%/Microsoft/Windows/Explorer/thumbcache_*.db");
    reveal_strlit("%LOCALAPPDATA%/Microsoft/Windows/Explorer/iconcache_*.db");
    reveal_strlit("%LOCALAPPDATA%/Microsoft/Windows/INetCache/**/*");
    reveal_strlit("%LOCALAPPDATA%/Microsoft/Windows/INetCache/IE/*");
    reveal_strlit("%LOCALAPPDATA%/Microsoft/Windows/WER/ReportArchive/*");
    reveal_strlit("%LOCALAPPDATA%/Microsoft/Windows/WER/ReportQueue/*");
    reveal_strlit("%PROGRAMDATA%/Microsoft/Windows/WER/ReportArchive/*");
    reveal_strlit("%PROGRAMDATA%/Microsoft/Windows/WER/ReportQueue/*");
    reveal_strlit("%LOCALAPPDATA%/CrashDumps/*");
    reveal_strlit("%WINDIR%/Minidump/*.dmp");
    reveal_strlit("%WINDIR%/MEMORY.DMP");
    reveal_strlit("%WINDIR%/LiveKernelReports/**/*.dmp");
    reveal_strlit("%WINDIR%/Logs/CBS/CbsPersist_*.log");
    reveal_strlit("%WINDIR%/Logs/CBS/*.cab");
    reveal_strlit("%WINDIR%/Logs/DISM/*.log");
    reveal_strlit("%WINDIR%/Logs/WindowsUpdate/*");
    reveal_strlit("%WINDIR%/Panther/*.log");
    reveal_strlit("%WINDIR%/INF/setupapi.dev*.log");
    reveal_strlit("%PROGRAMDATA%/USOShared/Logs/*");
    reveal_strlit("%WINDIR%/Prefetch/*.pf");
    assert(j == 0 || j == 1 || j == 2 || j == 3 || j == 4 || j == 5 || j == 6 || j == 7 || j == 8 || j == 9 || j == 10 || j == 11 || j == 12 || j == 13 || j == 14 || j == 15 || j == 16 || j == 17 || j == 18 || j == 19 || j == 20 || j == 21);
}

proof fn lemma_muster_1(j: int)
    requires
        22 <= j < 44,
    ensures
        muster_wohlgeschrieben(DATEIREGELN[j].0@),
{
    reveal_strlit("%WINDIR%/SoftwareDistribution/Download/*");
    reveal_strlit("%WINDIR%/SoftwareDistribution/DataStore/Logs/*");
    reveal_strlit("%WINDIR%/SoftwareDistribution/*.log");
    reveal_strlit("%PROGRAMDATA%/Microsoft/Windows/DeliveryOptimization/Cache/*");
    reveal_strlit("%WINDIR%/ServiceProfiles/NetworkService/AppData/Local/Microsoft/Windows/DeliveryOptimization/*");
    reveal_strlit("%WINDIR%/ServiceProfiles/LocalService/AppData/Local/FontCache/*.dat");
    reveal_strlit("%APPDATA%/Microsoft/Windows/Recent/*.lnk");
    reveal_strlit("%APPDATA%/Microsoft/Windows/Recent/AutomaticDestinations/*");
    reveal_strlit("%LOCALAPPDATA%/Packages/Microsoft.Windows.Search_cw5n1h2txyewy/LocalState/AppIconCache/**/*");
    reveal_strlit("%SYSTEMDRIVE%/Windows.old");
    reveal_strlit("%SYSTEMDRIVE%/$Windows.~BT");
    reveal_strlit("%SYSTEMDRIVE%/$Windows.~WS");
    reveal_strlit("%LOCALAPPDATA%/Microsoft/Edge/User Data/*/Cache/Cache_Data/*");
    reveal_strlit("%LOCALAPPDATA%/Microsoft/Edge/User Data/*/Code Cache/**/*");
    reveal_strlit("%LOCALAPPDATA%/Microsoft/Edge/User Data/*/GPUCache/*");
    reveal_strlit("%LOCALAPPDATA%/Microsoft/Edge/User Data/*/Service Worker/CacheStorage/**/*");
    reveal_strlit("%LOCALAPPDATA%/Microsoft/Edge/User Data/ShaderCache/**/*");
    reveal_strlit("%LOCALAPPDATA%/Microsoft/Edge/User Data/GrShaderCache/**/*");
    reveal_strlit("%LOCALAPPDATA%/Google/Chrome/User Data/*/Cache/Cache_Data/*");
    reveal_strlit("%LOCALAPPDATA%/Google/Chrome/User Data/*/Code Cache/**/*");
    reveal_strlit("%LOCALAPPDATA%/Google/Chrome/User Data/*/GPUCache/*");
    reveal_strlit("%LOCALAPPDATA%/Google/Chrome/User Data/*/Service Worker/CacheStorage/**/*");
    assert(j == 22 || j == 23 || j == 24 || j == 25 || j == 26 || j == 27 || j == 28 || j == 29 || j == 30 || j == 31 || j == 32 || j == 33 || j == 34 || j == 35 || j == 36 || j == 37 || j == 38 || j == 39 || j == 40 || j == 41 || j == 42 || j == 43);
}

proof fn lemma_muster_2(j: int)
    requires
        44 <= j < 66,
    ensures
        muster_wohlgeschrieben(DATEIREGELN[j].0@),
{
    reveal_strlit("%LOCALAPPDATA%/Google/Chrome/User Data/ShaderCache/**/*");
    reveal_strlit("%LOCALAPPDATA%/Google/Chrome/User Data/GrShaderCache/**/*");
    reveal_strlit("%LOCALAPPDATA%/Mozilla/Firefox/Profiles/*/cache2/entries/*");
    reveal_strlit("%LOCALAPPDATA%/Mozilla/Firefox/Profiles/*/startupCache/*");
    reveal_strlit("%LOCALAPPDATA%/Mozilla/Firefox/Profiles/*/thumbnails/*");
    reveal_strlit("%LOCALAPPDATA%/Mozilla/Firefox/Profiles/*/jumpListCache/*");
    reveal_strlit("%APPDATA%/Mozilla/Firefox/Crash Reports/**/*");
    reveal_strlit("%LOCALAPPDATA%/BraveSoftware/Brave-Browser/User Data/*/Cache/Cache_Data/*");
    reveal_strlit("%LOCALAPPDATA%/BraveSoftware/Brave-Browser/User Data/*/Code Cache/**/*");
    reveal_strlit("%LOCALAPPDATA%/BraveSoftware/Brave-Browser/User Data/*/GPUCache/*");
    reveal_strlit("%LOCALAPPDATA%/Opera Software/Opera*/Cache/Cache_Data/*");
    reveal_strlit("%LOCALAPPDATA%/Opera Software/Opera*/Code Cache/**/*");
    reveal_strlit("%LOCALAPPDATA%/Opera Software/Opera*/GPUCache/*");
    reveal_strlit("%LOCALAPPDATA%/Vivaldi/User Data/*/Cache/Cache_Data/*");
    reveal_strlit("%LOCALAPPDATA%/Vivaldi/User Data/*/Code Cache/**/*");
    reveal_strlit("%LOCALAPPDATA%/Microsoft/Edge/User Data/*/Network/Cookies");
    reveal_strlit("%LOCALAPPDATA%/Google/Chrome/User Data/*/Network/Cookies");
    reveal_strlit("%LOCALAPPDATA%/Mozilla/Firefox/Profiles/*/cookies.sqlite");
    reveal_strlit("%LOCALAPPDATA%/BraveSoftware/Brave-Browser/User Data/*/Network/Cookies");
    reveal_strlit("%LOCALAPPDATA%/Microsoft/Edge/User Data/*/History");
    reveal_strlit("%LOCALAPPDATA%/Google/Chrome/User Data/*/History");
    reveal_strlit("%LOCALAPPDATA%/Mozilla/Firefox/Profiles/*/places.sqlite");
    assert(j == 44 || j == 45 || j == 46 || j == 47 || j == 48 || j == 49 || j == 50 || j == 51 || j == 52 || j == 53 || j == 54 || j == 55 || j == 56 || j == 57 || j == 58 || j == 59 || j == 60 || j == 61 || j == 62 || j == 63 || j == 64 || j == 65);
}

proof fn lemma_muster_3(j: int)
    requires
        66 <= j < 88,
    ensures
        muster_wohlgeschrieben(DATEIREGELN[j].0@),
{
    reveal_strlit("%LOCALAPPDATA%/Microsoft/Edge/User Data/*/Network Action Predictor");
    reveal_strlit("%LOCALAPPDATA%/Google/Chrome/User Data/*/Network Action Predictor");
    reveal_strlit("%APPDATA%/discord/Cache/Cache_Data/*");
    reveal_strlit("%APPDATA%/discord/Code Cache/**/*");
    reveal_strlit("%APPDATA%/discord/GPUCache/*");
    reveal_strlit("%APPDATA%/Microsoft/Teams/Cache/*");
    reveal_strlit("%APPDATA%/Microsoft/Teams/Code Cache/**/*");
    reveal_strlit("%APPDATA%/Microsoft/Teams/GPUCache/*");
    reveal_strlit("%APPDATA%/Microsoft/Teams/blob_storage/**/*");
    reveal_strlit("%APPDATA%/Microsoft/Teams/tmp/*");
    reveal_strlit("%APPDATA%/Microsoft Teams/Logs/*");
    reveal_strlit("%LOCALAPPDATA%/Packages/MSTeams_8wekyb3d8bbwe/LocalCache/**/*");
    reveal_strlit("%LOCALAPPDATA%/Packages/MSTeams_8wekyb3d8bbwe/TempState/**/*");
    reveal_strlit("%LOCALAPPDATA%/Spotify/Data/*");
    reveal_strlit("%LOCALAPPDATA%/Spotify/Browser/Cache/*");
    reveal_strlit("%APPDATA%/Spotify/*.log");
    reveal_strlit("%APPDATA%/Code/Cache/*");
    reveal_strlit("%APPDATA%/Code/CachedData/*");
    reveal_strlit("%APPDATA%/Code/CachedExtensionVSIXs/*");
    reveal_strlit("%APPDATA%/Code/Code Cache/**/*");
    reveal_strlit("%APPDATA%/Code/GPUCache/*");
    reveal_strlit("%APPDATA%/Code/logs/*");
    assert(j == 66 || j == 67 || j == 68 || j == 69 || j == 70 || j == 71 || j == 72 || j == 73 || j == 74 || j == 75 || j == 76 || j == 77 || j == 78 || j == 79 || j == 80 || j == 81 || j == 82 || j == 83 || j == 84 || j == 85 || j == 86 || j == 87);
}

proof fn lemma_muster_4(j: int)
    requires
        88 <= j < 109,
    ensures
        muster_wohlgeschrieben(DATEIREGELN[j].0@),
{
    reveal_strlit("%APPDATA%/Code/Crashpad/**/*");
    reveal_strlit("%LOCALAPPDATA%/NVIDIA/DXCache/*");
    reveal_strlit("%LOCALAPPDATA%/NVIDIA/GLCache/**/*");
    reveal_strlit("%LOCALAPPDATA%/NVIDIA Corporation/NV_Cache/*");
    reveal_strlit("%LOCALAPPDATA%/AMD/DxCache/*");
    reveal_strlit("%LOCALAPPDATA%/AMD/DxcCache/*");
    reveal_strlit("%LOCALAPPDATA%/AMD/GLCache/**/*");
    reveal_strlit("%LOCALAPPDATA%/AMD/VkCache/**/*");
    reveal_strlit("%LOCALAPPDATA%/D3DSCache/**/*");
    reveal_strlit("%LOCALAPPDATA%/Intel/ShaderCache/**/*");
    reveal_strlit("%LOCALAPPDATA%/Steam/htmlcache/**/*");
    reveal_strlit("%PROGRAMFILES(X86)%/Steam/appcache/httpcache/**/*");
    reveal_strlit("%PROGRAMFILES(X86)%/Steam/logs/*");
    reveal_strlit("%PROGRAMFILES(X86)%/Steam/dumps/*");
    reveal_strlit("%APPDATA%/Adobe/Common/Media Cache Files/*");
    reveal_strlit("%APPDATA%/Adobe/Common/Media Cache/*");
    reveal_strlit("%LOCALAPPDATA%/Sun/Java/Deployment/cache/**/*");
    reveal_strlit("%LOCALAPPDATA%/Microsoft/Office/*/WebServiceCache/**/*");
    reveal_strlit("%LOCALAPPDATA%/Microsoft/Office/OffDiag/*");
    reveal_strlit("%LOCALAPPDATA%/npm-cache/_cacache/**/*");
    reveal_strlit("%LOCALAPPDATA%/pip/cache/**/*");
    assert(j == 88 || j == 89 || j == 90 || j == 91 || j == 92 || j == 93 || j == 94 || j == 95 || j == 96 || j == 97 || j == 98 || j == 99 || j == 100 || j == 101 || j == 102 || j == 103 || j == 104 || j == 105 || j == 106 || j == 107 || j == 108);
}

/// Jede Dateiregel des Katalogs beginnt mit einer Umgebungsvariable und
/// verwendet Vorwärtsschrägstriche.
pub proof fn muster_sind_wohlgeschrieben(j: int)
    requires
        0 <= j < DATEIREGELN@.len(),
    ensures
        muster_wohlgeschrieben(DATEIREGELN[j].0@),
{
    if j < 22 {
        lemma_muster_0(j);
    } else if j < 44 {
        lemma_muster_1(j);
    } else if j < 66 {
        lemma_muster_2(j);
    } else if j < 88 {
        lemma_muster_3(j);
    } else if j < 109 {
        lemma_muster_4(j);
    }
}

proof fn lemma_schluessel_0(i: int)
    requires
        0 <= i < 13,
    ensures
        schluessel_wohlgeschrieben(ZIELE[i].0@),
{
    reveal_strlit("system.temp.user");
    reveal_strlit("system.temp.windows");
    reveal_strlit("system.thumbnails");
    reveal_strlit("system.inetcache");
    reveal_strlit("system.errorreports");
    reveal_strlit("system.crashdumps");
    reveal_strlit("system.logs");
    reveal_strlit("system.dns");
    reveal_strlit("system.prefetch");
    reveal_strlit("system.windowsupdate");
    reveal_strlit("system.deliveryoptimization");
    reveal_strlit("system.fontcache");
    reveal_strlit("system.recentdocs");
    if i == 0 {
        assert(ZIELE[i].0@[6] == '.');
    } else if i == 1 {
        assert(ZIELE[i].0@[6] == '.');
    } else if i == 2 {
        assert(ZIELE[i].0@[6] == '.');
    } else if i == 3 {
        assert(ZIELE[i].0@[6] == '.');
    } else if i == 4 {
        assert(ZIELE[i].0@[6] == '.');
    } else if i == 5 {
        assert(ZIELE[i].0@[6] == '.');
    } else if i == 6 {
        assert(ZIELE[i].0@[6] == '.');
    } else if i == 7 {
        assert(ZIELE[i].0@[6] == '.');
    } else if i == 8 {
        assert(ZIELE[i].0@[6] == '.');
    } else if i == 9 {
        assert(ZIELE[i].0@[6] == '.');
    } else if i == 10 {
        assert(ZIELE[i].0@[6] == '.');
    } else if i == 11 {
        assert(ZIELE[i].0@[6] == '.');
    } else if i == 12 {
        assert(ZIELE[i].0@[6] == '.');
    }
}

proof fn lemma_schluessel_1(i: int)
    requires
        13 <= i < 26,
    ensures
        schluessel_wohlgeschrieben(ZIELE[i].0@),
{
    reveal_strlit("system.searchcache");
    reveal_strlit("system.windowsold");
    reveal_strlit("recyclebin.all");
    reveal_strlit("browser.edge.cache");
    reveal_strlit("browser.chrome.cache");
    reveal_strlit("browser.firefox.cache");
    reveal_strlit("browser.brave.cache");
    reveal_strlit("browser.opera.cache");
    reveal_strlit("browser.vivaldi.cache");
    reveal_strlit("browser.cookies");
    reveal_strlit("browser.history");
    reveal_strlit("browser.predictor");
    reveal_strlit("app.discord");
    if i == 13 {
        assert(ZIELE[i].0@[6] == '.');
    } else if i == 14 {
        assert(ZIELE[i].0@[6] == '.');
    } else if i == 15 {
        assert(ZIELE[i].0@[10] == '.');
    } else if i == 16 {
        assert(ZIELE[i].0@[7] == '.');
    } else if i == 17 {
        assert(ZIELE[i].0@[7] == '.');
    } else if i == 18 {
        assert(ZIELE[i].0@[7] == '.');
    } else if i == 19 {
        assert(ZIELE[i].0@[7] == '.');
    } else if i == 20 {
        assert(ZIELE[i].0@[7] == '.');
    } else if i == 21 {
        assert(ZIELE[i].0@[7] == '.');
    } else if i == 22 {
        assert(ZIELE[i].0@[7] == '.');
    } else if i == 23 {
        assert(ZIELE[i].0@[7] == '.');
    } else if i == 24 {
        assert(ZIELE[i].0@[7] == '.');
    } else if i == 25 {
        assert(ZIELE[i].0@[3] == '.');
    }
}

proof fn lemma_schluessel_2(i: int)
    requires
        26 <= i < 38,
    ensures
        schluessel_wohlgeschrieben(ZIELE[i].0@),
{
    reveal_strlit("app.teams");
    reveal_strlit("app.spotify");
    reveal_strlit("app.vscode");
    reveal_strlit("app.gpushadercache");
    reveal_strlit("app.steam");
    reveal_strlit("app.adobe");
    reveal_strlit("app.java");
    reveal_strlit("app.office");
    reveal_strlit("app.packagemanagers");
    reveal_strlit("installers.downloads");
    reveal_strlit("registry.privacy");
    reveal_strlit("registry.orphans");
    if i == 26 {
        assert(ZIELE[i].0@[3] == '.');
    } else if i == 27 {
        assert(ZIELE[i].0@[3] == '.');
    } else if i == 28 {
        assert(ZIELE[i].0@[3] == '.');
    } else if i == 29 {
        assert(ZIELE[i].0@[3] == '.');
    } else if i == 30 {
        assert(ZIELE[i].0@[3] == '.');
    } else if i == 31 {
        assert(ZIELE[i].0@[3] == '.');
    } else if i == 32 {
        assert(ZIELE[i].0@[3] == '.');
    } else if i == 33 {
        assert(ZIELE[i].0@[3] == '.');
    } else if i == 34 {
        assert(ZIELE[i].0@[3] == '.');
    } else if i == 35 {
        assert(ZIELE[i].0@[10] == '.');
    } else if i == 36 {
        assert(ZIELE[i].0@[8] == '.');
    } else if i == 37 {
        assert(ZIELE[i].0@[8] == '.');
    }
}

proof fn lemma_schluessel(i: int)
    requires
        0 <= i < ANZAHL,
    ensures
        schluessel_wohlgeschrieben(ZIELE[i].0@),
{
    if i < 13 {
        lemma_schluessel_0(i);
    } else if i < 26 {
        lemma_schluessel_1(i);
    } else if i < 38 {
        lemma_schluessel_2(i);
    }
}

/// Jeder Zielschlüssel folgt der Namenskonvention: kleine ASCII-Buchstaben,
/// Ziffern, `_` und `.`, mit `.` gegliedert.
pub proof fn schluessel_folgen_der_namenskonvention(t: Target, i: int)
    requires
        0 <= i < ANZAHL,
        ziel_passt(t, i),
    ensures
        schluessel_wohlgeschrieben(t.key@),
{
    lemma_schluessel(i);
}

/// Ein Katalogschlüssel ist schon in Nachschlageform und führt auf seine
/// eigene Zeile.
pub proof fn schluessel_findet_seine_zeile(j: int)
    requires
        0 <= j < ANZAHL,
    ensures
        schluesselform(ZIELE[j].0@) == ZIELE[j].0@,
        zeile_ab(ZIELE[j].0@, 0) == Some(j),
{
    let k = ZIELE[j].0@;
    lemma_schluessel(j);
    let c = choose|c: int| 0 <= c < k.len() && #[trigger] k[c] == '.';
    assert(k.len() > 0);
    assert(!zeichen::leerraum(k[0]) && !zeichen::leerraum(k[k.len() - 1]));
    let ws = |x: char| zeichen::leerraum(x);
    zeichen::lemma_ohne_vorne(k, ws, 0);
    assert(k.subrange(0, k.len() as int) =~= k);
    zeichen::lemma_ohne_hinten(k, ws, k.len() as int);
    assert(zeichen::getrimmt(k) == k);
    assert(zeichen::klein_folge(k) =~= k);
    lemma_zeile_ab(k, 0);
    match zeile_ab(k, 0) {
        Some(m) => {
            if m < j {
                schluessel_sind_eindeutig(m, j);
            }
        },
        None => {},
    }
}

/// Die Dateiregeln eines Ziels sind wohlgeschrieben.
pub proof fn regeln_eines_ziels_sind_wohlgeschrieben(t: Target, i: int, k: int)
    requires
        0 <= i < ANZAHL,
        ziel_passt(t, i),
        t.kind is Files,
        0 <= k < t.kind->Files_0@.len(),
    ensures
        muster_wohlgeschrieben(t.kind->Files_0@[k].pattern@),
{
    lemma_wohlgeformt();
    assert(zeile_wohlgeformt(i));
    let r = t.kind->Files_0@;
    assert(dateiregel_passt(r[k], ZIELE[i].6 + k));
    muster_sind_wohlgeschrieben(ZIELE[i].6 + k);
}

/// Jedes Ziel hat eine Wirkung: Dateiregeln, einen Befehl oder
/// Registry-Regeln – nur Papierkorb und Installationsdateien kommen ohne aus.
pub proof fn jedes_ziel_hat_eine_wirkung(t: Target, i: int)
    requires
        0 <= i < ANZAHL,
        ziel_passt(t, i),
    ensures
        match t.kind {
            TargetKind::Files(r) => r@.len() > 0,
            TargetKind::Command(a) => a@.len() > 0,
            TargetKind::Registry(r) => r@.len() > 0,
            _ => true,
        },
{
    lemma_zeilennummer(i);
}

} // verus!
