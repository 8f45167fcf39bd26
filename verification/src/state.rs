//! Anwendungszustand: Bildschirme, Erscheinungsbild, Einstellungen.
//!
//! Gespeichert und geladen wird außerhalb der Bibliothek (als JSON im
//! App-Config-Verzeichnis); hier steht, was der Zustand bedeutet.

use vstd::prelude::*;
use crate::i18n;
use crate::i18n::normalize;
use crate::zeichen::gleich;
use crate::engine::fsutil;

verus! {

/// Dateiname im App-Config-Verzeichnis.
pub const STATE_FILE: &'static str = "state.json";

/// Unterverzeichnis für Registry-Sicherungen.
pub const BACKUP_DIR: &'static str = "backups";

/// Zustände der Oberfläche.
#[derive(Debug, Clone, Copy, PartialEq, Eq, Structural)]
pub enum Screen {
    Welcome,
    Home,
    About,
}

impl Screen {
    pub fn as_str(self) -> (r: &'static str)
        ensures
            r@ == (match self {
                Screen::Welcome => "welcome"@,
                Screen::Home => "home"@,
                Screen::About => "about"@,
            }),
    {
        match self {
            Screen::Welcome => "welcome",
            Screen::Home => "home",
            Screen::About => "about",
        }
    }

    /// Name des Events, das beim Wechsel emittiert wird.
    pub fn event(self) -> (r: &'static str)
        ensures
            r@ == (match self {
                Screen::Welcome => "navigate-welcome"@,
                Screen::Home => "navigate-home"@,
                Screen::About => "navigate-about"@,
            }),
    {
        match self {
            Screen::Welcome => "navigate-welcome",
            Screen::Home => "navigate-home",
            Screen::About => "navigate-about",
        }
    }
}

/// Erscheinungsbild der Oberfläche.
#[derive(Debug, Clone, Copy, PartialEq, Eq, Structural)]
pub enum Theme {
    System,
    Light,
    Dark,
}

impl Theme {
    pub fn as_str(self) -> (r: &'static str)
        ensures
            r@ == (match self {
                Theme::System => "system"@,
                Theme::Light => "light"@,
                Theme::Dark => "dark"@,
            }),
    {
        match self {
            Theme::System => "system",
            Theme::Light => "light",
            Theme::Dark => "dark",
        }
    }
}

impl Default for Theme {
    fn default() -> (r: Self)
        ensures
            r == Theme::System,
    {
        Theme::System
    }
}

/// Benutzereinstellungen.
#[derive(Debug, Clone, PartialEq)]
pub struct Settings {
    /// Sprachkürzel (`de`, `en`).
    pub language: String,
    pub theme: Theme,
    /// Vor riskanten Zielen nachfragen. Standard: an.
    pub confirm_risky: bool,
    /// Läufe standardmäßig nur simulieren.
    pub dry_run_default: bool,
    /// Zuletzt gewählte Ziele – werden beim nächsten Start wiederhergestellt.
    pub selected_targets: Vec<String>,
}

/// Die vorsichtigen Standardeinstellungen zu einer Sprache.
pub open spec fn standard(s: Settings, sprache: Seq<char>) -> bool {
    &&& s.language@ == sprache
    &&& s.theme == Theme::System
    &&& s.confirm_risky
    &&& !s.dry_run_default
    &&& s.selected_targets@.len() == 0
}

impl Settings {
    /// Standardeinstellungen in der gegebenen Sprache: nachfragen an,
    /// Trockenlauf aus, keine Auswahl.
    pub fn mit_sprache(language: String) -> (r: Self)
        ensures
            standard(r, language@),
    {
        Settings {
            language,
            theme: Theme::System,
            confirm_risky: true,
            dry_run_default: false,
            selected_targets: Vec::new(),
        }
    }
}

impl Default for Settings {
    /// Standardeinstellungen in der Rückfallsprache; die Sprache des Systems
    /// setzt die Anwendung über [`default_language`] ein.
    fn default() -> (r: Self)
        ensures
            standard(r, i18n::FALLBACK@),
    {
        Settings::mit_sprache(i18n::FALLBACK.to_owned())
    }
}

/// Systemsprache raten: die erste der Umgebungsangaben (`LANG`, `LC_ALL`,
/// `LANGUAGE`), die eine andere Sprache als die Rückfallsprache ergibt,
/// sonst der Gebietsschema-Name von Windows, sonst die Rückfallsprache.
pub open spec fn geraten(umgebung: Seq<Option<Seq<char>>>, gebiet: Option<Seq<char>>) -> Seq<char>
    decreases umgebung.len(),
{
    if umgebung.len() > 0 && umgebung[0] is Some && i18n::normalisiert(umgebung[0]->0) != i18n::FALLBACK@ {
        i18n::normalisiert(umgebung[0]->0)
    } else if umgebung.len() > 0 {
        geraten(umgebung.drop_first(), gebiet)
    } else {
        match gebiet {
            Some(g) => i18n::normalisiert(g),
            None => i18n::FALLBACK@,
        }
    }
}

/// Die Sichten einer Liste optionaler Texte.
pub open spec fn optionale_texte(v: Seq<Option<String>>) -> Seq<Option<Seq<char>>> {
    v.map_values(|o: Option<String>| match o {
        Some(s) => Some(s@),
        None => None,
    })
}

/// Die Sicht eines optionalen Textes.
pub open spec fn optionaler_text(o: Option<&str>) -> Option<Seq<char>> {
    match o {
        Some(s) => Some(s@),
        None => None,
    }
}

/// Systemsprache aus den Werten der Umgebungsvariablen (in ihrer Reihenfolge)
/// und dem Gebietsschema-Namen der Windows-Einstellungen.
pub fn default_language(umgebung: &[Option<String>], gebiet: Option<&str>) -> (r: String)
    ensures
        r@ == geraten(optionale_texte(umgebung@), optionaler_text(gebiet)),
{
    let ghost gebiet_sicht = optionaler_text(gebiet);
    let mut i: usize = 0;
    assert(optionale_texte(umgebung@).skip(0) =~= optionale_texte(umgebung@));
    while i < umgebung.len()
        invariant
            i <= umgebung@.len(),
            gebiet_sicht == optionaler_text(gebiet),
            geraten(optionale_texte(umgebung@), gebiet_sicht) == geraten(optionale_texte(umgebung@).skip(i as int), gebiet_sicht),
        decreases umgebung@.len() - i,
    {
        let rest = Ghost(optionale_texte(umgebung@).skip(i as int));
        assert(rest@.drop_first() =~= optionale_texte(umgebung@).skip(i + 1));
        assert(rest@[0] == optionale_texte(umgebung@)[i as int]);
        match &umgebung[i] {
            Some(wert) => {
                let normalisiert = normalize(wert.as_str());
                assert(umgebung@[i as int] == Some(*wert));
                assert(rest@[0] == Some(wert@));
                if !gleich(normalisiert.as_str(), i18n::FALLBACK) {
                    assert(geraten(rest@, gebiet_sicht) == i18n::normalisiert(wert@));
                    return normalisiert;
                }
            },
            None => {},
        }
        i = i + 1;
    }
    assert(optionale_texte(umgebung@).skip(i as int).len() == 0);
    match gebiet {
        Some(g) => normalize(g),
        None => i18n::FALLBACK.to_owned(),
    }
}

/// Anwendungszustand. `current_screen` ist reiner Laufzeitzustand und wird
/// nicht gespeichert.
#[derive(Debug, Clone)]
pub struct AppState {
    pub has_seen_welcome: bool,
    pub settings: Settings,
    pub current_screen: Screen,
}

impl Default for AppState {
    fn default() -> (r: Self)
        ensures
            !r.has_seen_welcome,
            standard(r.settings, i18n::FALLBACK@),
            r.current_screen == Screen::Welcome,
    {
        AppState { has_seen_welcome: false, settings: Settings::default(), current_screen: Screen::Welcome }
    }
}

impl AppState {
    /// Bildschirm, mit dem die App starten soll: einmal begrüßt, danach Home.
    pub fn start_screen(&self) -> (r: Screen)
        ensures
            r == (if self.has_seen_welcome { Screen::Home } else { Screen::Welcome }),
    {
        if self.has_seen_welcome {
            Screen::Home
        } else {
            Screen::Welcome
        }
    }
}

/// Pfad der Zustandsdatei im App-Config-Verzeichnis – für Diagnose und Tests.
pub fn state_path(config_dir: &str) -> (r: String)
    ensures
        r@ == fsutil::angehaengt(config_dir@, STATE_FILE@),
{
    fsutil::pfad_anhaengen(config_dir, STATE_FILE)
}

/// Ordner für Registry-Sicherungen, neben der Zustandsdatei.
pub fn backup_path(config_dir: &str) -> (r: String)
    ensures
        r@ == fsutil::angehaengt(config_dir@, BACKUP_DIR@),
{
    fsutil::pfad_anhaengen(config_dir, BACKUP_DIR)
}

} // verus!
