//! Was die Oberfläche von der Engine abfragt: Sprachen, Übersetzungen, der
//! Zielkatalog und die Marke. Die Anbindung an das Fenster geschieht außerhalb
//! der Bibliothek.

use vstd::prelude::*;
use crate::engine::catalog;
use crate::engine::catalog::{targets, ANZAHL};
use crate::engine::types;
use crate::engine::types::{Category, Risk};
use crate::i18n;
use crate::i18n::{catalog as sprachkatalog, normalize, LANGUAGES};
use crate::engine::update;
use crate::zeichen::text_von;
use crate::state::{AppState, Screen, Settings};

verus! {

/// Name des Fortschritts-Events, auf das die Oberfläche hört.
pub const PROGRESS_EVENT: &'static str = "plane://progress";

/// Markeninformationen.
#[derive(Debug, Clone)]
pub struct BrandInfo {
    pub name: String,
    pub version: String,
    pub build_date: String,
    pub developer: String,
    pub colors: ColorPalette,
}

/// Farben der Marke.
#[derive(Debug, Clone)]
pub struct ColorPalette {
    pub bg: String,
    pub accent: String,
    pub text: String,
}

/// Ein Katalogziel, wie die Oberfläche es sieht.
#[derive(Debug, Clone)]
pub struct TargetInfo {
    pub key: String,
    pub category: Category,
    pub name_key: String,
    pub description_key: String,
    pub risk: Risk,
    pub requires_admin: bool,
    pub default_enabled: bool,
    pub suggestion_only: bool,
}

/// Eine Sprache der Oberfläche.
#[derive(Debug, Clone)]
pub struct LanguageInfo {
    pub code: String,
    pub label: String,
}

/// Verfügbare Sprachen.
pub fn get_languages() -> (r: Vec<LanguageInfo>)
    ensures
        r@.len() == 2,
        forall|i: int| 0 <= i < 2 ==> (#[trigger] r@[i]).code@ == LANGUAGES[i].0@ && r@[i].label@ == LANGUAGES[i].1@,
{
    let mut r: Vec<LanguageInfo> = Vec::new();
    let mut i: usize = 0;
    while i < 2
        invariant
            i <= 2,
            r@.len() == i,
            forall|k: int| 0 <= k < i ==> (#[trigger] r@[k]).code@ == LANGUAGES[k].0@ && r@[k].label@ == LANGUAGES[k].1@,
        decreases 2 - i,
    {
        r.push(LanguageInfo { code: LANGUAGES[i].0.to_owned(), label: LANGUAGES[i].1.to_owned() });
        i = i + 1;
    }
    r
}

/// Alle Texte einer Sprache; die Sprache wird vorher normalisiert.
pub fn get_translations(language: String) -> (r: Vec<(String, String)>)
    ensures
        r@.len() == i18n::ANZAHL,
        forall|i: int| 0 <= i < i18n::ANZAHL ==> (#[trigger] r@[i]).0@ == i18n::ENTRIES[i].0@
            && r@[i].1@ == i18n::eintragstext(i18n::normalisiert(language@), i),
{
    let sprache = normalize(language.as_str());
    sprachkatalog(sprache.as_str())
}

/// Ein Katalogziel für die Oberfläche aufbereitet.
pub open spec fn info_passt(r: TargetInfo, i: int) -> bool {
    let z = catalog::ZIELE[i];
    &&& r.key@ == z.0@
    &&& r.category == z.1
    &&& r.name_key@ == "target."@ + z.0@ + ".name"@
    &&& r.description_key@ == "target."@ + z.0@ + ".description"@
    &&& r.risk == z.3
    &&& r.requires_admin == z.4
    &&& r.default_enabled == z.5
    &&& r.suggestion_only == (z.2 == catalog::Art::Installationsdateien)
}

/// Alle Reinigungsziele des Katalogs, in Katalogreihenfolge.
pub fn list_targets() -> (r: Vec<TargetInfo>)
    ensures
        r@.len() == ANZAHL,
        forall|i: int| 0 <= i < ANZAHL ==> #[trigger] info_passt(r@[i], i),
{
    let alle = targets();
    let mut r: Vec<TargetInfo> = Vec::new();
    let mut i: usize = 0;
    while i < alle.len()
        invariant
            i <= alle@.len(),
            alle@.len() == ANZAHL,
            forall|k: int| 0 <= k < ANZAHL ==> #[trigger] catalog::ziel_passt(alle@[k], k),
            r@.len() == i,
            forall|k: int| 0 <= k < i ==> #[trigger] info_passt(r@[k], k),
        decreases alle@.len() - i,
    {
        let t = &alle[i];
        assert(catalog::ziel_passt(alle@[i as int], i as int));
        r.push(TargetInfo {
            key: t.key.to_owned(),
            category: t.category,
            name_key: t.i18n_name(),
            description_key: t.i18n_description(),
            risk: t.risk,
            requires_admin: t.requires_admin,
            default_enabled: t.default_enabled,
            suggestion_only: t.is_suggestion_only(),
        });
        i = i + 1;
    }
    r
}

/// Die Marke: Name, Version, Entwickler und Farben. Das Builddatum kennt
/// nur, wer das Programm gebaut hat; es wird hereingereicht.
pub fn get_brand(build_date: &str) -> (r: BrandInfo)
    ensures
        r.name@ == "Plane"@,
        r.version@ == update::VERSION@,
        r.build_date@ == build_date@,
        r.developer@ == "Philipp Paulik"@,
        r.colors.bg@ == "#F1FFE2"@,
        r.colors.accent@ == "#A7EC5B"@,
        r.colors.text@ == "#143302"@,
{
    BrandInfo {
        name: text_von("Plane"),
        version: text_von(update::VERSION),
        build_date: text_von(build_date),
        developer: text_von("Philipp Paulik"),
        colors: ColorPalette {
            bg: text_von("#F1FFE2"),
            accent: text_von("#A7EC5B"),
            text: text_von("#143302"),
        },
    }
}

// ---------------------------------------------------------------------------
// Navigation und Einstellungen
// ---------------------------------------------------------------------------

/// Der Bezeichner eines Bildschirms, wie die Oberfläche ihn kennt.
pub open spec fn bildschirmname(s: Screen) -> Seq<char> {
    match s {
        Screen::Welcome => "welcome"@,
        Screen::Home => "home"@,
        Screen::About => "about"@,
    }
}

/// Der Zustand nach einem Wechsel zu `ziel`; wer den Willkommensbildschirm
/// verlässt (`abschliessen`), hat die Begrüßung gesehen.
pub open spec fn gewechselt(s: AppState, ziel: Screen, abschliessen: bool) -> AppState {
    AppState { current_screen: ziel, has_seen_welcome: s.has_seen_welcome || abschliessen, ..s }
}

/// Der Bildschirm, mit dem die App in diesem Zustand startet.
pub open spec fn startbildschirm(s: AppState) -> Screen {
    if s.has_seen_welcome {
        Screen::Home
    } else {
        Screen::Welcome
    }
}

fn wechsle(zustand: &mut AppState, ziel: Screen, erster_start_abschliessen: bool) -> (r: String)
    ensures
        *final(zustand) == gewechselt(*old(zustand), ziel, erster_start_abschliessen),
        r@ == bildschirmname(ziel),
{
    zustand.current_screen = ziel;
    if erster_start_abschliessen {
        zustand.has_seen_welcome = true;
    }
    ziel.as_str().to_owned()
}

/// Vom Willkommensbildschirm zur Übersicht wechseln; die Begrüßung gilt
/// danach als gesehen. Speichern und das Fenster benachrichtigen gehört zur
/// Anwendung.
pub fn start_app(zustand: &mut AppState) -> (r: String)
    ensures
        *final(zustand) == gewechselt(*old(zustand), Screen::Home, true),
        r@ == bildschirmname(Screen::Home),
{
    wechsle(zustand, Screen::Home, true)
}

/// Zur Übersicht wechseln.
pub fn show_home(zustand: &mut AppState) -> (r: String)
    ensures
        *final(zustand) == gewechselt(*old(zustand), Screen::Home, false),
        r@ == bildschirmname(Screen::Home),
{
    wechsle(zustand, Screen::Home, false)
}

/// Zur Info-Ansicht wechseln.
pub fn show_about(zustand: &mut AppState) -> (r: String)
    ensures
        *final(zustand) == gewechselt(*old(zustand), Screen::About, false),
        r@ == bildschirmname(Screen::About),
{
    wechsle(zustand, Screen::About, false)
}

/// Bildschirm, mit dem das Frontend starten soll.
pub fn get_start_screen(zustand: &AppState) -> (r: String)
    ensures
        r@ == bildschirmname(startbildschirm(*zustand)),
{
    zustand.start_screen().as_str().to_owned()
}

/// Aktuelle Einstellungen.
pub fn get_settings(zustand: &AppState) -> (r: &Settings)
    ensures
        *r == zustand.settings,
{
    &zustand.settings
}

/// Einstellungen übernehmen; die Sprache wird dabei auf eine unterstützte
/// normalisiert. Gibt die übernommenen Einstellungen zurück.
pub fn set_settings(zustand: &mut AppState, settings: Settings) -> (r: &Settings)
    ensures
        final(zustand).settings.language@ == i18n::normalisiert(settings.language@),
        final(zustand).settings == (Settings { language: final(zustand).settings.language, ..settings }),
        final(zustand).has_seen_welcome == old(zustand).has_seen_welcome,
        final(zustand).current_screen == old(zustand).current_screen,
        *r == final(zustand).settings,
{
    let sprache = normalize(settings.language.as_str());
    zustand.settings = Settings { language: sprache, ..settings };
    &zustand.settings
}

/// Den Willkommensbildschirm beim nächsten Start wieder zeigen.
pub fn reset_welcome(zustand: &mut AppState)
    ensures
        *final(zustand) == (AppState { has_seen_welcome: false, ..*old(zustand) }),
{
    zustand.has_seen_welcome = false;
}

/// Begrüßt wird einmal: nach dem Start der App beginnt sie auf der
/// Übersicht, gleich wohin danach gewechselt wird – bis die Begrüßung
/// zurückgesetzt wird, dann beginnt sie wieder mit ihr.
pub proof fn begruessung_nur_einmal(s: AppState, ziel: Screen, abschliessen: bool)
    ensures
        startbildschirm(gewechselt(s, Screen::Home, true)) == Screen::Home,
        startbildschirm(gewechselt(gewechselt(s, Screen::Home, true), ziel, abschliessen)) == Screen::Home,
        startbildschirm(AppState { has_seen_welcome: false, ..s }) == Screen::Welcome,
{
}

} // verus!
