use plane::commands::{
    get_brand, get_languages, get_settings, get_start_screen, get_translations, list_targets, reset_welcome,
    set_settings, show_about, show_home, start_app,
};
use plane::state::{AppState, Screen, Settings, Theme};
use plane::engine::catalog::targets;
use plane::engine::types::Risk;
use plane::i18n::t;

fn text_zu<'a>(texte: &'a [(String, String)], key: &str) -> &'a str {
    &texte.iter().find(|(k, _)| k == key).unwrap().1
}

#[test]
fn get_brand_liefert_version_aus_cargo_toml() {
    // Die Paketversion dieser Bibliothek.
    assert_eq!(get_brand("2025-01-01").version, "0.2.0");
    assert_eq!(get_brand("2025-01-01").name, "Plane");
}

#[test]
fn get_brand_liefert_gueltige_hex_farben() {
    let brand = get_brand("2025-01-01");
    for farbe in [&brand.colors.bg, &brand.colors.accent, &brand.colors.text] {
        assert!(farbe.starts_with('#'), "kein Hex-Wert: {farbe}");
        assert_eq!(farbe.len(), 7);
        assert!(farbe[1..].chars().all(|c| c.is_ascii_hexdigit()));
    }
}

#[test]
fn build_datum_wird_durchgereicht() {
    assert_eq!(get_brand("2025-06-30").build_date, "2025-06-30");
    assert_eq!(get_brand("").developer, "Philipp Paulik");
}

#[test]
fn list_targets_bildet_den_katalog_vollstaendig_ab() {
    let ziele = list_targets();
    assert_eq!(ziele.len(), targets().len());

    let papierkorb = ziele.iter().find(|t| t.key == "recyclebin.all").unwrap();
    assert_eq!(papierkorb.risk, Risk::Caution);
    assert!(!papierkorb.default_enabled);
    assert_eq!(papierkorb.name_key, "target.recyclebin.all.name");
}

#[test]
fn list_targets_liefert_aufloesbare_uebersetzungsschluessel() {
    for ziel in list_targets() {
        for key in [&ziel.name_key, &ziel.description_key] {
            assert_ne!(t("de", key), *key, "unübersetzt: {key}");
            assert_ne!(t("en", key), *key, "unübersetzt: {key}");
        }
    }
}

#[test]
fn sprachliste_enthaelt_deutsch_und_englisch() {
    let sprachen = get_languages();
    assert_eq!(sprachen.len(), 2);
    assert!(sprachen.iter().any(|s| s.code == "de" && s.label == "Deutsch"));
    assert!(sprachen.iter().any(|s| s.code == "en"));
}

#[test]
fn uebersetzungen_kommen_in_der_angeforderten_sprache() {
    let de = get_translations("de-DE".into());
    let en = get_translations("en".into());
    assert_eq!(de.len(), en.len());
    assert_ne!(text_zu(&de, "nav.settings"), text_zu(&en, "nav.settings"));
    assert_eq!(text_zu(&de, "nav.settings"), "Einstellungen");
}

#[test]
fn unbekannte_sprache_liefert_englisch() {
    assert_eq!(
        text_zu(&get_translations("fr".into()), "nav.settings"),
        text_zu(&get_translations("en".into()), "nav.settings")
    );
}

#[test]
fn begruessung_kommt_nur_beim_ersten_start() {
    let mut zustand = AppState::default();
    assert_eq!(get_start_screen(&zustand), "welcome");
    assert_eq!(start_app(&mut zustand), "home");
    assert!(zustand.has_seen_welcome);
    assert_eq!(zustand.current_screen, Screen::Home);
    assert_eq!(show_about(&mut zustand), "about");
    assert_eq!(zustand.current_screen, Screen::About);
    assert_eq!(get_start_screen(&zustand), "home");
    reset_welcome(&mut zustand);
    assert_eq!(get_start_screen(&zustand), "welcome");
    assert_eq!(zustand.current_screen, Screen::About);
}

#[test]
fn show_home_schliesst_die_begruessung_nicht_ab() {
    let mut zustand = AppState::default();
    assert_eq!(show_home(&mut zustand), "home");
    assert!(!zustand.has_seen_welcome);
    assert_eq!(get_start_screen(&zustand), "welcome");
}

#[test]
fn einstellungen_werden_mit_normalisierter_sprache_uebernommen() {
    let mut zustand = AppState::default();
    let neu = Settings {
        language: "de-AT".to_string(),
        theme: Theme::Dark,
        confirm_risky: false,
        dry_run_default: true,
        selected_targets: vec!["system.dns".to_string()],
    };
    let gesetzt = set_settings(&mut zustand, neu).clone();
    assert_eq!(gesetzt.language, "de");
    assert_eq!(gesetzt.theme, Theme::Dark);
    assert!(!gesetzt.confirm_risky && gesetzt.dry_run_default);
    assert_eq!(gesetzt.selected_targets, vec!["system.dns".to_string()]);
    assert_eq!(get_settings(&zustand), &gesetzt);

    let unbekannt = Settings { language: "xx".to_string(), ..Settings::default() };
    assert_eq!(set_settings(&mut zustand, unbekannt).language, "en");
}
