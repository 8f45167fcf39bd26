use plane::commands::{get_languages, get_translations, list_targets, PROGRESS_EVENT};
use plane::engine::elevation::{elevation_deuten, neu_starten_als_admin, neustart_sinnvoll, Elevation};
use plane::engine::process::{dienstbefehl, Output};
use plane::engine::runtime::{is_admin, CancelToken};
use plane::state::{backup_path, default_language, state_path, AppState, Screen, Settings, Theme};

#[test]
fn default_startet_auf_dem_welcome_screen() {
    let state = AppState::default();
    assert!(!state.has_seen_welcome);
    assert_eq!(state.current_screen, Screen::Welcome);
    assert_eq!(state.start_screen(), Screen::Welcome);
}

#[test]
fn nach_erstem_start_beginnt_die_app_auf_home() {
    let state = AppState { has_seen_welcome: true, ..Default::default() };
    assert_eq!(state.start_screen(), Screen::Home);
}

#[test]
fn screen_bezeichner_und_events_sind_stabil() {
    assert_eq!(Screen::Welcome.as_str(), "welcome");
    assert_eq!(Screen::Home.event(), "navigate-home");
    assert_eq!(Screen::About.event(), "navigate-about");
}

#[test]
fn standardeinstellungen_sind_vorsichtig() {
    let s = Settings::default();
    assert!(s.confirm_risky, "Nachfragen muss standardmäßig an sein");
    assert!(!s.dry_run_default);
    assert!(plane::i18n::is_supported(&s.language));
}

#[test]
fn systemsprache_wird_aus_der_umgebung_geraten() {
    assert_eq!(default_language(&[None, Some("de_DE.UTF-8".into()), None], None), "de");
    assert_eq!(default_language(&[Some("en_US".into()), Some("de".into())], None), "de");
    assert_eq!(default_language(&[Some("fr_FR".into())], Some("de-AT")), "de");
    assert_eq!(default_language(&[], None), "en");
    assert_eq!(Theme::Dark.as_str(), "dark");
    assert_eq!(Theme::default(), Theme::System);
}

#[test]
fn abbruchsignal_wirkt_und_laesst_sich_zuruecksetzen() {
    let token = CancelToken::new();
    assert!(!token.is_cancelled());
    token.cancel();
    assert!(token.is_cancelled());
    token.reset();
    assert!(!token.is_cancelled());
}

#[test]
fn abbruchsignal_wird_geteilt() {
    let token = CancelToken::new();
    let kopie = token.clone();
    kopie.cancel();
    assert!(token.is_cancelled());
}

#[test]
fn neustart_ist_nur_ohne_rechte_sinnvoll() {
    assert_eq!(neustart_sinnvoll(), !is_admin());
}

#[test]
fn bereits_erhoehter_prozess_startet_nicht_neu() {
    if is_admin() {
        assert_eq!(neu_starten_als_admin(&[]), Elevation::Bereits);
    } else {
        assert_eq!(neu_starten_als_admin(&[]), Elevation::Abgelehnt("Nur unter Windows verfügbar".into()));
    }
}

#[test]
fn elevation_ist_vergleichbar_und_beschreibbar() {
    let abgelehnt = Elevation::Abgelehnt("Grund".into());
    assert_ne!(abgelehnt, Elevation::Gestartet);
    assert!(format!("{abgelehnt:?}").contains("Grund"));
}

#[test]
fn shell_antwort_wird_gedeutet() {
    assert_eq!(elevation_deuten(42), Elevation::Gestartet);
    assert_eq!(elevation_deuten(5), Elevation::Abgelehnt("UAC-Rückfrage abgelehnt".into()));
    assert_eq!(elevation_deuten(2), Elevation::Abgelehnt("ShellExecuteW meldete 2".into()));
    assert_eq!(elevation_deuten(-7), Elevation::Abgelehnt("ShellExecuteW meldete -7".into()));
}

#[test]
fn message_bevorzugt_stderr() {
    let ausgabe = Output { code: 1, stdout: "aus".into(), stderr: "fehler".into() };
    assert_eq!(ausgabe.message(), "fehler");
    let nur_stdout = Output { code: 1, stdout: "aus".into(), stderr: String::new() };
    assert_eq!(nur_stdout.message(), "aus");
    let stumm = Output { code: 3, stdout: String::new(), stderr: String::new() };
    assert_eq!(stumm.message(), "Exitcode 3");
    assert_eq!(Output::fehler("Leerer Befehl").message(), "Leerer Befehl");
    assert!(!Output::fehler("x").ok());
    assert_eq!(Output { code: -1, stdout: String::new(), stderr: String::new() }.message(), "Exitcode -1");
}

#[test]
fn dienstbefehl_nennt_alle_dienste() {
    assert!(dienstbefehl("Stop", &[]).is_none());
    let argv = dienstbefehl("Stop", &["wuauserv", "bits"]).unwrap();
    assert_eq!(argv[0], "powershell");
    assert_eq!(argv[4], "Stop-Service -Name wuauserv,bits -Force -ErrorAction Stop");
}

#[test]
fn progress_event_heisst_wie_im_frontend() {
    assert_eq!(PROGRESS_EVENT, "plane://progress");
}

#[test]
fn oberflaeche_bekommt_sprachen_texte_und_ziele() {
    let sprachen = get_languages();
    assert_eq!(sprachen.len(), 2);
    assert_eq!(sprachen[0].code, "de");
    assert_eq!(get_translations("de-DE".into()).len(), plane::i18n::ENTRIES.len());
    let ziele = list_targets();
    assert_eq!(ziele.len(), 38);
    assert_eq!(ziele[0].name_key, "target.system.temp.user.name");
    assert!(ziele.iter().any(|z| z.suggestion_only));
}

#[test]
fn sicherungsordner_liegt_neben_dem_zustand() {
    // `Path::join` unter Windows: ein Trenner zwischen Ordner und Name.
    assert_eq!(backup_path("C:\\beliebig"), "C:\\beliebig\\backups");
}

#[test]
fn zustandsdatei_liegt_im_config_verzeichnis() {
    assert_eq!(state_path("C:\\cfg"), "C:\\cfg\\state.json");
    assert_eq!(state_path("C:\\cfg\\"), "C:\\cfg\\state.json");
}
