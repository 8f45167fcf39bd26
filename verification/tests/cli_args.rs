use plane::cli::args::{
    cleanauswahl, exitcode_fuer_clean, exitcode_fuer_scan, kategorie_aus_name, scanauswahl, sprache_bestimmen,
    ziele_pruefen, Exitcode,
};
use plane::cli::table::riskante_ziele;
use plane::engine::catalog::{default_selection, targets};
use plane::engine::types::{Category, CleanReport, ScanReport, TargetClean};
use plane::i18n;

fn clean_bericht(success: bool, cancelled: bool, ziel_ok: bool) -> CleanReport {
    CleanReport {
        success,
        targets: vec![TargetClean {
            key: "system.temp.user".into(),
            category: Category::System,
            ok: ziel_ok,
            skipped: false,
            skip_reason: String::new(),
            freed: 0,
            removed_items: 0,
            locked_items: 0,
            denied_items: 0,
            blocked_items: 0,
            errors: Vec::new(),
        }],
        total_freed: 0,
        total_removed: 0,
        total_locked: 0,
        total_denied: 0,
        total_blocked: 0,
        duration_ms: 0,
        cancelled,
        registry_backup: None,
        error: String::new(),
    }
}

#[test]
fn sprache_folgt_der_reihenfolge_argument_umgebung_rueckfall() {
    assert_eq!(sprache_bestimmen(Some("de-DE"), Some("en_US")), "de");
    assert_eq!(sprache_bestimmen(None, Some("de_AT")), "de");
    assert_eq!(sprache_bestimmen(None, None), i18n::FALLBACK);
    assert_eq!(sprache_bestimmen(None, Some("   ")), i18n::FALLBACK);
    assert_eq!(sprache_bestimmen(Some("fr"), None), i18n::FALLBACK);
}

#[test]
fn kategorien_werden_ueber_ihren_schluessel_erkannt() {
    assert_eq!(kategorie_aus_name("browsers").unwrap(), Category::Browsers);
    assert_eq!(kategorie_aus_name(" RecycleBin ").unwrap(), Category::RecycleBin);
}

#[test]
fn unbekannte_kategorie_nennt_die_bekannten() {
    let fehler = kategorie_aus_name("musik").unwrap_err();
    assert!(fehler.0.contains("musik"));
    assert!(fehler.0.contains("browsers"));
}

#[test]
fn unbekanntes_ziel_bricht_die_auswertung_ab() {
    let fehler = ziele_pruefen(&["system.temp.user".into(), "gibt.es.nicht".into()]).unwrap_err();
    assert!(fehler.0.contains("gibt.es.nicht"));
    assert!(fehler.0.contains("list"));
}

#[test]
fn zielpruefung_entfernt_doppelte_und_normalisiert() {
    let geprueft = ziele_pruefen(&["SYSTEM.TEMP.USER".into(), " system.temp.user ".into()]).unwrap();
    assert_eq!(geprueft, vec!["system.temp.user".to_string()]);
}

#[test]
fn scan_ohne_ziele_nimmt_alles() {
    assert_eq!(scanauswahl(&[]).unwrap().len(), targets().len());
}

#[test]
fn clean_ohne_ziele_nimmt_die_empfohlene_auswahl() {
    let auswahl = cleanauswahl(&[]).unwrap();
    assert_eq!(auswahl.len(), default_selection().len());
    assert!(auswahl.len() < targets().len());
    assert!(riskante_ziele(&auswahl).is_empty());
}

#[test]
fn exitcode_null_bei_erfolg() {
    assert_eq!(exitcode_fuer_clean(&clean_bericht(true, false, true)), Exitcode::Erfolg);
}

#[test]
fn exitcode_eins_wenn_ein_ziel_scheitert() {
    assert_eq!(exitcode_fuer_clean(&clean_bericht(true, false, false)), Exitcode::Fehlgeschlagen);
    assert_eq!(exitcode_fuer_clean(&clean_bericht(false, false, true)), Exitcode::Fehlgeschlagen);
}

#[test]
fn exitcode_hundertdreissig_bei_abbruch() {
    assert_eq!(exitcode_fuer_clean(&clean_bericht(false, true, false)), Exitcode::Abgebrochen);
    assert_eq!(Exitcode::Abgebrochen.wert(), 130);
    assert_eq!(Exitcode::Bedienfehler.wert(), 2);
}

#[test]
fn analyse_ohne_abbruch_meldet_erfolg() {
    let mut bericht = ScanReport { targets: Vec::new(), total_size: 0, total_items: 0, duration_ms: 0, cancelled: false };
    assert_eq!(exitcode_fuer_scan(&bericht), Exitcode::Erfolg);
    bericht.cancelled = true;
    assert_eq!(exitcode_fuer_scan(&bericht), Exitcode::Abgebrochen);
}

#[test]
fn fehlermeldungen_sind_wortgetreu() {
    assert_eq!(
        kategorie_aus_name("x").unwrap_err().0,
        "Unbekannte Kategorie: x. Bekannt: system, browsers, apps, installers, recyclebin, registry"
    );
    assert_eq!(
        ziele_pruefen(&["Foo".into()]).unwrap_err().0,
        "Unbekanntes Ziel: Foo. `plane-cli list` zeigt alle Schlüssel."
    );
    let mut bericht = clean_bericht(true, false, true);
    bericht.error = "kaputt".into();
    assert_eq!(exitcode_fuer_clean(&bericht), Exitcode::Fehlgeschlagen);
    assert_eq!(Exitcode::Erfolg.wert(), 0);
    assert_eq!(Exitcode::Fehlgeschlagen.wert(), 1);
}
