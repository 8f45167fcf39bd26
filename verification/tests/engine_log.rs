use plane::engine::log::{civil_from_days, clean_zeilen, log_path, scan_zeile, zeitstempel, zeitstempel_aus};
use plane::engine::types::{Category, CleanReport, ScanReport, TargetClean};

fn bericht() -> CleanReport {
    CleanReport {
        success: true,
        targets: vec![TargetClean {
            key: "system.temp.user".into(),
            category: Category::System,
            ok: true,
            skipped: false,
            skip_reason: String::new(),
            freed: 2048,
            removed_items: 7,
            locked_items: 3,
            denied_items: 1,
            blocked_items: 0,
            errors: Vec::new(),
        }],
        total_freed: 2048,
        total_removed: 7,
        total_locked: 3,
        total_denied: 1,
        total_blocked: 0,
        duration_ms: 42,
        cancelled: false,
        registry_backup: None,
        error: String::new(),
    }
}

#[test]
fn zeitstempel_hat_das_erwartete_format() {
    let t = zeitstempel();
    assert_eq!(t.len(), 19, "unerwartet: {t}");
    assert_eq!(&t[4..5], "-");
    assert_eq!(&t[10..11], " ");
    assert_eq!(&t[13..14], ":");
    assert!(t[..4].parse::<u32>().unwrap() >= 2024);
}

#[test]
fn kalenderdaten_stimmen() {
    assert_eq!(civil_from_days(0), (1970, 1, 1));
    assert_eq!(civil_from_days(-1), (1969, 12, 31));
    assert_eq!(civil_from_days(11_016), (2000, 2, 29));
    assert_eq!(civil_from_days(19_723), (2024, 1, 1));
    assert_eq!(zeitstempel_aus(0), "1970-01-01 00:00:00");
    assert_eq!(zeitstempel_aus(951_782_400 + 3_661), "2000-02-29 01:01:01");
}

#[test]
fn bereinigung_wird_mit_zahlen_protokolliert() {
    let zeilen = clean_zeilen(&bericht(), false);
    let inhalt = zeilen.join("\n");
    assert!(inhalt.contains("BEREINIGUNG"));
    assert!(inhalt.contains("entfernt=7"));
    assert!(inhalt.contains("gesperrt=3"));
    assert!(inhalt.contains("rechte=1"));
    assert!(inhalt.contains("system.temp.user"));
    assert_eq!(zeilen.len(), 2);
}

#[test]
fn trockenlauf_wird_als_simulation_gekennzeichnet() {
    let inhalt = clean_zeilen(&bericht(), true).join("\n");
    assert!(inhalt.contains("SIMULATION"));
    assert!(!inhalt.contains("BEREINIGUNG"));
}

#[test]
fn protokoll_enthaelt_keine_einzelpfade() {
    let mut b = bericht();
    b.targets[0].errors = vec![String::new()];
    let inhalt = clean_zeilen(&b, false).join("\n");
    assert!(!inhalt.contains("\\Users\\"));
    assert!(!inhalt.contains("AppData"));
}

#[test]
fn abbruch_wird_vermerkt() {
    let mut b = bericht();
    b.cancelled = true;
    assert!(clean_zeilen(&b, false)[0].contains("ABGEBROCHEN"));
    let scan = ScanReport { targets: Vec::new(), total_size: 2048, total_items: 3, duration_ms: 5, cancelled: true };
    assert_eq!(scan_zeile(&scan), "ANALYSE  ziele=0 gefunden=2.0 KB eintraege=3 uebersprungen=0 dauer=5ms ABGEBROCHEN");
}

#[test]
fn zielzeile_ist_ausgerichtet_und_fehler_gekuerzt() {
    let mut b = bericht();
    b.targets[0].errors = vec!["x".repeat(200), "zweiter".into()];
    b.registry_backup = Some("C:\\sicher".into());
    let zeilen = clean_zeilen(&b, false);
    assert_eq!(zeilen.len(), 3);
    assert!(zeilen[1].starts_with("  system.temp.user             ok freigegeben=2.0 KB"));
    assert!(zeilen[1].contains(&format!(" fehler=2 \"{}\"", "x".repeat(120))));
    assert_eq!(zeilen[2], "  registry-sicherung=C:\\sicher");
}

#[test]
fn protokoll_liegt_im_config_verzeichnis() {
    assert_eq!(log_path("D:\\daten\\plane"), "D:\\daten\\plane\\plane.log");
}
