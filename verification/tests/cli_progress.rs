use plane::cli::progress::{balken_aus, fortschrittszeile, LEER, VOLL};

#[test]
fn balken_ohne_gefuellte_elemente_ist_leer() {
    assert_eq!(balken_aus(0, 10), "░░░░░░░░░░");
}

#[test]
fn halb_gefuellter_balken() {
    assert_eq!(balken_aus(5, 10), "█████░░░░░");
}

#[test]
fn voller_balken() {
    assert_eq!(balken_aus(10, 10), "██████████");
}

#[test]
fn balken_hat_immer_seine_breite() {
    for gefuellt in 0..=17 {
        assert_eq!(balken_aus(gefuellt, 17).chars().count(), 17);
    }
    assert_eq!(balken_aus(0, 0), "");
    assert_eq!(VOLL, '█');
    assert_eq!(LEER, '░');
}

#[test]
fn zeile_nennt_ziel_position_und_bytes() {
    let zeile = fortschrittszeile("de", "scan", "target.system.temp.user.name", 0, 4, 2048, "█████░░░░░░░░░░░░░░░  25%", 200);
    assert!(zeile.contains("Temporäre Dateien"), "{zeile}");
    assert!(zeile.contains("[1/4]"));
    assert!(zeile.ends_with("2.0 KB") || zeile.contains("KB"), "{zeile}");
}

#[test]
fn zeile_unterscheidet_die_phasen() {
    let s = fortschrittszeile("de", "scan", "target.system.temp.user.name", 0, 4, 0, "", 200);
    let c = fortschrittszeile("de", "clean", "target.system.temp.user.name", 0, 4, 0, "", 200);
    assert_ne!(s, c);
}

#[test]
fn zeile_wird_gekuerzt() {
    let z = fortschrittszeile("de", "scan", "target.system.temp.user.name", 0, 4, 2048, "████", 40);
    assert!(z.chars().count() <= 40);
    let z = fortschrittszeile("de", "scan", "target.system.temp.user.name", 0, 4, 2048, "████", 5);
    assert!(z.chars().count() <= 20);
}

#[test]
fn ohne_ziele_zaehlt_die_zeile_eines() {
    let z = fortschrittszeile("en", "scan", "x", 0, 0, 0, "", 200);
    assert!(z.contains("[1/1]"), "{z}");
}
