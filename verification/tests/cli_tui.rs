use plane::cli::tui::{Aktion, Ansicht, Oberflaeche, Spalte, Taste, LOGO, MIN_BREITE};
use plane::engine::catalog::{default_selection, target_by_key, targets, targets_in};
use plane::engine::types::{CleanReport, Risk, ScanReport, TargetScan};
use plane::i18n::t;

fn ui() -> Oberflaeche {
    Oberflaeche::neu("de")
}

/// Ein Analyseergebnis für ein einzelnes Ziel.
fn analyse(key: &str, groesse: u64) -> ScanReport {
    let ziel = target_by_key(key).unwrap();
    let mut t = TargetScan::skipped(&ziel, "");
    t.skipped = false;
    t.size = groesse;
    ScanReport {
        targets: vec![t],
        total_size: groesse,
        total_items: 0,
        duration_ms: 0,
        cancelled: false,
    }
}

#[test]
fn startet_auf_dem_startbildschirm() {
    let o = ui();
    assert_eq!(o.ansicht, Ansicht::Start);
    assert_eq!(o.spalte, Spalte::Kategorien);
    assert!(!o.trockenlauf);
}

#[test]
fn startauswahl_ist_die_empfohlene() {
    let o = ui();
    assert_eq!(o.auswahl.len(), default_selection().len());
    for key in &o.auswahl {
        let ziel = target_by_key(key).unwrap();
        assert_ne!(ziel.risk, Risk::Caution, "{key} ist riskant");
    }
}

#[test]
fn logo_ist_rechteckig() {
    let breite = LOGO[0].chars().count();
    for zeile in LOGO {
        assert_eq!(zeile.chars().count(), breite, "ungleiche Logozeile");
    }
    assert!(breite < MIN_BREITE as usize, "Logo passt nicht ins Terminal");
}

#[test]
fn navigation_bleibt_in_den_grenzen() {
    let mut o = ui();
    for _ in 0..50 {
        o.taste(Taste::Runter, false);
    }
    assert_eq!(o.kategorie_index, o.kategorien.len() - 1);

    for _ in 0..50 {
        o.taste(Taste::Hoch, false);
    }
    assert_eq!(o.kategorie_index, 0);
}

#[test]
fn spaltenwechsel_funktioniert() {
    let mut o = ui();
    o.taste(Taste::Rechts, false);
    assert_eq!(o.spalte, Spalte::Ziele);
    o.taste(Taste::Links, false);
    assert_eq!(o.spalte, Spalte::Kategorien);
}

#[test]
fn kategoriewechsel_setzt_die_zielmarkierung_zurueck() {
    let mut o = ui();
    o.spalte = Spalte::Ziele;
    o.taste(Taste::Runter, false);
    o.taste(Taste::Runter, false);
    assert!(o.ziel_index > 0);

    o.spalte = Spalte::Kategorien;
    o.taste(Taste::Runter, false);
    assert_eq!(o.ziel_index, 0);
}

#[test]
fn leertaste_schaltet_ein_ziel_um() {
    let mut o = ui();
    o.spalte = Spalte::Ziele;
    let key = o.aktuelles_ziel().unwrap().key.to_string();
    let vorher = o.ist_ausgewaehlt(&key);

    o.taste(Taste::Zeichen(' '), false);
    assert_ne!(o.ist_ausgewaehlt(&key), vorher);

    o.taste(Taste::Zeichen(' '), false);
    assert_eq!(o.ist_ausgewaehlt(&key), vorher);
}

#[test]
fn leertaste_in_der_kategoriespalte_schaltet_die_ganze_kategorie() {
    let mut o = ui();
    o.nichts_waehlen();
    let kategorie = o.kategorie();
    let keys: Vec<String> = targets_in(kategorie).iter().map(|t| t.key.to_string()).collect();

    o.taste(Taste::Zeichen(' '), false);
    assert!(keys.iter().all(|k| o.ist_ausgewaehlt(k)));

    o.taste(Taste::Zeichen(' '), false);
    assert!(keys.iter().all(|k| !o.ist_ausgewaehlt(k)));
}

#[test]
fn alles_nichts_empfohlen() {
    let mut o = ui();

    o.taste(Taste::Zeichen('a'), false);
    assert_eq!(o.auswahl.len(), targets().len());

    o.taste(Taste::Zeichen('n'), false);
    assert!(o.auswahl.is_empty());

    o.taste(Taste::Zeichen('r'), false);
    assert_eq!(o.auswahl.len(), default_selection().len());
}

#[test]
fn trockenlauf_laesst_sich_umschalten() {
    let mut o = ui();
    o.taste(Taste::Zeichen('d'), false);
    assert!(o.trockenlauf);
    o.taste(Taste::Zeichen('d'), false);
    assert!(!o.trockenlauf);
}

#[test]
fn sprache_laesst_sich_umschalten() {
    let mut o = ui();
    assert_eq!(o.lang, "de");
    o.taste(Taste::Zeichen('L'), false);
    assert_eq!(o.lang, "en");
    o.taste(Taste::Zeichen('L'), false);
    assert_eq!(o.lang, "de");
}

#[test]
fn s_loest_die_analyse_aus() {
    let mut o = ui();
    assert_eq!(o.taste(Taste::Zeichen('s'), false), Aktion::Analysieren);
}

#[test]
fn c_loest_die_bereinigung_aus() {
    let mut o = ui();
    assert_eq!(o.taste(Taste::Zeichen('c'), false), Aktion::Bereinigen);
}

#[test]
fn q_beendet() {
    let mut o = ui();
    assert_eq!(o.taste(Taste::Zeichen('q'), false), Aktion::Beenden);
    assert_eq!(o.taste(Taste::Esc, false), Aktion::Beenden);
}

#[test]
fn waehrend_eines_laufs_ist_nur_abbruch_moeglich() {
    let mut o = ui();
    o.ansicht = Ansicht::Laeuft { phase: "scan" };

    assert_eq!(o.taste(Taste::Zeichen('a'), false), Aktion::Nichts);
    assert!(
        o.auswahl.len() < targets().len(),
        "Auswahl darf sich während eines Laufs nicht ändern"
    );
    assert_eq!(o.taste(Taste::Esc, false), Aktion::Abbrechen);
}

#[test]
fn strg_c_beendet_beziehungsweise_bricht_ab() {
    let mut o = ui();
    assert_eq!(o.taste(Taste::Zeichen('c'), true), Aktion::Beenden);

    o.ansicht = Ansicht::Laeuft { phase: "clean" };
    assert_eq!(o.taste(Taste::Zeichen('c'), true), Aktion::Abbrechen);
}

#[test]
fn hilfe_oeffnet_und_schliesst_sich() {
    let mut o = ui();
    o.taste(Taste::Zeichen('?'), false);
    assert_eq!(o.ansicht, Ansicht::Hilfe);

    o.taste(Taste::Zeichen('x'), false);
    assert_eq!(o.ansicht, Ansicht::Start);
}

#[test]
fn hilfe_kehrt_nach_der_analyse_zur_auswahl_zurueck() {
    let mut o = ui();
    o.scan = Some(analyse("system.dns", 0));
    o.ansicht = Ansicht::Hilfe;
    o.taste(Taste::Enter, false);
    assert_eq!(o.ansicht, Ansicht::Auswahl);
}

#[test]
fn auswahlgroesse_zaehlt_nur_gewaehlte_ziele() {
    let mut o = ui();
    assert_eq!(o.auswahl_groesse(), 0, "ohne Analyse keine Größe");

    o.scan = Some(analyse("system.dns", 4096));
    o.nichts_waehlen();
    assert_eq!(o.auswahl_groesse(), 0);
}

#[test]
fn jede_kategorie_hat_ziele() {
    let mut o = ui();
    for index in 0..o.kategorien.len() {
        o.kategorie_index = index;
        assert!(!o.ziele().is_empty(), "{:?} ist leer", o.kategorie());
    }
}

#[test]
fn aktuelles_ziel_ist_immer_gueltig() {
    let mut o = ui();
    o.ziel_index = 9999;
    assert!(o.aktuelles_ziel().is_some(), "Index muss begrenzt werden");
}

// ---------------------------------------------------------------------------
// Weitere Fälle
// ---------------------------------------------------------------------------

#[test]
fn gewaehltes_ziel_zaehlt_zur_auswahlgroesse() {
    let mut o = ui();
    o.scan = Some(analyse("system.dns", 4096));
    o.nichts_waehlen();
    o.umschalten("system.dns");
    assert_eq!(o.auswahl_groesse(), 4096);
    let kategorie = target_by_key("system.dns").unwrap().category;
    assert_eq!(o.kategorie_groesse(kategorie), 4096);
}

#[test]
fn enter_startet_die_analyse_nur_auf_dem_startbildschirm() {
    let mut o = ui();
    assert_eq!(o.taste(Taste::Enter, false), Aktion::Analysieren);
    o.ansicht = Ansicht::Auswahl;
    assert_eq!(o.taste(Taste::Enter, false), Aktion::Nichts);
}

#[test]
fn hilfe_schliesst_ohne_weitere_wirkung() {
    let mut o = ui();
    o.taste(Taste::F(1), false);
    assert_eq!(o.ansicht, Ansicht::Hilfe);
    // `q` schließt die Hilfe, beendet aber nicht.
    assert_eq!(o.taste(Taste::Zeichen('q'), false), Aktion::Nichts);
    assert_eq!(o.ansicht, Ansicht::Start);
}

#[test]
fn zielmarkierung_bleibt_in_der_kategorie() {
    let mut o = ui();
    o.taste(Taste::Tab, false);
    let anzahl = o.ziele().len();
    for _ in 0..100 {
        o.taste(Taste::Zeichen('j'), false);
    }
    assert_eq!(o.ziel_index, anzahl - 1);
    for _ in 0..100 {
        o.taste(Taste::Zeichen('k'), false);
    }
    assert_eq!(o.ziel_index, 0);
}

#[test]
fn scan_fuer_findet_das_ergebnis() {
    let mut o = ui();
    assert!(o.scan_fuer("system.dns").is_none());
    o.scan = Some(analyse("system.dns", 7));
    assert_eq!(o.scan_fuer("system.dns").unwrap().size, 7);
    assert!(o.scan_fuer("gibt.es.nicht").is_none());
}

fn clean_bericht(success: bool, cancelled: bool) -> CleanReport {
    CleanReport {
        success,
        targets: Vec::new(),
        total_freed: 0,
        total_removed: 0,
        total_locked: 0,
        total_denied: 0,
        total_blocked: 0,
        duration_ms: 0,
        cancelled,
        registry_backup: None,
        error: String::new(),
    }
}

#[test]
fn analyse_startet_nur_ohne_laufenden_vorgang() {
    let mut o = ui();
    assert_eq!(o.aktion_umsetzen(Aktion::Analysieren, true), Aktion::Nichts);
    assert_eq!(o.ansicht, Ansicht::Start);
    assert_eq!(o.aktion_umsetzen(Aktion::Analysieren, false), Aktion::Analysieren);
    assert_eq!(o.ansicht, Ansicht::Laeuft { phase: "scan" });
}

#[test]
fn bereinigung_ohne_auswahl_meldet_einen_hinweis() {
    let mut o = ui();
    o.nichts_waehlen();
    assert_eq!(o.aktion_umsetzen(Aktion::Bereinigen, false), Aktion::Nichts);
    assert_eq!(o.hinweis, t("de", "cli.no_selection"));
    assert_eq!(o.ansicht, Ansicht::Start);

    o.empfohlen_waehlen();
    assert_eq!(o.aktion_umsetzen(Aktion::Bereinigen, false), Aktion::Bereinigen);
    assert_eq!(o.ansicht, Ansicht::Laeuft { phase: "clean" });
}

#[test]
fn abbruch_wird_in_der_fusszeile_vermerkt() {
    let mut o = ui();
    assert_eq!(o.aktion_umsetzen(Aktion::Abbrechen, true), Aktion::Abbrechen);
    assert_eq!(o.hinweis, t("de", "cli.aborted"));
    assert_eq!(o.aktion_umsetzen(Aktion::Beenden, false), Aktion::Beenden);
}

#[test]
fn fertige_laeufe_wechseln_die_ansicht() {
    let mut o = ui();
    o.scan_fertig(analyse("system.temp.user", 10));
    assert_eq!(o.ansicht, Ansicht::Auswahl);
    assert!(o.scan.is_some());
    assert!(o.clean_fertig(clean_bericht(false, false)), "gescheitert");
    assert_eq!(o.ansicht, Ansicht::Ergebnis);
    assert!(!o.clean_fertig(clean_bericht(false, true)), "ein Abbruch ist kein Scheitern");
    assert!(!o.clean_fertig(clean_bericht(true, false)));
}
