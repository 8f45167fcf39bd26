use plane::cli::table::{
    clean_tabelle, clean_zusammenfassung, kategorie_tabelle, kategoriesummen, riskante_ziele, scan_tabelle,
    scan_zusammenfassung, ziele_nach_groesse, zielliste, Ausrichtung, Tabelle,
};
use plane::engine::catalog::{targets, targets_in};
use plane::engine::types::{Category, CleanReport, Risk, ScanReport, TargetClean, TargetScan};

fn scan_ziel(key: &str, kategorie: Category, size: u64, items: usize) -> TargetScan {
    TargetScan {
        key: key.into(),
        category: kategorie,
        risk: Risk::Safe,
        requires_admin: false,
        default_enabled: true,
        suggestion_only: false,
        item_count: items,
        size,
        items: Vec::new(),
        skipped: false,
        skip_reason: String::new(),
        warnings: Vec::new(),
    }
}

fn bericht(ziele: Vec<TargetScan>) -> ScanReport {
    let total_size = ziele.iter().map(|z| z.size).sum();
    let total_items = ziele.iter().map(|z| z.item_count).sum();
    ScanReport { targets: ziele, total_size, total_items, duration_ms: 0, cancelled: false }
}

fn clean_bericht(ziele: Vec<TargetClean>, total_freed: u64, total_removed: usize) -> CleanReport {
    CleanReport {
        success: true,
        targets: ziele,
        total_freed,
        total_removed,
        total_locked: 0,
        total_denied: 0,
        total_blocked: 0,
        duration_ms: 0,
        cancelled: false,
        registry_backup: None,
        error: String::new(),
    }
}

#[test]
fn tabelle_richtet_spalten_aus() {
    let mut tabelle = Tabelle::neu(&["A", "B"], &[Ausrichtung::Links, Ausrichtung::Rechts]);
    tabelle.zeile(vec!["lang".into(), "1".into()]);
    let zeilen = tabelle.rendern();
    assert_eq!(zeilen[0], "A     B");
    assert_eq!(zeilen[1], "----  -");
    assert_eq!(zeilen[2], "lang  1");
}

#[test]
fn tabelle_fuellt_fehlende_felder_auf() {
    let mut tabelle = Tabelle::neu(&["A", "B", "C"], &[Ausrichtung::Links; 3]);
    tabelle.zeile(vec!["x".into()]);
    assert_eq!(tabelle.zeilenzahl(), 1);
    assert_eq!(tabelle.rendern()[2], "x");
}

#[test]
fn zielliste_enthaelt_alle_ziele() {
    let tabelle = zielliste("de", None);
    assert_eq!(tabelle.zeilenzahl(), targets().len());
}

#[test]
fn zielliste_laesst_sich_auf_eine_kategorie_einschraenken() {
    let tabelle = zielliste("de", Some(Category::Browsers));
    let erwartet = targets_in(Category::Browsers).len();
    assert_eq!(tabelle.zeilenzahl(), erwartet);
    assert!(erwartet > 0);
    assert!(erwartet < targets().len());
}

#[test]
fn kategoriesummen_addieren_je_kategorie() {
    let b = bericht(vec![
        scan_ziel("a", Category::System, 100, 2),
        scan_ziel("b", Category::System, 50, 1),
        scan_ziel("c", Category::Browsers, 25, 5),
    ]);
    let summen = kategoriesummen(&b);
    assert_eq!(summen.len(), 2);
    let system = summen.iter().find(|s| s.kategorie == Category::System).unwrap();
    assert_eq!(system.size, 150);
    assert_eq!(system.items, 3);
    assert_eq!(system.ziele, 2);
}

#[test]
fn ziele_werden_absteigend_nach_groesse_sortiert() {
    let b = bericht(vec![scan_ziel("klein", Category::System, 10, 1), scan_ziel("gross", Category::System, 900, 1)]);
    let sortiert = ziele_nach_groesse(&b, false);
    assert_eq!(sortiert[0].key, "gross");
    assert_eq!(sortiert[1].key, "klein");
}

#[test]
fn leere_ziele_werden_nur_mit_alle_gezeigt() {
    let b = bericht(vec![scan_ziel("voll", Category::System, 10, 1), scan_ziel("leer", Category::System, 0, 0)]);
    assert_eq!(ziele_nach_groesse(&b, false).len(), 1);
    assert_eq!(ziele_nach_groesse(&b, true).len(), 2);
}

#[test]
fn uebersprungene_ziele_bleiben_auch_ohne_treffer_sichtbar() {
    let mut ziel = scan_ziel("gesperrt", Category::System, 0, 0);
    ziel.skipped = true;
    ziel.skip_reason = "skip.needs_admin".into();
    let b = bericht(vec![ziel]);
    assert_eq!(ziele_nach_groesse(&b, false).len(), 1);
}

#[test]
fn kategorietabelle_endet_mit_der_gesamtsumme() {
    let b = bericht(vec![scan_ziel("a", Category::System, 2048, 4)]);
    let zeilen = kategorie_tabelle("de", &b).rendern();
    let letzte = zeilen.last().unwrap();
    assert!(letzte.starts_with("Gesamt"));
    assert!(letzte.contains("4"));
}

#[test]
fn scan_tabelle_loest_uebersprungene_gruende_auf() {
    let mut ziel = scan_ziel("x", Category::System, 0, 0);
    ziel.skipped = true;
    ziel.skip_reason = "skip.needs_admin".into();
    let zeilen = scan_tabelle("de", &bericht(vec![ziel]), true).rendern();
    assert!(zeilen.iter().any(|z| z.contains("Administratorrechte")));
    assert!(!zeilen.iter().any(|z| z.contains("skip.needs_admin")));
}

#[test]
fn clean_tabelle_zeigt_fehler_und_statuszeichen() {
    let b = clean_bericht(
        vec![TargetClean {
            key: "system.temp.user".into(),
            category: Category::System,
            ok: false,
            skipped: false,
            skip_reason: String::new(),
            freed: 0,
            removed_items: 0,
            locked_items: 0,
            denied_items: 0,
            blocked_items: 0,
            errors: vec!["clean.failed|Zugriff verweigert".into()],
        }],
        0,
        0,
    );
    let zeilen = clean_tabelle("de", &b).rendern();
    assert!(zeilen[2].starts_with('x'));
    assert!(zeilen[2].contains("Zugriff verweigert"));
}

#[test]
fn zusammenfassung_unterscheidet_trockenlauf() {
    let b = clean_bericht(Vec::new(), 1024, 3);
    let echt = clean_zusammenfassung("de", &b, false);
    let trocken = clean_zusammenfassung("de", &b, true);
    assert_ne!(echt, trocken);
    assert!(trocken.contains("Simulation"));
    assert!(echt.contains("freigegeben"));
}

#[test]
fn riskante_ziele_werden_erkannt() {
    let riskant: Vec<String> =
        targets().iter().filter(|z| z.risk == Risk::Caution).map(|z| z.key.to_string()).collect();
    assert!(!riskant.is_empty(), "Katalog ohne riskante Ziele?");
    assert_eq!(riskante_ziele(&riskant).len(), riskant.len());
    assert!(riskante_ziele(&["system.temp.user".to_string()]).is_empty());
    assert!(riskante_ziele(&["gibt.es.nicht".to_string()]).is_empty());
}

#[test]
fn gleich_grosse_ziele_ordnen_sich_nach_schluessel() {
    let b = bericht(vec![
        scan_ziel("b", Category::System, 5, 1),
        scan_ziel("a", Category::System, 5, 1),
        scan_ziel("c", Category::Apps, 7, 1),
    ]);
    let keys: Vec<&str> = ziele_nach_groesse(&b, false).iter().map(|z| z.key.as_str()).collect();
    assert_eq!(keys, vec!["c", "a", "b"]);
}

#[test]
fn analyse_zusammenfassung_nennt_groesse_und_anzahl() {
    let b = bericht(vec![scan_ziel("a", Category::System, 3 * 1024 * 1024 * 1024, 42)]);
    assert_eq!(scan_zusammenfassung("en", &b), "3.0 GB found across 42 items");
}

#[test]
fn scan_tabelle_zeigt_groesse_rechtsbuendig() {
    let b = bericht(vec![scan_ziel("system.temp.user", Category::System, 1536, 3)]);
    let zeilen = scan_tabelle("de", &b, false).rendern();
    assert_eq!(zeilen.len(), 3);
    assert!(zeilen[2].starts_with("+  Temporäre Dateien"));
    assert!(zeilen[2].contains("1.5 KB"));
    let summen = kategorie_tabelle("en", &b).rendern();
    assert_eq!(summen.len(), 4);
}
