use plane::engine::types::{Category, FileRule, Risk, ScanReport, Target, TargetKind, TargetScan};

#[test]
fn kategorien_haben_eindeutige_schluessel() {
    let mut gesehen = Vec::new();
    for kategorie in Category::ALL {
        assert!(!gesehen.contains(&kategorie.key()));
        gesehen.push(kategorie.key());
    }
}

#[test]
fn i18n_schluessel_folgen_dem_schema() {
    assert_eq!(Category::System.i18n_key(), "category.system");
}

#[test]
fn filerule_baut_sich_verkettet_auf() {
    let regel = FileRule::new("%TEMP%/*").older_than(7).excluding(&["\\Low"]);
    assert_eq!(regel.min_age_days, 7);
    assert_eq!(regel.exclude, &["\\Low"]);
}

#[test]
fn ausschluss_ignoriert_gross_klein() {
    let regel = FileRule::new("%TEMP%/*").excluding(&["\\Low"]);
    assert!(regel.is_excluded(r"C:\Users\p\AppData\Local\Temp\low"));
    assert!(regel.is_excluded(r"C:\Users\p\AppData\Local\Temp\LOW\x"));
    assert!(!regel.is_excluded(r"C:\Users\p\AppData\Local\Temp\andere"));
}

#[test]
fn ohne_ausschlussliste_ist_nichts_ausgeschlossen() {
    assert!(!FileRule::new("%TEMP%/*").is_excluded(r"C:\beliebig\x"));
}

#[test]
fn scanreport_summiert_nur_vorausgewaehlte_ziele() {
    let mache = |key: &str, default_enabled: bool, size: u64| TargetScan {
        key: key.into(),
        category: Category::System,
        risk: Risk::Safe,
        requires_admin: false,
        default_enabled,
        suggestion_only: false,
        item_count: 1,
        size,
        items: Vec::new(),
        skipped: false,
        skip_reason: String::new(),
        warnings: Vec::new(),
    };

    let report = ScanReport {
        targets: vec![mache("a", true, 100), mache("b", false, 900)],
        total_size: 1000,
        total_items: 2,
        duration_ms: 0,
        cancelled: false,
    };
    assert_eq!(report.selectable_size(), 100);
}

#[test]
fn risikostufe_ordnet_sich_aufsteigend() {
    assert!(Risk::Safe < Risk::Notice);
    assert!(Risk::Notice < Risk::Caution);
}

fn beispielziel(kind: TargetKind, risk: Risk, admin: bool) -> Target {
    Target {
        key: "x.y",
        category: Category::Apps,
        kind,
        risk,
        requires_admin: admin,
        default_enabled: false,
        services: Vec::new(),
        blocking_processes: Vec::new(),
    }
}

#[test]
fn schluessel_von_kategorie_und_risiko() {
    assert_eq!(Category::RecycleBin.key(), "recyclebin");
    assert_eq!(Category::Registry.i18n_key(), "category.registry");
    assert_eq!(Risk::Safe.key(), "safe");
    assert_eq!(Risk::Notice.key(), "notice");
    assert_eq!(Risk::Caution.key(), "caution");
}

#[test]
fn zielnamen_folgen_dem_schema() {
    let ziel = beispielziel(TargetKind::RecycleBin, Risk::Safe, false);
    assert_eq!(ziel.i18n_name(), "target.x.y.name");
    assert_eq!(ziel.i18n_description(), "target.x.y.description");
}

#[test]
fn unbedenklich_nur_ohne_risiko_und_ohne_adminrechte() {
    assert!(beispielziel(TargetKind::RecycleBin, Risk::Safe, false).is_safe());
    assert!(!beispielziel(TargetKind::RecycleBin, Risk::Safe, true).is_safe());
    assert!(!beispielziel(TargetKind::RecycleBin, Risk::Notice, false).is_safe());
}

#[test]
fn nur_installationsdateien_sind_vorschlaege() {
    assert!(beispielziel(TargetKind::Installers, Risk::Safe, false).is_suggestion_only());
    assert!(!beispielziel(TargetKind::Files(Vec::new()), Risk::Safe, false).is_suggestion_only());
}

#[test]
fn uebersprungene_ergebnisse_sind_leer() {
    let ziel = beispielziel(TargetKind::Installers, Risk::Notice, true);
    let scan = TargetScan::skipped(&ziel, "skip.admin");
    assert!(scan.skipped && scan.suggestion_only && scan.requires_admin);
    assert_eq!(scan.skip_reason, "skip.admin");
    assert_eq!((scan.item_count, scan.size), (0, 0));
    let clean = plane::engine::types::TargetClean::skipped("x.y", Category::Apps, "skip.cancelled");
    assert!(clean.ok && clean.skipped);
    assert_eq!(clean.freed, 0);
    let item = plane::engine::types::ScanItem::new("C:\\a", 5).with_detail("d");
    assert_eq!((item.path.as_str(), item.size, item.detail.as_str()), ("C:\\a", 5, "d"));
}
