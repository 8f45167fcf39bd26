use plane::engine::catalog::{default_selection, target_by_key, targets, targets_in};
use plane::engine::types::{Category, Risk, TargetKind};

#[test]
fn catalog_schluessel_sind_eindeutig() {
    let mut gesehen: Vec<&str> = Vec::new();
    for target in targets() {
        assert!(!gesehen.contains(&target.key), "Doppelter Schlüssel: {}", target.key);
        gesehen.push(target.key);
    }
}

#[test]
fn schluessel_folgen_der_namenskonvention() {
    for target in targets() {
        assert_eq!(target.key, target.key.to_ascii_lowercase(), "{} ist nicht kleingeschrieben", target.key);
        assert!(!target.key.contains(' '), "{} enthält Leerzeichen", target.key);
        assert!(target.key.contains('.'), "{} sollte gegliedert sein (bereich.name)", target.key);
    }
}

#[test]
fn jedes_ziel_hat_eine_wirkung() {
    for target in targets() {
        match &target.kind {
            TargetKind::Files(regeln) => assert!(!regeln.is_empty(), "{} hat keine Regeln", target.key),
            TargetKind::Command(argv) => assert!(!argv.is_empty(), "{} hat keinen Befehl", target.key),
            TargetKind::Registry(regeln) => assert!(!regeln.is_empty(), "{} hat keine Regeln", target.key),
            TargetKind::RecycleBin | TargetKind::Installers => {}
        }
    }
}

#[test]
fn riskante_ziele_sind_nie_vorausgewaehlt() {
    for target in targets() {
        if target.risk == Risk::Caution {
            assert!(!target.default_enabled, "{} ist riskant und darf nicht vorausgewählt sein", target.key);
        }
    }
}

#[test]
fn dienststeuerung_erfordert_adminrechte() {
    for target in targets() {
        if !target.services.is_empty() {
            assert!(target.requires_admin, "{} steuert Dienste ohne requires_admin", target.key);
        }
    }
}

#[test]
fn pfade_verdrahten_kein_laufwerk() {
    for target in targets() {
        if let TargetKind::Files(regeln) = &target.kind {
            for regel in regeln {
                assert!(regel.pattern.starts_with('%'), "{}: Muster ohne Umgebungsvariable: {}", target.key, regel.pattern);
            }
        }
    }
}

#[test]
fn muster_verwenden_vorwaertsschraegstriche() {
    for target in targets() {
        if let TargetKind::Files(regeln) = &target.kind {
            for regel in regeln {
                assert!(!regel.pattern.contains('\\'), "{}: Muster mit Backslash: {}", target.key, regel.pattern);
            }
        }
    }
}

#[test]
fn windows_old_ist_als_riskant_markiert() {
    let target = target_by_key("system.windowsold").unwrap();
    assert_eq!(target.risk, Risk::Caution);
    assert!(target.requires_admin);
    assert!(!target.default_enabled);
}

#[test]
fn cookies_sind_riskant_und_nicht_vorausgewaehlt() {
    let target = target_by_key("browser.cookies").unwrap();
    assert_eq!(target.risk, Risk::Caution);
    assert!(!target.default_enabled);
}

#[test]
fn papierkorb_ist_riskant_und_nicht_vorausgewaehlt() {
    let target = target_by_key("recyclebin.all").unwrap();
    assert_eq!(target.risk, Risk::Caution);
    assert!(!target.default_enabled);
}

#[test]
fn registry_ist_riskant_und_nicht_vorausgewaehlt() {
    let target = target_by_key("registry.orphans").unwrap();
    assert_eq!(target.risk, Risk::Caution);
    assert!(!target.default_enabled);
}

#[test]
fn installationsdateien_sind_nur_ein_vorschlag() {
    let target = target_by_key("installers.downloads").unwrap();
    assert!(target.is_suggestion_only());
    assert!(!target.default_enabled);
}

#[test]
fn target_by_key_ignoriert_gross_klein() {
    assert!(target_by_key("  SYSTEM.TEMP.USER ").is_some());
    assert!(target_by_key("gibtesnicht").is_none());
}

#[test]
fn jede_kategorie_hat_mindestens_ein_ziel() {
    for kategorie in Category::ALL {
        assert!(!targets_in(kategorie).is_empty(), "Kategorie {} ist leer", kategorie.key());
    }
}

#[test]
fn standardauswahl_ist_ausschliesslich_unbedenklich() {
    for key in default_selection() {
        let target = target_by_key(key).unwrap();
        assert_ne!(target.risk, Risk::Caution, "{key} ist in der Standardauswahl, aber riskant");
    }
}

#[test]
fn standardauswahl_ist_nicht_leer() {
    assert!(default_selection().len() >= 10);
}

#[test]
fn katalog_deckt_die_wichtigsten_bereiche_ab() {
    for key in [
        "system.temp.user",
        "system.thumbnails",
        "browser.edge.cache",
        "browser.chrome.cache",
        "browser.firefox.cache",
        "recyclebin.all",
        "installers.downloads",
        "registry.orphans",
    ] {
        assert!(target_by_key(key).is_some(), "Ziel fehlt: {key}");
    }
}

#[test]
fn katalog_hat_achtunddreissig_ziele_in_fester_reihenfolge() {
    let alle = targets();
    assert_eq!(alle.len(), 38);
    assert_eq!(alle[0].key, "system.temp.user");
    assert_eq!(alle[37].key, "registry.orphans");
}

#[test]
fn temp_ordner_schuetzt_low() {
    let ziel = target_by_key("system.temp.user").unwrap();
    match &ziel.kind {
        TargetKind::Files(regeln) => {
            assert_eq!(regeln.len(), 1);
            assert_eq!(regeln[0].pattern, "%TEMP%/*");
            assert_eq!(regeln[0].exclude, &["\\Temp\\Low"]);
            assert!(regeln[0].is_excluded("C:\\Users\\p\\AppData\\Local\\Temp\\Low\\x"));
        }
        _ => panic!("Dateiziel erwartet"),
    }
}

#[test]
fn dns_ziel_ist_ein_befehl_und_windows_update_steuert_dienste() {
    match &target_by_key("system.dns").unwrap().kind {
        TargetKind::Command(argv) => assert_eq!(argv, &vec!["ipconfig", "/flushdns"]),
        _ => panic!("Befehlsziel erwartet"),
    }
    let wu = target_by_key("system.windowsupdate").unwrap();
    assert_eq!(wu.services, vec!["wuauserv", "bits"]);
    assert!(wu.requires_admin);
    let teams = target_by_key("app.teams").unwrap();
    assert_eq!(teams.blocking_processes, vec!["ms-teams.exe", "Teams.exe"]);
}

#[test]
fn kategorie_filter_behaelt_die_reihenfolge() {
    let registry: Vec<&str> = targets_in(Category::Registry).iter().map(|t| t.key).collect();
    assert_eq!(registry, vec!["registry.privacy", "registry.orphans"]);
    match &targets_in(Category::Registry)[1].kind {
        TargetKind::Registry(regeln) => assert_eq!(regeln.len(), 6),
        _ => panic!("Registryziel erwartet"),
    }
}

#[test]
fn kein_ziel_faellt_durch_die_uebersetzungsraster() {
    // Jedes Ziel braucht Name und Beschreibung im Sprachkatalog.
    for target in targets() {
        let name = target.i18n_name();
        let beschreibung = target.i18n_description();
        assert!(name.starts_with("target."));
        assert!(name.ends_with(".name"));
        assert!(beschreibung.ends_with(".description"));
    }
}

#[test]
fn riskante_ziele_sind_klar_gekennzeichnet() {
    for target in targets() {
        if target.risk == Risk::Caution {
            assert!(!target.default_enabled, "{}", target.key);
        }
        if target.is_suggestion_only() {
            assert!(!target.default_enabled, "{}", target.key);
        }
    }
}

#[test]
fn kategorien_teilen_den_katalog_auf() {
    let summe: usize = Category::ALL.iter().map(|k| targets_in(*k).len()).sum();
    assert_eq!(summe, targets().len());
}
