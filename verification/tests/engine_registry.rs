use plane::engine::fsutil::{expand_vars_mit, variablennamen};
use plane::engine::registry::{
    backup, delete_items, extract_path, full_key, is_checkable_path, is_orphaned, is_protected,
    is_protected_key, pruefpfad_von, scan_rules, verwaist_nach_pruefung, progid_treffer, regel_vorpruefen,
    registry_eintrag_treffer, wert_treffer, wertname_treffer,
};
use plane::engine::runtime::CancelToken;
use plane::engine::types::{RegistryCheck, RegistryRule, ScanItem};

/// Keine Variable ist bekannt.
fn keine_variablen(_: &str) -> Option<String> {
    None
}

#[test]
fn extrahiert_pfad_aus_anfuehrungszeichen() {
    assert_eq!(
        extract_path(r#""C:\Programme\App\app.exe" --start"#).as_deref(),
        Some(r"C:\Programme\App\app.exe")
    );
}

#[test]
fn extrahiert_pfad_ohne_anfuehrungszeichen() {
    assert_eq!(extract_path(r"C:\Tools\app.exe -q").as_deref(), Some(r"C:\Tools\app.exe"));
}

#[test]
fn extrahiert_pfad_aus_icon_referenz() {
    assert_eq!(extract_path(r"C:\Tools\app.exe,0").as_deref(), Some(r"C:\Tools\app.exe"));
}

#[test]
fn leerer_wert_ergibt_keinen_pfad() {
    assert!(extract_path("").is_none());
    assert!(extract_path("   ").is_none());
}

#[test]
fn pruefbar_nur_bei_lokalem_dateipfad_mit_endung() {
    assert!(is_checkable_path(r"C:\Tools\app.exe"));
    assert!(is_checkable_path(r"D:\x\y.dll"));

    assert!(!is_checkable_path(r"\\server\freigabe\app.exe"));
    assert!(!is_checkable_path("https://example.com/app.exe"));
    assert!(!is_checkable_path("{12345678-1234-1234-1234-123456789012}"));
    assert!(!is_checkable_path(r"C:\Programme\Ordner"));
    assert!(!is_checkable_path("app.exe"));
    assert!(!is_checkable_path("abc"));
}

#[test]
fn sperrliste_schuetzt_systemeintraege() {
    assert!(is_protected("OneDrive", r"C:\x\OneDrive.exe"));
    assert!(is_protected("X", r"C:\Windows\System32\rundll32.exe foo"));
    assert!(!is_protected("MeinTool", r"C:\Tools\mein.exe"));
}

#[test]
fn verwaist_nur_wenn_datei_wirklich_fehlt() {
    let existiert_nie = |_: &str| false;
    let existiert_immer = |_: &str| true;

    assert!(is_orphaned("MeinTool", r"C:\Tools\weg.exe", &keine_variablen, &existiert_nie));
    assert!(!is_orphaned("MeinTool", r"C:\Tools\da.exe", &keine_variablen, &existiert_immer));
}

#[test]
fn mehrdeutige_eintraege_gelten_nie_als_verwaist() {
    let existiert_nie = |_: &str| false;
    for wert in [
        r"\\server\share\app.exe",
        "https://example.com/start",
        "{90140000-0011-0000-0000-0000000FF1CE}",
        r"C:\Programme\NurEinOrdner",
        "",
    ] {
        assert!(
            !is_orphaned("Test", wert, &keine_variablen, &existiert_nie),
            "fälschlich als verwaist erkannt: {wert}"
        );
    }
}

#[test]
fn geschuetzte_eintraege_gelten_nie_als_verwaist() {
    let existiert_nie = |_: &str| false;
    assert!(!is_orphaned("OneDrive", r"C:\x\OneDrive.exe", &keine_variablen, &existiert_nie));
}

#[test]
fn unaufloesbare_variable_gilt_nicht_als_verwaist() {
    let existiert_nie = |_: &str| false;
    assert!(!is_orphaned("Test", r"%GIBT_ES_NICHT_98765%\app.exe", &keine_variablen, &existiert_nie));
}

#[test]
fn voller_schluesselname_wird_ausgeschrieben() {
    assert_eq!(full_key("HKCU", r"SOFTWARE\X"), r"HKEY_CURRENT_USER\SOFTWARE\X");
    assert_eq!(full_key("HKLM", "A"), r"HKEY_LOCAL_MACHINE\A");
    assert_eq!(full_key("HKCR", "A"), r"HKEY_CLASSES_ROOT\A");
}

#[test]
fn abgebrochener_scan_liefert_nichts() {
    let cancel = CancelToken::new();
    cancel.cancel();
    let regeln = &[RegistryRule {
        hive: "HKCU",
        path: r"SOFTWARE\Microsoft\Windows\CurrentVersion\Run",
        check: RegistryCheck::ValueIsPath { value: "" },
    }];
    let (treffer, _) = scan_rules(regeln, &cancel);
    assert!(treffer.is_empty());
}

#[test]
fn trockenlauf_loescht_nichts_und_zaehlt_korrekt() {
    let items = vec![ScanItem {
        path: r"HKEY_CURRENT_USER\SOFTWARE\PlaneTestGibtEsNicht".into(),
        size: 0,
        detail: String::new(),
        value_name: None,
    }];
    let (entfernt, fehler) = delete_items(&items, true);
    assert_eq!(entfernt, 1);
    assert!(fehler.is_empty());
}

// ---------------------------------------------------------------------------
// Weitere Fälle
// ---------------------------------------------------------------------------

#[test]
fn frueheste_endung_beendet_den_pfad() {
    // ".dll" steht vor ".exe": der Pfad endet dort.
    assert_eq!(
        extract_path(r"C:\W\rundll.dll,Start C:\x.exe").as_deref(),
        Some(r"C:\W\rundll.dll")
    );
    assert_eq!(extract_path("  tool  --flag").as_deref(), Some("tool"));
    assert_eq!(extract_path(r#""C:\offen\app.exe"#).as_deref(), Some(r"C:\offen\app.exe"));
    assert!(extract_path(r#""""#).is_none());
    assert!(extract_path(",,,").is_none());
}

#[test]
fn gesperrte_bereiche_werden_erkannt() {
    assert!(is_protected_key(r"HKEY_LOCAL_MACHINE\SYSTEM\CurrentControlSet\Services\X"));
    assert!(is_protected_key(r"HKEY_LOCAL_MACHINE\SOFTWARE\Classes\CLSID\{x}"));
    assert!(!is_protected_key(r"HKEY_CURRENT_USER\SOFTWARE\Microsoft\Windows\CurrentVersion\Run"));
}

#[test]
fn variablen_werden_aufgeloest() {
    let nachschlagen = |name: &str| -> Option<String> {
        if name == "ORT" {
            Some(r"C:\Programme\".to_string())
        } else {
            None
        }
    };
    assert_eq!(expand_vars_mit(r"%ORT%\app.exe", &nachschlagen).as_deref(), Some(r"C:\Programme\app.exe"));
    assert_eq!(expand_vars_mit("ohne", &nachschlagen).as_deref(), Some("ohne"));
    assert!(expand_vars_mit(r"%UNBEKANNT%\x", &nachschlagen).is_none());
    assert!(expand_vars_mit(r"%offen\x", &nachschlagen).is_none());

    let fehlt = |_: &str| false;
    assert!(is_orphaned("Tool", r"%ORT%\weg.exe", &nachschlagen, &fehlt));
}

#[test]
fn variablennamen_in_reihenfolge() {
    let muster: Vec<char> = "%A%\\x\\%BB%".chars().collect();
    let namen = variablennamen(&muster).unwrap();
    let namen: Vec<String> = namen.iter().map(|n| n.iter().collect()).collect();
    assert_eq!(namen, vec!["A", "BB"]);
    let offen: Vec<char> = "%A".chars().collect();
    assert!(variablennamen(&offen).is_none());
}

#[test]
fn pruefpfad_und_entscheidung() {
    assert!(pruefpfad_von("OneDrive", r"C:\x.exe").is_none());
    assert_eq!(pruefpfad_von("Tool", r#""C:\t.exe" /x"#).as_deref(), Some(r"C:\t.exe"));
    assert!(verwaist_nach_pruefung(r"C:\t.exe", false));
    assert!(!verwaist_nach_pruefung(r"C:\t.exe", true));
    assert!(!verwaist_nach_pruefung(r"C:\ordner", false));
}

#[test]
fn ohne_trockenlauf_wird_hier_nichts_entfernt() {
    let items = vec![ScanItem {
        path: r"HKEY_CURRENT_USER\SOFTWARE\X".into(),
        size: 0,
        detail: String::new(),
        value_name: None,
    }];
    assert_eq!(delete_items(&items, false).0, 0);
}

#[test]
fn ohne_registry_gibt_es_keine_sicherung() {
    let regeln = vec![RegistryRule { hive: "HKCU", path: "Software\\Classes", check: RegistryCheck::SubkeyProgId }];
    assert_eq!(backup(&regeln, "C:\\cfg\\backups"), Err("Registry gibt es nur unter Windows".to_string()));
}

#[test]
fn regeln_mit_unbekannter_wurzel_oder_gesperrtem_bereich_werden_uebergangen() {
    assert_eq!(regel_vorpruefen("HKXX", r"Software\X"), Err("Unbekannte Registry-Wurzel: HKXX".to_string()));
    assert_eq!(
        regel_vorpruefen("HKLM", r"SYSTEM\CurrentControlSet\Services\foo"),
        Err(r"Gesperrter Bereich übersprungen: HKEY_LOCAL_MACHINE\SYSTEM\CurrentControlSet\Services\foo".to_string())
    );
    assert_eq!(
        regel_vorpruefen("HKCU", r"Software\Microsoft\Windows\CurrentVersion\Run"),
        Ok(r"HKEY_CURRENT_USER\Software\Microsoft\Windows\CurrentVersion\Run".to_string())
    );
}

fn felder(i: ScanItem) -> (String, u64, String, Option<String>) {
    (i.path, i.size, i.detail, i.value_name)
}

#[test]
fn werttreffer_nennen_name_und_wert() {
    let a = r"HKEY_CURRENT_USER\Software\X";
    assert_eq!(
        wertname_treffer(a, r"C:\weg\a.exe", true).map(felder),
        Some((a.to_string(), 0, r"C:\weg\a.exe".to_string(), Some(r"C:\weg\a.exe".to_string())))
    );
    assert_eq!(wertname_treffer(a, r"C:\da\a.exe", false).map(felder), None);
    assert_eq!(
        wert_treffer(a, "", "Tool", r"C:\weg\t.exe -x", true).map(felder),
        Some((a.to_string(), 0, r"Tool → C:\weg\t.exe -x".to_string(), Some("Tool".to_string())))
    );
    assert!(wert_treffer(a, "path", "PATH", r"C:\weg\t.exe", true).is_some());
    assert_eq!(wert_treffer(a, "path", "Other", r"C:\weg\t.exe", true).map(felder), None);
    assert_eq!(wert_treffer(a, "", "Tool", r"C:\da\t.exe", false).map(felder), None);
}

#[test]
fn schluesseltreffer_loeschen_den_unterschluessel() {
    let a = r"HKEY_CLASSES_ROOT\Applications";
    assert_eq!(
        progid_treffer(a, "app.exe", r"C:\weg\app.exe", true).map(felder),
        Some((format!("{a}\\app.exe"), 0, r"C:\weg\app.exe".to_string(), None))
    );
    assert_eq!(progid_treffer(a, "app.exe", "", false).map(felder), None);

    let u = r"HKEY_LOCAL_MACHINE\Software\Microsoft\Windows\CurrentVersion\Uninstall";
    assert_eq!(
        registry_eintrag_treffer(u, "{ABC}", "Altes Programm", "", r"C:\weg\p.exe", true).map(felder),
        Some((format!("{u}\\{{ABC}}"), 0, "Altes Programm".to_string(), None))
    );
    assert_eq!(registry_eintrag_treffer(u, "{ABC}", "", r"C:\weg", "", true).unwrap().detail, "{ABC}");
    assert_eq!(registry_eintrag_treffer(u, "{ABC}", "Name", "", "", true).map(felder), None);
    assert_eq!(registry_eintrag_treffer(u, "{ABC}", "Name", "", r"C:\da\p.exe", false).map(felder), None);
}
