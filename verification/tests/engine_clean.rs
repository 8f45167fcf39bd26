use plane::engine::catalog::target_by_key;
use plane::engine::clean::{
    abschliessen, befehlsausgang, bericht_zusammenfassen, dienste_anhalten, dienststart_gescheitert,
    dienststopp_gescheitert, eintrag_anfassen, neues_ergebnis, path_selected, registry_auswahl, registry_verbuchen,
    sicherung_gescheitert, sicherung_noetig, verbuche, vorpruefung, naechster_schritt, Bereinigungsstand, Ereignis,
    Schritt,
};
use plane::engine::process::Output;
use plane::engine::types::ScanItem;
use plane::engine::fsutil::Removal;
use plane::engine::types::{CleanRequest, FileRule, TargetKind};

fn anfrage(pfade: &[&str]) -> CleanRequest {
    CleanRequest { targets: Vec::new(), only_paths: pfade.iter().map(|p| p.to_string()).collect(), dry_run: true }
}

#[test]
fn pfadauswahl_ist_gross_klein_unabhaengig() {
    let anfrage = anfrage(&[r"C:\Temp\A.TMP"]);
    assert!(path_selected(r"c:\temp\a.tmp", &anfrage));
    assert!(!path_selected(r"c:\temp\b.tmp", &anfrage));
}

#[test]
fn leere_pfadauswahl_erfasst_alles() {
    let anfrage = CleanRequest::default();
    assert!(path_selected(r"C:\beliebig\x.tmp", &anfrage));
}

#[test]
fn adminziele_werden_ohne_rechte_uebersprungen() {
    let ziel = target_by_key("system.windowsold").unwrap();
    let ergebnis = vorpruefung(&ziel, false, &CleanRequest::default()).unwrap();
    assert!(ergebnis.skipped);
    assert_eq!(ergebnis.skip_reason, "skip.needs_admin");
    assert!(vorpruefung(&ziel, true, &CleanRequest::default()).is_none());
}

#[test]
fn installationsdateien_ohne_auswahl_werden_uebersprungen() {
    let ziel = target_by_key("installers.downloads").unwrap();
    let ergebnis = vorpruefung(&ziel, false, &CleanRequest::default()).unwrap();
    assert_eq!(ergebnis.skip_reason, "skip.needs_explicit_selection");
    assert!(vorpruefung(&ziel, false, &anfrage(&["C:\\x\\setup.exe"])).is_none());
}

#[test]
fn gesperrte_dateien_sind_kein_fehler() {
    let ziel = target_by_key("system.temp.user").unwrap();
    let mut e = neues_ergebnis(&ziel);
    verbuche(&mut e, Ok(Removal::Removed(100)));
    verbuche(&mut e, Ok(Removal::InUse));
    verbuche(&mut e, Ok(Removal::Denied));
    verbuche(&mut e, Ok(Removal::Blocked));
    verbuche(&mut e, Ok(Removal::Vanished));
    abschliessen(&mut e);
    assert!(e.ok);
    assert_eq!((e.freed, e.removed_items, e.locked_items, e.denied_items, e.blocked_items), (100, 1, 1, 1, 1));
    verbuche(&mut e, Err("kaputt".into()));
    abschliessen(&mut e);
    assert!(!e.ok);
    assert_eq!(e.errors, vec!["kaputt".to_string()]);
}

#[test]
fn treffer_werden_nach_den_regeln_gefiltert() {
    let regel = FileRule::new("%TEMP%/*").older_than(1).excluding(&["\\Low"]);
    let alle = CleanRequest::default();
    assert!(eintrag_anfassen(&regel, "C:\\Temp\\a.tmp", Some(90_000), false, false, &alle));
    assert!(!eintrag_anfassen(&regel, "C:\\Temp\\a.tmp", Some(10), false, false, &alle));
    assert!(!eintrag_anfassen(&regel, "C:\\Temp\\LOW", Some(90_000), false, false, &alle));
    assert!(!eintrag_anfassen(&regel, "C:\\Temp\\a.tmp", Some(90_000), false, true, &alle));
    let rekursiv = FileRule::new("%LOCALAPPDATA%/Cache/**/*");
    assert!(!eintrag_anfassen(&rekursiv, "C:\\Cache\\ordner", None, true, false, &alle));
    assert!(eintrag_anfassen(&rekursiv, "C:\\Cache\\datei", None, false, false, &alle));
    assert!(!eintrag_anfassen(&rekursiv, "C:\\Cache\\datei", None, false, false, &anfrage(&["C:\\anders"])));
}

#[test]
fn gesamtbericht_summiert_und_nennt_gescheiterte() {
    let mut a = neues_ergebnis(&target_by_key("system.temp.user").unwrap());
    verbuche(&mut a, Ok(Removal::Removed(10)));
    abschliessen(&mut a);
    let mut b = neues_ergebnis(&target_by_key("system.thumbnails").unwrap());
    verbuche(&mut b, Err("x".into()));
    abschliessen(&mut b);
    let mut c = neues_ergebnis(&target_by_key("browser.cookies").unwrap());
    verbuche(&mut c, Err("y".into()));
    abschliessen(&mut c);
    let bericht = bericht_zusammenfassen(vec![a.clone(), b, c], false, 5, None);
    assert!(!bericht.success);
    assert_eq!(bericht.total_freed, 10);
    assert_eq!(bericht.error, "clean.failed|system.thumbnails, browser.cookies");
    let gut = bericht_zusammenfassen(vec![a], true, 1, Some("C:\\b".into()));
    assert!(!gut.success && gut.cancelled && gut.error.is_empty());
    assert!(matches!(target_by_key("system.dns").unwrap().kind, TargetKind::Command(_)));
}

fn ausgabe(code: i32, stderr: &str) -> Output {
    Output { code, stdout: String::new(), stderr: stderr.to_string() }
}

#[test]
fn dienste_werden_nur_ausserhalb_des_trockenlaufs_angehalten() {
    let mit = target_by_key("system.windowsupdate").unwrap();
    let ohne = target_by_key("system.thumbnails").unwrap();
    let echt = CleanRequest { dry_run: false, ..CleanRequest::default() };
    let trocken = CleanRequest { dry_run: true, ..CleanRequest::default() };
    assert!(dienste_anhalten(&mit, &echt));
    assert!(!dienste_anhalten(&mit, &trocken));
    assert!(!dienste_anhalten(&ohne, &echt));
}

#[test]
fn gescheiterte_dienststeuerung_wird_gemeldet() {
    let ziel = target_by_key("system.windowsupdate").unwrap();
    let mut e = neues_ergebnis(&ziel);
    dienststopp_gescheitert(&mut e, &ausgabe(1, "Zugriff verweigert"));
    assert!(!e.ok);
    assert_eq!(e.errors, vec!["error.service_stop|Zugriff verweigert".to_string()]);

    let mut e = neues_ergebnis(&ziel);
    dienststart_gescheitert(&mut e, &ausgabe(5, ""));
    assert!(e.ok, "ein gescheiterter Neustart allein entscheidet nicht über das Ergebnis");
    assert_eq!(e.errors, vec!["error.service_start|Exitcode 5".to_string()]);
}

#[test]
fn befehle_zaehlen_als_ein_eintrag_ohne_groesse() {
    assert_eq!(befehlsausgang(None), Ok(Removal::Removed(0)));
    assert_eq!(befehlsausgang(Some(&ausgabe(0, ""))), Ok(Removal::Removed(0)));
    assert_eq!(befehlsausgang(Some(&ausgabe(2, "kaputt"))), Err("kaputt".to_string()));
}

#[test]
fn registry_wird_nur_mit_sicherung_angefasst() {
    let echt = CleanRequest { dry_run: false, ..CleanRequest::default() };
    let trocken = CleanRequest { dry_run: true, ..CleanRequest::default() };
    assert!(sicherung_noetig(&echt, &None));
    assert!(!sicherung_noetig(&echt, &Some("C:\\cfg\\backups\\r.reg".to_string())));
    assert!(!sicherung_noetig(&trocken, &None));

    let ziel = target_by_key("registry.orphans").unwrap();
    let mut e = neues_ergebnis(&ziel);
    sicherung_gescheitert(&mut e, "kein Platz");
    assert!(!e.ok);
    assert_eq!(e.errors, vec!["error.registry_backup|kein Platz".to_string()]);
}

#[test]
fn registryauswahl_vergleicht_pfade_genau() {
    let treffer = vec![
        ScanItem::new("HKCU\\Software\\A", 0),
        ScanItem::new("HKCU\\Software\\B", 0),
        ScanItem::new("HKCU\\Software\\C", 0),
    ];
    let alle = registry_auswahl(treffer.clone(), &CleanRequest::default());
    assert_eq!(alle.len(), 3);
    let gewaehlt = registry_auswahl(treffer, &anfrage(&["HKCU\\Software\\C", "hkcu\\software\\a"]));
    let pfade: Vec<&str> = gewaehlt.iter().map(|t| t.path.as_str()).collect();
    assert_eq!(pfade, vec!["HKCU\\Software\\C"]);
}

#[test]
fn registryergebnis_nimmt_warnungen_und_fehler_auf() {
    let ziel = target_by_key("registry.orphans").unwrap();
    let mut e = neues_ergebnis(&ziel);
    registry_verbuchen(&mut e, &vec!["w".to_string()], 4, &vec!["f".to_string()]);
    assert_eq!(e.removed_items, 4);
    assert_eq!(e.errors, vec!["w".to_string(), "f".to_string()]);
}

fn ohne_stand() -> Bereinigungsstand {
    Bereinigungsstand { dienste_gestoppt: false, sicherung_vorhanden: false }
}

#[test]
fn trockenlauf_misst_nur_und_haelt_keine_dienste_an() {
    let trocken = CleanRequest { dry_run: true, ..CleanRequest::default() };
    let ziel = target_by_key("system.windowsupdate").unwrap();
    let (stand, schritt) = naechster_schritt(&ziel, &trocken, ohne_stand(), Ereignis::Beginn);
    assert_eq!(schritt, Schritt::Dateien { nur_messen: true });
    assert_eq!(naechster_schritt(&ziel, &trocken, stand, Ereignis::ArbeitErledigt).1, Schritt::Fertig);

    let befehl = target_by_key("system.dns").unwrap();
    assert_eq!(naechster_schritt(&befehl, &trocken, ohne_stand(), Ereignis::Beginn).1, Schritt::BefehlSimulieren);
    let papierkorb = target_by_key("recyclebin.all").unwrap();
    assert_eq!(
        naechster_schritt(&papierkorb, &trocken, ohne_stand(), Ereignis::Beginn).1,
        Schritt::PapierkorbLeeren { nur_messen: true }
    );
    let registry = target_by_key("registry.orphans").unwrap();
    assert_eq!(
        naechster_schritt(&registry, &trocken, ohne_stand(), Ereignis::Beginn).1,
        Schritt::RegistryBereinigen { nur_messen: true }
    );
}

#[test]
fn dienste_werden_angehalten_und_danach_wieder_gestartet() {
    let echt = CleanRequest { dry_run: false, ..CleanRequest::default() };
    let ziel = target_by_key("system.windowsupdate").unwrap();
    let (stand, schritt) = naechster_schritt(&ziel, &echt, ohne_stand(), Ereignis::Beginn);
    assert_eq!(schritt, Schritt::DiensteAnhalten);
    let (stand, schritt) = naechster_schritt(&ziel, &echt, stand, Ereignis::DiensteAngehalten);
    assert_eq!(schritt, Schritt::Dateien { nur_messen: false });
    assert!(stand.dienste_gestoppt);
    let (stand, schritt) = naechster_schritt(&ziel, &echt, stand, Ereignis::ArbeitErledigt);
    assert_eq!(schritt, Schritt::DiensteStarten);
    let (stand, schritt) = naechster_schritt(&ziel, &echt, stand, Ereignis::DiensteGestartet);
    assert_eq!(schritt, Schritt::Fertig);
    assert!(!stand.dienste_gestoppt);
}

#[test]
fn gescheiterter_dienststopp_beendet_das_ziel_vor_dem_loeschen() {
    let echt = CleanRequest { dry_run: false, ..CleanRequest::default() };
    let ziel = target_by_key("system.windowsupdate").unwrap();
    let (stand, _) = naechster_schritt(&ziel, &echt, ohne_stand(), Ereignis::Beginn);
    assert_eq!(naechster_schritt(&ziel, &echt, stand, Ereignis::DienststoppGescheitert).1, Schritt::Fertig);
}

#[test]
fn registry_wird_erst_gesichert_dann_bereinigt() {
    let echt = CleanRequest { dry_run: false, ..CleanRequest::default() };
    let ziel = target_by_key("registry.orphans").unwrap();
    let (stand, schritt) = naechster_schritt(&ziel, &echt, ohne_stand(), Ereignis::Beginn);
    assert_eq!(schritt, Schritt::RegistrySichern);
    assert_eq!(naechster_schritt(&ziel, &echt, stand, Ereignis::SicherungGescheitert).1, Schritt::Fertig);
    let (stand, schritt) = naechster_schritt(&ziel, &echt, stand, Ereignis::SicherungAngelegt);
    assert_eq!(schritt, Schritt::RegistryBereinigen { nur_messen: false });
    assert!(stand.sicherung_vorhanden);

    let gesichert = Bereinigungsstand { dienste_gestoppt: false, sicherung_vorhanden: true };
    assert_eq!(
        naechster_schritt(&ziel, &echt, gesichert, Ereignis::Beginn).1,
        Schritt::RegistryBereinigen { nur_messen: false }
    );
    let befehl = target_by_key("system.dns").unwrap();
    assert_eq!(naechster_schritt(&befehl, &echt, ohne_stand(), Ereignis::Beginn).1, Schritt::BefehlAusfuehren);
}
