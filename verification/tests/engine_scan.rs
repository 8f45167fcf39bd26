use plane::engine::catalog::{target_by_key, targets};
use plane::engine::scan::{
    befehl_verbuchen, eintrag_zaehlt, liste_uebernehmen, neues_scanergebnis, nur_dateien, prozesse_melden,
    scan_vorpruefen, scanbericht, scanziele, treffer_verbuchen, MAX_ITEMS_PER_TARGET,
};
use plane::engine::types::{FileRule, ScanItem, TargetKind};

#[test]
fn ohne_schluessel_wird_der_ganze_katalog_analysiert() {
    let ziele = scanziele(&Vec::new());
    assert_eq!(ziele.len(), targets().len());
    assert_eq!(ziele[0].key, targets()[0].key);
}

#[test]
fn nur_bekannte_ziele_werden_analysiert() {
    let ziele = scanziele(&vec!["gibt.es.nicht".to_string(), " SYSTEM.DNS ".to_string(), "app.steam".to_string()]);
    let keys: Vec<&str> = ziele.iter().map(|t| t.key).collect();
    assert_eq!(keys, vec!["system.dns", "app.steam"]);
    assert!(scanziele(&vec!["gibt.es.nicht".to_string()]).is_empty());
}

#[test]
fn adminziele_ohne_rechte_werden_uebersprungen() {
    let ziel = targets().into_iter().find(|t| t.requires_admin).unwrap();
    let e = scan_vorpruefen(&ziel, false).unwrap();
    assert!(e.skipped);
    assert_eq!(e.skip_reason, "skip.needs_admin");
    assert!(scan_vorpruefen(&ziel, true).is_none());
    let frei = targets().into_iter().find(|t| !t.requires_admin).unwrap();
    assert!(scan_vorpruefen(&frei, false).is_none());
}

#[test]
fn trefferliste_ist_begrenzt_die_zaehlung_nicht() {
    let ziel = target_by_key("system.temp.user").unwrap();
    let mut e = neues_scanergebnis(&ziel);
    for i in 0..250u64 {
        treffer_verbuchen(&mut e, &format!("C:\\t\\{i}.tmp"), 10);
    }
    assert_eq!(e.item_count, 250);
    assert_eq!(e.size, 2500);
    assert_eq!(e.items.len(), MAX_ITEMS_PER_TARGET);
    assert_eq!(e.items[0].path, "C:\\t\\0.tmp");
}

#[test]
fn befehle_gelten_als_ein_eintrag_ohne_groesse() {
    let ziel = target_by_key("system.dns").unwrap();
    let mut e = neues_scanergebnis(&ziel);
    befehl_verbuchen(&mut e);
    assert_eq!(e.item_count, 1);
    assert_eq!(e.size, 0);
}

#[test]
fn laufende_programme_werden_gemeldet() {
    let ziel = target_by_key("system.temp.user").unwrap();
    let mut e = neues_scanergebnis(&ziel);
    prozesse_melden(&mut e, &Vec::new());
    assert!(e.warnings.is_empty());
    let laufend: Vec<Vec<char>> = vec!["chrome.exe".chars().collect(), "msedge.exe".chars().collect()];
    prozesse_melden(&mut e, &laufend);
    assert_eq!(e.warnings, vec!["warn.process_running|chrome.exe, msedge.exe"]);
}

#[test]
fn rekursive_muster_zaehlen_nur_dateien() {
    assert!(nur_dateien("%TEMP%\\**\\*"));
    assert!(!nur_dateien("%TEMP%\\*"));
}

#[test]
fn groessen_summieren_sich_im_bericht() {
    let a = target_by_key("system.temp.user").unwrap();
    let b = target_by_key("system.logs").unwrap();
    let mut x = neues_scanergebnis(&a);
    treffer_verbuchen(&mut x, "C:\\a", 100);
    let mut y = neues_scanergebnis(&b);
    treffer_verbuchen(&mut y, "C:\\b", 23);
    treffer_verbuchen(&mut y, "C:\\c", 7);
    let bericht = scanbericht(vec![x, y], 12, false);
    assert_eq!(bericht.total_size, 130);
    assert_eq!(bericht.total_items, 3);
    assert_eq!(bericht.duration_ms, 12);
    assert!(!bericht.cancelled);
    assert_eq!(bericht.targets.len(), 2);
}

#[test]
fn nur_erlaubte_alte_nicht_ausgeschlossene_treffer_zaehlen() {
    let regel = FileRule::new("%TEMP%/**").older_than(1).excluding(&[".lock"]);
    let tag = 86_400u64;
    let pfad = "C:\\Users\\p\\AppData\\Local\\Temp\\x.tmp";
    assert!(eintrag_zaehlt(&regel, pfad, Some(2 * tag), false, false));
    // schon gesehen, zu jung, Alter unbekannt, Ordner bei rekursivem Muster
    assert!(!eintrag_zaehlt(&regel, pfad, Some(2 * tag), false, true));
    assert!(!eintrag_zaehlt(&regel, pfad, Some(tag - 1), false, false));
    assert!(!eintrag_zaehlt(&regel, pfad, None, false, false));
    assert!(!eintrag_zaehlt(&regel, pfad, Some(2 * tag), true, false));
    // geschützter Pfad und ausgeschlossener Name
    assert!(!eintrag_zaehlt(&regel, "C:\\Windows\\System32\\x.tmp", Some(2 * tag), false, false));
    assert!(!eintrag_zaehlt(&regel, "C:\\Users\\p\\AppData\\Local\\Temp\\a.lock", Some(2 * tag), false, false));
    // Ohne `**` zählen auch Ordner.
    let flach = FileRule::new("%TEMP%/*");
    assert!(eintrag_zaehlt(&flach, pfad, None, true, false));
}

fn eintraege(n: usize, groesse: u64) -> Vec<ScanItem> {
    (0..n).map(|i| ScanItem::new(&format!("C:\\dl\\{i}.msi"), groesse)).collect()
}

#[test]
fn listen_werden_mit_zahl_groesse_und_warnungen_uebernommen() {
    let ziel = target_by_key("installers.downloads").unwrap();
    let mut e = neues_scanergebnis(&ziel);
    liste_uebernehmen(&mut e, &TargetKind::Installers, eintraege(MAX_ITEMS_PER_TARGET + 5, 3), &vec!["fehlt".to_string()]);
    assert_eq!(e.item_count, MAX_ITEMS_PER_TARGET + 5);
    assert_eq!(e.size, 3 * (MAX_ITEMS_PER_TARGET as u64 + 5));
    assert_eq!(e.items.len(), MAX_ITEMS_PER_TARGET);
    assert_eq!(e.warnings, vec!["fehlt".to_string()]);
}

#[test]
fn registrytreffer_belegen_keinen_platz_und_jede_liste_ist_begrenzt() {
    let ziel = target_by_key("registry.orphans").unwrap();
    let mut e = neues_scanergebnis(&ziel);
    liste_uebernehmen(&mut e, &TargetKind::Registry(Vec::new()), eintraege(3, 7), &Vec::new());
    assert_eq!((e.item_count, e.size, e.items.len()), (3, 0, 3));

    let ziel = target_by_key("recyclebin.all").unwrap();
    let mut e = neues_scanergebnis(&ziel);
    liste_uebernehmen(&mut e, &TargetKind::RecycleBin, eintraege(MAX_ITEMS_PER_TARGET + 1, 1), &Vec::new());
    assert_eq!(e.items.len(), MAX_ITEMS_PER_TARGET);
    assert_eq!(e.item_count, MAX_ITEMS_PER_TARGET + 1);
    assert_eq!(e.size, MAX_ITEMS_PER_TARGET as u64 + 1);
}
