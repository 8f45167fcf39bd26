use plane::engine::process::Output;
use plane::engine::recyclebin::{leeren_auswerten, leeren_planen, leeren_vorbereiten, scan_auswerten, Papierkorbfund, NUR_WINDOWS};
use plane::engine::types::ScanItem;

fn fund(pfad: &str, laufwerk: &str, groesse: u64) -> Papierkorbfund {
    Papierkorbfund { pfad: pfad.to_string(), laufwerk: laufwerk.to_string(), groesse }
}

fn ausgabe(code: i32, stdout: &str, stderr: &str) -> Output {
    Output { code, stdout: stdout.to_string(), stderr: stderr.to_string() }
}

#[test]
fn analyse_meldet_nur_belegte_papierkoerbe_je_laufwerk() {
    let funde = vec![
        fund("C:\\$Recycle.Bin", "C:\\", 4096),
        fund("D:\\$Recycle.Bin", "D:\\", 0),
        fund("E:\\$Recycle.Bin", "E:\\", 10),
    ];
    let (items, warnungen) = scan_auswerten(&funde, true);
    assert_eq!(items.len(), 2);
    for item in &items {
        assert!(item.path.contains("$Recycle.Bin"));
        assert!(item.size > 0, "leere Papierkörbe werden nicht gemeldet");
    }
    assert_eq!(items[0].detail, "C:\\");
    assert_eq!(items[1].size, 10);
    assert!(warnungen.is_empty());
}

#[test]
fn ohne_windows_gibt_es_einen_hinweis() {
    let (items, warnungen) = scan_auswerten(&Vec::new(), false);
    assert!(items.is_empty());
    assert_eq!(warnungen, vec![NUR_WINDOWS.to_string()]);
    // Unter Windows ist ein leerer Papierkorb kein Grund für eine Warnung.
    assert!(scan_auswerten(&Vec::new(), true).1.is_empty());
}

#[test]
fn trockenlauf_meldet_die_groesse_ohne_zu_leeren() {
    let items = vec![ScanItem::new("C:\\$Recycle.Bin", 300), ScanItem::new("D:\\$Recycle.Bin", 200)];
    assert_eq!(leeren_planen(&items, true), (500, false));
    assert_eq!(leeren_planen(&items, false), (500, true));
    assert_eq!(leeren_planen(&Vec::new(), false), (0, false));
}

#[test]
fn schon_leerer_papierkorb_ist_kein_fehler() {
    let (groesse, fehler) = leeren_auswerten(500, &ausgabe(1, "", "The recycle bin is EMPTY."), Vec::new());
    assert_eq!(groesse, 500);
    assert!(fehler.is_empty());
    let (groesse, _) = leeren_auswerten(500, &ausgabe(1, "Papierkorb ist leer", ""), Vec::new());
    assert_eq!(groesse, 500);
}

#[test]
fn gescheitertes_leeren_meldet_den_fehler() {
    let (groesse, fehler) = leeren_auswerten(500, &ausgabe(1, "aus", "Zugriff verweigert"), vec!["vorher".to_string()]);
    assert_eq!(groesse, 0);
    assert_eq!(fehler, vec!["vorher".to_string(), "Zugriff verweigert".to_string()]);
    let (_, fehler) = leeren_auswerten(500, &ausgabe(2, "nur stdout", ""), Vec::new());
    assert_eq!(fehler, vec!["nur stdout".to_string()]);
    assert_eq!(leeren_auswerten(500, &ausgabe(0, "", ""), Vec::new()), (500, Vec::new()));
}

#[test]
fn trockenlauf_meldet_den_platz_und_leert_nicht() {
    let funde = vec![fund(r"C:\$Recycle.Bin", "C:", 300), fund(r"D:\$Recycle.Bin", "D:", 0), fund(r"E:\$Recycle.Bin", "E:", 45)];
    assert_eq!(leeren_vorbereiten(&funde, true, true), (345, Vec::<String>::new(), false));
    assert_eq!(leeren_vorbereiten(&funde, true, false), (345, Vec::<String>::new(), true));
    let leer = vec![fund(r"C:\$Recycle.Bin", "C:", 0)];
    assert_eq!(leeren_vorbereiten(&leer, true, false), (0, Vec::<String>::new(), false));
    assert_eq!(leeren_vorbereiten(&Vec::new(), false, true), (0, vec![NUR_WINDOWS.to_string()], false));
}
