use plane::engine::fsutil::{
    einordnen, format_bytes, is_older_than, known_folder, mit_windows_trennern, path_is_allowed, pfad_anhaengen,
    Fehlerart, Removal, abgelehnt_meldung, entfernen_planen, Entfernung,
};

#[test]
fn path_is_allowed_schuetzt_wurzeln_und_systemordner() {
    assert!(!path_is_allowed("C:\\"));
    assert!(!path_is_allowed("C:\\Windows"));
    assert!(!path_is_allowed("C:\\Windows\\System32\\drivers"));
    assert!(!path_is_allowed("C:\\Program Files\\Plane\\app.exe"));
    assert!(path_is_allowed("C:\\Windows\\Temp\\x.tmp"));
    assert!(path_is_allowed("C:\\Users\\p\\AppData\\Local\\Temp\\x"));
}

#[test]
fn is_older_than_ohne_datei_ist_falsch() {
    // Ein fehlender Eintrag hat kein lesbares Alter.
    assert!(!is_older_than(None, 1));
}

#[test]
fn is_older_than_null_ist_immer_wahr() {
    assert!(is_older_than(None, 0));
    assert!(is_older_than(Some(5), 0));
    assert!(!is_older_than(Some(86_399), 1));
    assert!(is_older_than(Some(86_400), 1));
}

#[test]
fn einordnung_kennt_die_windows_fehlercodes() {
    assert_eq!(einordnen(Fehlerart::Andere, Some(32)), Some(Removal::InUse));
    assert_eq!(einordnen(Fehlerart::Andere, Some(33)), Some(Removal::InUse));
    assert_eq!(einordnen(Fehlerart::NichtGefunden, None), Some(Removal::Vanished));
    assert_eq!(einordnen(Fehlerart::KeineBerechtigung, None), Some(Removal::Denied));
    // Unbekanntes bleibt ein echter Fehler.
    assert_eq!(einordnen(Fehlerart::Andere, None), None);
    assert_eq!(einordnen(Fehlerart::Andere, Some(5)), Some(Removal::Denied));
    assert_eq!(einordnen(Fehlerart::Andere, Some(448)), Some(Removal::Blocked));
    assert_eq!(einordnen(Fehlerart::Andere, Some(1920)), Some(Removal::Blocked));
    assert_eq!(einordnen(Fehlerart::Andere, Some(2)), None);
}

#[test]
fn format_bytes_ist_lesbar() {
    assert_eq!(format_bytes(0), "0 B");
    assert_eq!(format_bytes(512), "512 B");
    assert_eq!(format_bytes(1024), "1.0 KB");
    assert_eq!(format_bytes(1024 * 1024), "1.0 MB");
    assert_eq!(format_bytes(3 * 1024 * 1024 * 1024), "3.0 GB");
}

#[test]
fn format_bytes_rundet_wie_die_gleitkommaausgabe() {
    for bytes in [1023u64, 1536, 1280, 1331, 1792, 1_048_575, 5 * 1024 * 1024 * 1024 * 1024 + 7, 12_345_678_901, u64::MAX] {
        let mut wert = bytes as f64;
        let mut index = 0;
        let einheiten = ["B", "KB", "MB", "GB", "TB"];
        while wert >= 1024.0 && index < 4 {
            wert /= 1024.0;
            index += 1;
        }
        let erwartet = if index == 0 { format!("{bytes} B") } else { format!("{wert:.1} {}", einheiten[index]) };
        assert_eq!(format_bytes(bytes), erwartet, "bei {bytes}");
    }
}

#[test]
fn pfadregeln_nach_windows_art() {
    assert!(!path_is_allowed(""));
    assert!(!path_is_allowed("C:\\Users"));
    assert!(path_is_allowed("C:/Users/p"));
    assert!(!path_is_allowed("C:\\Users\\Default\\x\\y"));
    assert!(!path_is_allowed("\\\\server\\share\\x"));
    assert!(path_is_allowed("\\\\server\\share\\x\\y"));
    assert!(!path_is_allowed("C:\\.\\..\\x"));
    assert!(!path_is_allowed("c:\\program files (x86)\\a\\b"));
    assert!(path_is_allowed("D:\\Spiele\\Cache"));
}

#[test]
fn anhaengen_setzt_genau_einen_trenner() {
    assert_eq!(pfad_anhaengen("C:\\a", "b"), "C:\\a\\b");
    assert_eq!(pfad_anhaengen("C:\\a\\", "b"), "C:\\a\\b");
    assert_eq!(pfad_anhaengen("C:/a/", "b"), "C:/a/b");
    // Leere Basis und reines Laufwerk bekommen keinen Trenner.
    assert_eq!(pfad_anhaengen("", "b"), "b");
    assert_eq!(pfad_anhaengen("C:", "b"), "C:b");
    assert_eq!(pfad_anhaengen("1:", "b"), "1:\\b");
}

#[test]
fn shell_ordner_liegen_im_benutzerprofil() {
    assert_eq!(known_folder("DOWNLOADS", Some("C:\\Users\\p")), Some("C:\\Users\\p\\Downloads".to_string()));
    assert_eq!(known_folder("desktop", Some("C:\\Users\\p\\")), Some("C:\\Users\\p\\Desktop".to_string()));
    assert_eq!(known_folder("Documents", Some("C:\\Users\\p")), Some("C:\\Users\\p\\Documents".to_string()));
    assert_eq!(known_folder("TEMP", Some("C:\\Users\\p")), None);
    assert_eq!(known_folder("DOWNLOADS", None), None);
}

#[test]
fn windows_trenner_ersetzen_vorwaertsschraegstriche() {
    assert_eq!(mit_windows_trennern("C:/Users/p/AppData/*"), "C:\\Users\\p\\AppData\\*");
}

#[test]
fn praefixe_zaehlen_wie_unter_windows() {
    // Server und Freigabe eines wörtlichen UNC-Pfads gehören zum Präfix.
    assert!(!path_is_allowed(r"\\?\UNC\s\h\a"));
    assert!(path_is_allowed(r"\\?\UNC\s\h\a\b"));
    assert!(!path_is_allowed(r"\\server\share\a"));
    assert!(path_is_allowed(r"\\server\share\a\b"));
    // `\\` mit leerem Server ist kein Präfix.
    assert!(path_is_allowed(r"\\\share\x"));
    assert!(!path_is_allowed(r"\\\share"));
    assert!(!path_is_allowed(r"\\.\COM1\a"));
    assert!(path_is_allowed(r"\\?\C:\Users\p\x.tmp"));
    assert!(!path_is_allowed(r"\\?\C:\Users"));
    // In wörtlichen Pfaden trennt `/` nicht.
    assert!(!path_is_allowed(r"\\?\C:\a/b"));
}

#[test]
fn entfernen_wird_geplant_und_geschuetzte_pfade_abgelehnt() {
    assert_eq!(entfernen_planen(r"C:\Windows", false), Entfernung::Abgelehnt);
    assert_eq!(entfernen_planen(r"C:\Windows\System32\x.dll", true), Entfernung::Abgelehnt);
    assert_eq!(entfernen_planen(r"C:\Windows\Temp\x.tmp", true), Entfernung::NurMessen);
    assert_eq!(entfernen_planen(r"C:\Windows\Temp\x.tmp", false), Entfernung::Loeschen);
    assert_eq!(abgelehnt_meldung(r"C:\"), "Aus Sicherheitsgründen abgelehnt: C:\\".to_string());
}
