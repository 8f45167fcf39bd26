use plane::engine::icons::{abmessungen_plausibel, ganzzahl_lesen, hole, rgba_symbol, zerlege};

#[test]
fn pfad_und_index_werden_getrennt() {
    assert_eq!(zerlege(r"C:\Programme\App\app.exe,0"), Some((r"C:\Programme\App\app.exe".into(), 0)));
    assert_eq!(
        zerlege(r"C:\Windows\System32\shell32.dll,-16"),
        Some((r"C:\Windows\System32\shell32.dll".into(), -16))
    );
}

#[test]
fn ohne_index_gilt_null() {
    assert_eq!(zerlege(r"C:\Programme\App\icon.ico"), Some((r"C:\Programme\App\icon.ico".into(), 0)));
}

#[test]
fn anfuehrungszeichen_verschwinden() {
    assert_eq!(
        zerlege(r#""C:\Programme\Mit Leerzeichen\app.exe",1"#),
        Some((r"C:\Programme\Mit Leerzeichen\app.exe".into(), 1))
    );
}

#[test]
fn komma_im_dateinamen_wird_nicht_als_index_gelesen() {
    assert_eq!(zerlege(r"C:\Programme\Firma, Inc\app.exe"), Some((r"C:\Programme\Firma, Inc\app.exe".into(), 0)));
}

#[test]
fn leere_angabe_ergibt_nichts() {
    assert_eq!(zerlege(""), None);
    assert_eq!(zerlege("   "), None);
}

#[test]
fn fehlende_datei_liefert_kein_symbol() {
    assert_eq!(hole(r"C:\gibt\es\nicht\app.exe,0"), None);
}

#[test]
fn ganze_zahlen_wie_from_str() {
    for text in ["0", "-16", "+7", "2147483647", "-2147483648", "2147483648", "-", "", "1a", " 1", "007"] {
        let zeichen: Vec<char> = text.chars().collect();
        assert_eq!(ganzzahl_lesen(&zeichen), text.parse::<i32>().ok(), "{text}");
    }
}

#[test]
fn bildpunkte_werden_nach_rgba_gewandelt() {
    // Ohne Alphakanal wird jeder Punkt deckend.
    let symbol = rgba_symbol(1, 1, vec![1, 2, 3, 0]);
    assert_eq!((symbol.width, symbol.height), (1, 1));
    assert_eq!(symbol.rgba, "AwIB/w==");
    // Mit Alphakanal bleibt er, wie er ist.
    let halb = rgba_symbol(2, 1, vec![10, 20, 30, 128, 40, 50, 60, 0]);
    assert_eq!(halb.rgba, "HhQKgDwyKAA=");
    assert!(abmessungen_plausibel(32, 32));
    assert!(!abmessungen_plausibel(0, 32));
    assert!(!abmessungen_plausibel(513, 32));
}
