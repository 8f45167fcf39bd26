use plane::cli::progress::ueberschreibend;
use plane::cli::run::{
    antwort_entscheiden, antwort_ist_ja, fortschritt_erlaubt, rueckfrage, terminalbreite, Ausgabe, Umgebung,
    RUECKFRAGE_UNMOEGLICH,
};

fn umgebung(terminal: bool) -> Umgebung {
    Umgebung { no_color_env: false, stdout_terminal: terminal, stdin_terminal: terminal, breite: 80 }
}

#[test]
fn zustimmung_akzeptiert_das_sprachkuerzel() {
    assert!(antwort_ist_ja("de", "j"));
    assert!(antwort_ist_ja("de", "ja\n"));
    assert!(antwort_ist_ja("en", "y"));
    assert!(antwort_ist_ja("en", " YES \r\n"));
}

#[test]
fn leere_eingabe_bedeutet_nein() {
    assert!(!antwort_ist_ja("de", ""));
    assert!(!antwort_ist_ja("de", "\n"));
    assert!(!antwort_ist_ja("de", "   "));
}

#[test]
fn alles_andere_bedeutet_nein() {
    assert!(!antwort_ist_ja("de", "n"));
    assert!(!antwort_ist_ja("de", "nein"));
    assert!(!antwort_ist_ja("de", "vielleicht"));
}

#[test]
fn json_ausgabe_ist_nie_farbig() {
    // Selbst in einem Terminal ohne NO_COLOR.
    let a = Ausgabe::neu("de".into(), false, true, umgebung(true));
    assert!(!a.stil.ist_farbig());
    assert!(!a.interaktiv);
}

#[test]
fn ueberschreibende_zeile_fuellt_auf_die_breite_auf() {
    let ausgabe = ueberschreibend("abc", 6);
    assert_eq!(ausgabe, "\rabc   ");
    assert_eq!(ueberschreibend("abcdef", 3), "\rabcdef");
}

#[test]
fn terminal_ohne_wuensche_ist_farbig_und_interaktiv() {
    let a = Ausgabe::neu("en".into(), false, false, umgebung(true));
    assert!(a.stil.ist_farbig());
    assert!(a.interaktiv);
    assert_eq!(a.breite, 80);
    let pipe = Ausgabe::neu("en".into(), false, false, umgebung(false));
    assert!(!pipe.stil.ist_farbig() && !pipe.interaktiv);
}

#[test]
fn terminalbreite_bleibt_in_sinnvollen_grenzen() {
    assert_eq!(terminalbreite(None), 100);
    assert_eq!(terminalbreite(Some(10)), 40);
    assert_eq!(terminalbreite(Some(500)), 200);
    assert_eq!(terminalbreite(Some(120)), 120);
}

#[test]
fn kleinschreibung_gilt_fuer_eingabe_und_kuerzel() {
    assert!(antwort_ist_ja("de", "JA"));
    assert!(antwort_ist_ja("DE", "J"));
    assert!(antwort_entscheiden("ja", "x"));
    assert!(antwort_entscheiden("x", "x"));
    assert!(!antwort_entscheiden("", ""));
    assert!(!antwort_entscheiden("JA", "j"));
}

#[test]
fn json_unterdrueckt_die_fortschrittszeile() {
    // Auch in einem Terminal darf JSON nie durch \r-Zeilen verschmutzt werden.
    let a = Ausgabe::neu("de".into(), false, true, umgebung(true));
    assert!(!fortschritt_erlaubt(&a, true));
    let b = Ausgabe::neu("de".into(), false, false, umgebung(true));
    assert!(fortschritt_erlaubt(&b, true));
    assert!(!fortschritt_erlaubt(&b, false));
}

#[test]
fn ohne_konsole_wird_nicht_auf_eine_antwort_gewartet() {
    let interaktiv = Ausgabe::neu("de".to_string(), false, false, umgebung(true));
    let pipeline = Ausgabe::neu("de".to_string(), false, false, umgebung(false));
    let json = Ausgabe::neu("de".to_string(), false, true, umgebung(true));
    assert!(rueckfrage(&interaktiv, false).unwrap());
    assert!(!rueckfrage(&interaktiv, true).unwrap());
    assert!(!rueckfrage(&json, false).unwrap());
    assert!(!rueckfrage(&pipeline, true).unwrap());
    let fehler = rueckfrage(&pipeline, false).unwrap_err();
    assert_eq!(fehler.0, RUECKFRAGE_UNMOEGLICH);
}
