use plane::cli::stil::{Stil, AKZENT, FEHLER, RESET};
use plane::cli::text::{
    kategoriename, kuerzen, meldung, meldungen, risikohinweis, risikoname, risikosymbol, statuszeichen,
    zielbeschreibung, zielmerkmale, zielname,
};
use plane::engine::catalog::target_by_key;
use plane::engine::types::{Category, Risk};

#[test]
fn farbe_nur_im_terminal_ohne_gegenteilige_wuensche() {
    assert!(Stil::neu(false, false, true).ist_farbig());
    assert!(!Stil::neu(true, false, true).ist_farbig());
    assert!(!Stil::neu(false, true, true).ist_farbig());
    assert!(!Stil::neu(false, false, false).ist_farbig());
}

#[test]
fn ohne_farbe_bleibt_der_text_unveraendert() {
    let stil = Stil::schlicht();
    assert_eq!(stil.akzent("Plane"), "Plane");
    assert_eq!(stil.fehler("Fehler"), "Fehler");
    assert_eq!(stil.ueberschrift("Titel"), "Titel");
}

#[test]
fn mit_farbe_wird_der_text_eingerahmt_und_zurueckgesetzt() {
    let stil = Stil::neu(false, false, true);
    let text = stil.akzent("Plane");
    assert!(text.starts_with(AKZENT));
    assert!(text.ends_with(RESET));
    assert!(text.contains("Plane"));
}

#[test]
fn fehlerfarbe_rahmt_exakt_ein() {
    let stil = Stil::neu(false, false, true);
    assert_eq!(stil.fehler("x"), format!("{FEHLER}x{RESET}"));
    assert_eq!(Stil::schlicht().gedaempft("y"), "y");
    assert_eq!(Stil::schlicht().warnung("z"), "z");
}

#[test]
fn meldung_ohne_argument_wird_uebersetzt() {
    let text = meldung("de", "skip.needs_admin");
    assert!(text.contains("Administratorrechte"));
    assert_ne!(text, "skip.needs_admin");
}

#[test]
fn meldung_mit_argument_setzt_den_platzhalter_ein() {
    let text = meldung("de", "warn.process_running|chrome.exe");
    assert!(text.starts_with("chrome.exe"));
    assert!(!text.contains("{0}"));
}

#[test]
fn meldung_mit_mehreren_argumenten_fuellt_alle_platzhalter() {
    let text = meldung("en", "clean.summary|1.2 GB|42");
    assert_eq!(text, "1.2 GB freed, 42 items removed");
}

#[test]
fn leere_meldung_bleibt_leer() {
    assert_eq!(meldung("de", ""), "");
    assert_eq!(meldung("de", "   "), "");
}

#[test]
fn unbekannter_meldungsschluessel_bleibt_sichtbar() {
    assert_eq!(meldung("de", "gibt.es.nicht"), "gibt.es.nicht");
}

#[test]
fn meldungsliste_filtert_leere_eintraege() {
    let liste = vec![String::new(), "skip.needs_admin".to_string()];
    assert_eq!(meldungen("de", &liste).len(), 1);
}

#[test]
fn sprachumschaltung_aendert_den_text() {
    let de = meldung("de", "skip.needs_admin");
    let en = meldung("en", "skip.needs_admin");
    assert_ne!(de, en);
    assert!(en.contains("administrator"));
}

#[test]
fn zielname_nutzt_den_katalogschluessel() {
    assert_eq!(zielname("de", "system.temp.user"), "Temporäre Dateien".to_string());
}

#[test]
fn risikosymbole_sind_paarweise_verschieden() {
    assert_ne!(risikosymbol(Risk::Safe), risikosymbol(Risk::Notice));
    assert_ne!(risikosymbol(Risk::Notice), risikosymbol(Risk::Caution));
}

#[test]
fn statuszeichen_unterscheidet_die_drei_faelle() {
    assert_eq!(statuszeichen(true, false), "+");
    assert_eq!(statuszeichen(false, false), "x");
    assert_eq!(statuszeichen(true, true), "-");
}

#[test]
fn kuerzen_laesst_kurze_texte_unberuehrt() {
    assert_eq!(kuerzen("abc", 5), "abc");
    assert_eq!(kuerzen("abcde", 5), "abcde");
}

#[test]
fn kuerzen_haengt_auslassungszeichen_an() {
    assert_eq!(kuerzen("abcdef", 4), "abc…");
    assert_eq!(kuerzen("abc", 1), "…");
    assert_eq!(kuerzen("abc", 0), "");
}

#[test]
fn kuerzen_zerschneidet_keine_umlaute() {
    let gekuerzt = kuerzen("Temporäre Dateien", 6);
    assert_eq!(gekuerzt.chars().count(), 6);
    assert!(gekuerzt.starts_with("Tempo"));
}

#[test]
fn anzeigenamen_kommen_aus_dem_katalog() {
    assert_eq!(zielbeschreibung("de", "gibt.es"), "target.gibt.es.description");
    assert_ne!(kategoriename("de", Category::System), "category.system");
    assert_ne!(risikoname("en", Risk::Caution), "risk.caution");
    assert_ne!(risikohinweis("en", Risk::Safe), "risk.safe.hint");
}

#[test]
fn merkmale_nennen_adminrechte_und_vorschlag() {
    let admin = target_by_key("system.windowsold").unwrap();
    assert_eq!(zielmerkmale("en", &admin).len(), 1);
    let vorschlag = target_by_key("installers.downloads").unwrap();
    assert_eq!(zielmerkmale("en", &vorschlag).len(), 1);
    let keins = target_by_key("system.temp.user").unwrap();
    assert!(zielmerkmale("en", &keins).is_empty());
}
