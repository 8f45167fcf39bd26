use plane::engine::catalog::{target_by_key, targets};
use plane::engine::types::Category;
use plane::i18n::{catalog, is_supported, normalize, t, ENTRIES, FALLBACK, LANGUAGES};

fn nachschlagen(liste: &[(String, String)], key: &str) -> String {
    liste.iter().find(|(k, _)| k == key).map(|(_, v)| v.clone()).unwrap()
}

#[test]
fn i18n_schluessel_sind_eindeutig() {
    let mut gesehen: Vec<&str> = Vec::new();
    for (key, _, _) in ENTRIES {
        assert!(!gesehen.contains(&key), "Doppelter Schlüssel: {key}");
        gesehen.push(key);
    }
}

#[test]
fn kein_text_ist_leer() {
    for (key, de, en) in ENTRIES {
        assert!(!de.trim().is_empty(), "Deutsch fehlt: {key}");
        assert!(!en.trim().is_empty(), "Englisch fehlt: {key}");
    }
}

#[test]
fn jedes_reinigungsziel_ist_uebersetzt() {
    for target in targets() {
        for schluessel in [target.i18n_name(), target.i18n_description()] {
            assert_ne!(t("de", &schluessel), schluessel, "Deutsche Übersetzung fehlt: {schluessel}");
            assert_ne!(t("en", &schluessel), schluessel, "Englische Übersetzung fehlt: {schluessel}");
        }
    }
}

#[test]
fn jede_kategorie_ist_uebersetzt() {
    for kategorie in Category::ALL {
        let key = kategorie.i18n_key();
        assert_ne!(t("de", &key), key);
        assert_ne!(t("en", &key), key);
    }
}

#[test]
fn keine_verwaisten_zieluebersetzungen() {
    for (key, _, _) in ENTRIES {
        let Some(rest) = key.strip_prefix("target.") else {
            continue;
        };
        let ziel_key = rest
            .strip_suffix(".name")
            .or_else(|| rest.strip_suffix(".description"))
            .unwrap_or(rest);
        assert!(target_by_key(ziel_key).is_some(), "Übersetzung ohne Ziel: {key}");
    }
}

#[test]
fn deutsch_und_englisch_unterscheiden_sich_meistens() {
    let gleich = ENTRIES.iter().filter(|(_, de, en)| de == en).count();
    assert!(gleich * 4 < ENTRIES.len(), "Verdächtig viele unübersetzte Einträge: {gleich} von {}", ENTRIES.len());
}

#[test]
fn unbekannter_schluessel_gibt_sich_selbst_zurueck() {
    assert_eq!(t("de", "gibt.es.nicht"), "gibt.es.nicht");
}

#[test]
fn unbekannte_sprache_faellt_auf_englisch_zurueck() {
    assert_eq!(t("fr", "nav.settings"), t("en", "nav.settings"));
}

#[test]
fn deutsch_nutzt_echte_umlaute() {
    const UMLAUTE: [char; 7] = ['ä', 'ö', 'ü', 'ß', 'Ä', 'Ö', 'Ü'];
    assert!(t("de", "nav.dashboard").contains(UMLAUTE), "erwartet einen Umlaut in: {}", t("de", "nav.dashboard"));
    assert!(t("de", "settings.title").contains("Einstellungen"));
    let mit_umlauten = ENTRIES.iter().filter(|(_, de, _)| de.contains(['ä', 'ö', 'ü', 'ß', 'Ä', 'Ö', 'Ü'])).count();
    assert!(mit_umlauten > 30, "nur {mit_umlauten} Texte mit Umlauten");
}

#[test]
fn platzhalter_werden_ersetzt() {
    assert_eq!(plane::i18n::format("de", "home.selected_size", &["1,2 GB"]), "1,2 GB ausgewählt");
    assert_eq!(plane::i18n::format("en", "home.found_total", &["3 GB", "42"]), "3 GB found across 42 items");
}

#[test]
fn platzhalter_ohne_argumente_bleiben_stehen() {
    assert!(plane::i18n::format("de", "home.selected_size", &[]).contains("{0}"));
}

#[test]
fn katalog_enthaelt_alle_eintraege() {
    let de = catalog("de");
    assert_eq!(de.len(), ENTRIES.len());
    assert_eq!(catalog("en").len(), ENTRIES.len());
    assert_ne!(nachschlagen(&de, "nav.settings"), nachschlagen(&catalog("en"), "nav.settings"));
}

#[test]
fn sprachen_werden_normalisiert() {
    assert_eq!(normalize("de-DE"), "de");
    assert_eq!(normalize("de_AT"), "de");
    assert_eq!(normalize("DE"), "de");
    assert_eq!(normalize("en-GB"), "en");
    assert_eq!(normalize("fr-FR"), FALLBACK);
    assert_eq!(normalize(""), FALLBACK);
}

#[test]
fn unterstuetzte_sprachen_sind_abfragbar() {
    assert!(is_supported("de"));
    assert!(is_supported("EN"));
    assert!(!is_supported("fr"));
    assert_eq!(LANGUAGES.len(), 2);
}

#[test]
fn platzhalter_sind_in_beiden_sprachen_gleich() {
    for (key, de, en) in ENTRIES {
        for index in 0..3 {
            let muster = format!("{{{index}}}");
            assert_eq!(de.contains(&muster), en.contains(&muster), "Platzhalter {muster} fehlt in einer Sprache: {key}");
        }
    }
}

#[test]
fn uebersetzung_liefert_den_katalogtext() {
    assert_eq!(t("de", "settings.title").contains("Einstellungen"), true);
    assert_eq!(t("DE", "home.selected_size"), "{0} ausgewählt");
    assert_eq!(nachschlagen(&catalog("de"), "home.selected_size"), "{0} ausgewählt");
}

#[test]
fn katalogtexte_sind_die_uebersetzungen_ihrer_schluessel() {
    for lang in ["de", "en", "fr"] {
        let katalog = catalog(lang);
        for (schluessel, wert) in &katalog {
            assert_eq!(wert, &t(lang, schluessel));
        }
        let mut schluessel: Vec<&String> = katalog.iter().map(|(k, _)| k).collect();
        schluessel.sort();
        schluessel.dedup();
        assert_eq!(schluessel.len(), katalog.len());
    }
}
