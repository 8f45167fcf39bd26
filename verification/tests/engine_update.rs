use plane::engine::update::{
    abfragefehler, deute, deute_felder, eigene_version, oeffne_seite, seite, user_agent, Version, API, REPO, SEITE,
};

#[test]
fn versionen_werden_in_allen_ueblichen_schreibweisen_gelesen() {
    assert_eq!(Version::parse("v1.2.3"), Some(Version(1, 2, 3)));
    assert_eq!(Version::parse("1.2.3"), Some(Version(1, 2, 3)));
    assert_eq!(Version::parse("V0.2.0"), Some(Version(0, 2, 0)));
    assert_eq!(Version::parse(" 1.2.3 "), Some(Version(1, 2, 3)));
    assert_eq!(Version::parse("1.2"), Some(Version(1, 2, 0)));
    assert_eq!(Version::parse("2"), Some(Version(2, 0, 0)));
}

#[test]
fn vorabkennung_wird_abgeschnitten() {
    assert_eq!(Version::parse("v1.2.3-beta.1"), Some(Version(1, 2, 3)));
    assert_eq!(Version::parse("1.2.3+build7"), Some(Version(1, 2, 3)));
}

#[test]
fn unsinn_ergibt_keine_version() {
    assert_eq!(Version::parse(""), None);
    assert_eq!(Version::parse("nightly"), None);
    assert_eq!(Version::parse("v.x.y"), None);
}

#[test]
fn zehn_ist_groesser_als_neun() {
    let neu = Version::parse("0.10.0").unwrap();
    let alt = Version::parse("0.9.0").unwrap();
    assert!(neu > alt);
    assert!(neu.ist_neuer_als(&alt));
    assert!("0.10.0" < "0.9.0", "Annahme des Tests stimmt nicht mehr");
}

#[test]
fn gleiche_version_ist_nicht_neuer() {
    let a = Version::parse("1.0.0").unwrap();
    assert!(!(a > a));
    assert!(!a.ist_neuer_als(&a));
}

#[test]
fn die_abfrage_geht_ausschliesslich_an_github() {
    assert!(API.starts_with("https://api.github.com/"));
    assert!(SEITE.starts_with("https://github.com/"));
    assert!(API.contains(REPO));
    assert_eq!(seite(), SEITE);
}

#[test]
fn neuere_veroeffentlichung_wird_erkannt() {
    let roh = r#"{"tag_name":"v99.0.0","published_at":"2030-01-02T03:04:05Z"}"#;
    let info = deute(roh).unwrap();
    assert_eq!(info.latest, "99.0.0");
    assert!(info.newer);
    assert_eq!(info.published, "2030-01-02");
    assert_eq!(info.current, Version::parse(eigene_version()).unwrap().anzeige());
}

#[test]
fn aeltere_veroeffentlichung_loest_keine_meldung_aus() {
    let info = deute(r#"{"tag_name":"v0.0.1"}"#).unwrap();
    assert!(!info.newer);
    assert_eq!(info.published, "");
}

#[test]
fn eigene_version_meldet_sich_nicht_selbst_als_neuer() {
    let roh = format!(r#"{{"tag_name":"v{}"}}"#, eigene_version());
    assert!(!deute(&roh).unwrap().newer);
}

#[test]
fn adresse_stammt_nicht_aus_der_antwort() {
    let roh = r#"{"tag_name":"v9.9.9","html_url":"https://example.invalid/boes"}"#;
    let info = deute(roh).unwrap();
    assert_eq!(info.url, SEITE);
    assert!(info.url.starts_with("https://github.com/"));
}

#[test]
fn fehlerhafte_antworten_ergeben_uebersetzbare_schluessel() {
    assert_eq!(deute("kein json"), Err("update.error.unreadable".into()));
    assert_eq!(deute("{}"), Err("update.error.none_published".into()));
    assert_eq!(deute(r#"{"tag_name":"nightly"}"#), Err("update.error.unreadable".into()));
    assert_eq!(deute(r#"{"tag_name":7}"#), Err("update.error.none_published".into()));
}

#[test]
fn gelesene_felder_werden_ausgewertet() {
    assert_eq!(deute_felder(None), Err("update.error.unreadable".into()));
    assert_eq!(deute_felder(Some((None, Some("x".into())))), Err("update.error.none_published".into()));
    let info = deute_felder(Some((Some("2.0".into()), Some("2031-05-06".into())))).unwrap();
    assert_eq!(info.latest, "2.0.0");
    assert_eq!(info.current, "0.2.0");
    assert_eq!(info.published, "2031-05-06");
    assert!(info.newer);
}

#[test]
fn anzeige_und_lesen_passen_zusammen() {
    for v in [Version(0, 0, 0), Version(1, 22, 333), Version(4294967295, 7, 10)] {
        assert_eq!(Version::parse(&v.anzeige()), Some(v));
    }
    assert_eq!(Version::parse("4294967296"), None);
    assert_eq!(Version::parse("1.2.3.4"), Some(Version(1, 2, 3)));
    assert_eq!(Version::parse("vv1..2"), None);
    assert_eq!(oeffne_seite(), Err("update.error.browser".into()));
}

#[test]
fn abfragefehler_werden_als_schluessel_gemeldet() {
    assert_eq!(abfragefehler(Some(404), false), "update.error.none_published");
    assert_eq!(abfragefehler(Some(403), false), "update.error.rate_limit");
    assert_eq!(abfragefehler(Some(429), true), "update.error.rate_limit");
    assert_eq!(abfragefehler(Some(500), false), "update.error.offline");
    assert_eq!(abfragefehler(None, true), "update.error.timeout");
    assert_eq!(abfragefehler(None, false), "update.error.offline");
}

#[test]
fn mitgeschickt_wird_nur_der_user_agent() {
    assert_eq!(user_agent(), "plane/0.2.0");
}
