use plane::engine::runtime::is_admin;
use plane::engine::tweaks::{
    anwenden, entspricht, journal_ergaenzen, journal_path, statushinweis, zustandsname, letzter_eintrag, lies_snapshot, status_aller,
    status_fuer, tweak_by_key, tweaks, windows11_aus, zuruecknehmen_planen, zustand_aus,
    JournalEntry, RegData, RegValue, Snapshot, TweakGroup, TweakState,
};

#[test]
fn tweaks_schluessel_sind_eindeutig() {
    let mut gesehen: Vec<&str> = Vec::new();
    for tweak in tweaks() {
        assert!(!gesehen.contains(&tweak.key), "doppelt: {}", tweak.key);
        gesehen.push(tweak.key);
    }
}

#[test]
fn jeder_tweak_aendert_etwas() {
    for tweak in tweaks() {
        assert!(!tweak.values.is_empty(), "{} ist wirkungslos", tweak.key);
        for wert in &tweak.values {
            assert_ne!(wert.on, wert.off, "{}: an und aus gleich", tweak.key);
            assert!(
                wert.hive == "HKCU" || wert.hive == "HKLM",
                "{}: unbekannte Wurzel {}",
                tweak.key,
                wert.hive
            );
        }
    }
}

#[test]
fn gefaehrliche_bereiche_werden_nicht_angefasst() {
    // Diese Bereiche haben dokumentiert Systeme beschädigt.
    const VERBOTEN: &[&str] = &["WindowsUpdate", "Windows Defender", "Services", "BitLocker", "Winlogon"];
    for tweak in tweaks() {
        for wert in &tweak.values {
            for verboten in VERBOTEN {
                assert!(!wert.path.contains(verboten), "{} fasst {verboten} an", tweak.key);
            }
        }
    }
}

#[test]
fn hklm_tweaks_verlangen_adminrechte() {
    for tweak in tweaks() {
        if tweak.values.iter().any(|w| w.hive == "HKLM") {
            assert!(tweak.requires_admin, "{} schreibt nach HKLM ohne requires_admin", tweak.key);
        }
    }
}

#[test]
fn hkcu_tweaks_brauchen_keine_adminrechte() {
    for tweak in tweaks() {
        if tweak.values.iter().all(|w| w.hive == "HKCU") {
            assert!(
                !tweak.requires_admin,
                "{} schreibt nur nach HKCU, verlangt aber Adminrechte",
                tweak.key
            );
        }
    }
}

#[test]
fn jede_gruppe_hat_tweaks() {
    for gruppe in TweakGroup::ALL {
        assert!(tweaks().iter().any(|t| t.group == gruppe), "Gruppe {} ist leer", gruppe.key());
    }
}

#[test]
fn tweak_by_key_ignoriert_gross_klein() {
    assert!(tweak_by_key("  TASKBAR.ALIGN_LEFT ").is_some());
    assert!(tweak_by_key("gibtesnicht").is_none());
}

#[test]
fn status_deckt_alle_tweaks_ab() {
    let status = status_aller();
    assert_eq!(status.len(), tweaks().len());
    for eintrag in &status {
        assert!(tweak_by_key(&eintrag.key).is_some());
    }
}

#[test]
fn windows11_tweaks_sind_auf_win10_als_nicht_unterstuetzt_markiert() {
    let status = status_aller();
    for eintrag in &status {
        let tweak = tweak_by_key(&eintrag.key).unwrap();
        if !tweak.windows11_only {
            assert!(!eintrag.unsupported, "{} fälschlich gesperrt", tweak.key);
        }
    }
}

#[test]
fn letzter_eintrag_ist_der_juengste() {
    let journal = vec![
        JournalEntry { tweak: "a".into(), timestamp: 100, enabled: true, before: Vec::new() },
        JournalEntry { tweak: "a".into(), timestamp: 300, enabled: false, before: Vec::new() },
        JournalEntry { tweak: "b".into(), timestamp: 500, enabled: true, before: Vec::new() },
    ];
    assert_eq!(letzter_eintrag(&journal, "a").unwrap().timestamp, 300);
    assert_eq!(letzter_eintrag(&journal, "b").unwrap().timestamp, 500);
    assert!(letzter_eintrag(&journal, "c").is_none());
}

#[test]
fn snapshot_haelt_den_nicht_vorhandenen_zustand_fest() {
    // Ein Wert, den es vorher nicht gab, muss beim Zurücknehmen wieder
    // verschwinden – nicht auf einen angenommenen Standard gesetzt werden.
    let wert = RegValue {
        hive: "HKCU",
        path: r"Software\PlaneGibtEsNicht12345",
        name: "Test",
        on: RegData::Dword(1),
        off: RegData::Absent,
    };
    let schnappschuss = lies_snapshot(&wert);
    assert!(!schnappschuss.existed);
    assert_eq!(schnappschuss.dword, None);
}

#[test]
fn unbekannter_tweak_wird_abgelehnt() {
    assert!(anwenden("gibtesnicht", true, "").is_err());
    assert!(zuruecknehmen_planen("gibtesnicht", Vec::new(), false).is_err());
}

#[test]
fn zuruecknehmen_ohne_journal_meldet_das() {
    // Ein Tweak ohne Adminrechte, damit der Test nicht an der
    // Rechteprüfung hängenbleibt.
    let fehler = zuruecknehmen_planen("explorer.file_extensions", Vec::new(), is_admin()).unwrap_err();
    assert_eq!(fehler, "tweak.no_journal");
}

#[test]
fn adminpflichtige_tweaks_scheitern_ohne_rechte() {
    if is_admin() {
        return;
    }
    let fehler = anwenden("system.long_paths", true, "").unwrap_err();
    assert_eq!(fehler, "tweak.needs_admin");
}

#[test]
fn gruppen_haben_stabile_schluessel() {
    assert_eq!(TweakGroup::Privacy.key(), "privacy");
    assert_eq!(TweakGroup::Taskbar.i18n_key(), "tweakgroup.taskbar");
}

// ---------------------------------------------------------------------------
// Weitere Fälle
// ---------------------------------------------------------------------------

fn schnappschuss(existed: bool, dword: Option<u32>, text: Option<&str>) -> Snapshot {
    Snapshot {
        hive: "HKCU".into(),
        path: "Software\\Test".into(),
        name: "Wert".into(),
        existed,
        value_type: if dword.is_some() { 4 } else { 1 },
        dword,
        text: text.map(|t| t.to_string()),
    }
}

#[test]
fn vergleich_ist_typgenau() {
    assert!(entspricht(&schnappschuss(true, Some(0), None), RegData::Dword(0)));
    assert!(!entspricht(&schnappschuss(true, None, Some("0")), RegData::Dword(0)));
    assert!(entspricht(&schnappschuss(true, None, Some("")), RegData::Text("")));
    assert!(entspricht(&schnappschuss(false, None, None), RegData::Absent));
    assert!(!entspricht(&schnappschuss(true, Some(1), None), RegData::Absent));
}

#[test]
fn zustand_folgt_den_werten() {
    let tweak = tweak_by_key("privacy.feedback").unwrap();
    assert_eq!(zustand_aus(&tweak, &vec![schnappschuss(true, Some(0), None)]), TweakState::On);
    assert_eq!(zustand_aus(&tweak, &vec![schnappschuss(false, None, None)]), TweakState::Off);
    let tweak = tweak_by_key("explorer.hidden_files").unwrap();
    assert_eq!(zustand_aus(&tweak, &vec![schnappschuss(true, Some(7), None)]), TweakState::Mixed);
    assert_eq!(zustand_aus(&tweak, &vec![schnappschuss(true, Some(2), None)]), TweakState::Off);
}

#[test]
fn windows11_nur_ab_build_22000() {
    assert!(windows11_aus(Some("22631".into())));
    assert!(windows11_aus(Some("10.0.22000".into())));
    assert!(!windows11_aus(Some("20348".into())));
    assert!(!windows11_aus(Some("6.8.0-48-generic".into())));
    assert!(!windows11_aus(None));
    let status = status_fuer(false);
    let klassisch = status.iter().find(|s| s.key == "explorer.classic_menu").unwrap();
    assert!(klassisch.unsupported);
    assert!(status_fuer(true).iter().all(|s| !s.unsupported));
}

#[test]
fn journal_behaelt_hoechstens_fuenfhundert() {
    let mut journal: Vec<JournalEntry> = Vec::new();
    for zeit in 0..501u64 {
        journal_ergaenzen(
            &mut journal,
            JournalEntry { tweak: "a".into(), timestamp: zeit, enabled: true, before: Vec::new() },
        );
    }
    assert_eq!(journal.len(), 500);
    assert_eq!(journal[0].timestamp, 1);
    assert_eq!(journal[499].timestamp, 500);
}

#[test]
fn zuruecknehmen_verbraucht_den_juengsten_eintrag() {
    let journal = vec![
        JournalEntry { tweak: "privacy.feedback".into(), timestamp: 100, enabled: true, before: Vec::new() },
        JournalEntry { tweak: "privacy.feedback".into(), timestamp: 300, enabled: false, before: Vec::new() },
        JournalEntry { tweak: "explorer.file_extensions".into(), timestamp: 500, enabled: true, before: Vec::new() },
    ];
    let (eintrag, rest) = zuruecknehmen_planen(" Privacy.Feedback", journal, false).unwrap();
    assert_eq!(eintrag.timestamp, 300);
    assert!(!eintrag.enabled);
    assert_eq!(rest.len(), 2);
    assert_eq!(rest[0].timestamp, 100);
    assert_eq!(rest[1].timestamp, 500);
}

#[test]
fn namen_der_tweaks() {
    let t = tweak_by_key("system.long_paths").unwrap();
    assert_eq!(t.i18n_name(), "tweak.system.long_paths.name");
    assert_eq!(t.i18n_description(), "tweak.system.long_paths.description");
    assert_eq!(t.i18n_effect(), "tweak.system.long_paths.effect");
    assert!(t.requires_admin);
}

#[test]
fn journal_liegt_im_konfigurationsverzeichnis() {
    assert_eq!(journal_path("C:\\cfg"), "C:\\cfg\\tweaks.json");
}

#[test]
fn zustaende_werden_wie_dokumentiert_benannt() {
    assert_eq!(zustandsname(TweakState::On), "Aktiv");
    assert_eq!(zustandsname(TweakState::Off), "Inaktiv");
    assert_eq!(zustandsname(TweakState::Mixed), "Teilweise");
}

#[test]
fn hinweise_nennen_wirkungslose_und_ueberlagerte_punkte() {
    let mut s = status_fuer(false).remove(0);
    s.unsupported = false;
    s.managed = false;
    assert_eq!(statushinweis(&s), "");
    s.unsupported = true;
    assert_eq!(statushinweis(&s), "wirkungslos auf diesem System");
    s.managed = true;
    assert_eq!(statushinweis(&s), "wirkungslos auf diesem System, von einer Richtlinie überlagert");
    s.unsupported = false;
    assert_eq!(statushinweis(&s), "von einer Richtlinie überlagert");
}
