use plane::engine::uninstall::{
    befehl_waehlen, deinstallation_auswerten, deinstalliere, deute_exitcode, eintrag_deuten,
    kurzer_herausgeber, liste, msi_argumente, msi_guid, ordnerpfad, programme_filtern, schutzgrund, store_eintrag,
    store_pakete_aus, symbol_waehlen, symbolquelle, zerlege_befehl, Eintragswerte, Ordnereintrag,
    Programm, Quelle,
};

#[test]
fn laufzeitpakete_sind_geschuetzt() {
    for name in [
        "Microsoft Visual C++ 2015-2022 Redistributable (x64)",
        "Microsoft .NET Runtime - 8.0.11 (x64)",
        "Microsoft Edge WebView2 Runtime",
    ] {
        assert!(
            schutzgrund(name, "Microsoft Corporation", Quelle::Machine).is_some(),
            "nicht geschützt: {name}"
        );
    }
}

#[test]
fn sicherheitssoftware_ist_geschuetzt() {
    assert_eq!(
        schutzgrund("Microsoft Defender", "Microsoft", Quelle::Machine),
        Some("uninstall.protected.security")
    );
}

#[test]
fn plane_deinstalliert_sich_nicht_selbst() {
    assert_eq!(
        schutzgrund("Plane", "Philipp Paulik", Quelle::Machine),
        Some("uninstall.protected.self")
    );
}

#[test]
fn treiber_nur_bei_hersteller_und_name() {
    // Beides zusammen: geschützt.
    assert!(schutzgrund("Intel Chipset Device Software", "Intel Corporation", Quelle::Machine).is_some());
    assert!(schutzgrund("NVIDIA Graphics Driver", "NVIDIA Corporation", Quelle::Machine).is_some());

    // Hersteller allein reicht nicht – sonst wäre jedes Intel-Werkzeug
    // gesperrt.
    assert!(
        schutzgrund("Intel Unison", "Intel Corporation", Quelle::Machine).is_none(),
        "gewöhnliche Herstellersoftware darf nicht gesperrt sein"
    );
}

#[test]
fn normale_programme_sind_entfernbar() {
    for name in ["7-Zip 24.09", "Notepad++", "Steam", "Spotify"] {
        assert!(
            schutzgrund(name, "Irgendwer", Quelle::Machine).is_none(),
            "fälschlich gesperrt: {name}"
        );
    }
}

#[test]
fn shell_pakete_sind_geschuetzt() {
    for paket in [
        "Microsoft.WindowsStore",
        "Microsoft.UI.Xaml.2.8",
        "MicrosoftWindows.Client.WebExperience",
    ] {
        assert!(
            schutzgrund(paket, "CN=Microsoft", Quelle::Store).is_some(),
            "nicht geschützt: {paket}"
        );
    }
    assert!(schutzgrund("SpotifyAB.SpotifyMusic", "CN=Spotify", Quelle::Store).is_none());
}

#[test]
fn msi_guid_aus_dem_schluesselnamen() {
    let guid = "{90160000-000F-0000-0000-0000000FF1CE}";
    assert_eq!(msi_guid(guid, "").as_deref(), Some(guid));
}

#[test]
fn msi_guid_aus_der_kommandozeile() {
    let guid = "{90160000-000F-0000-0000-0000000FF1CE}";
    assert_eq!(
        msi_guid("EgalName", &format!("MsiExec.exe /X{guid}")).as_deref(),
        Some(guid)
    );
}

#[test]
fn keine_guid_wo_keine_ist() {
    assert!(msi_guid("7-Zip", r#""C:\P\uninstall.exe" /S"#).is_none());
}

#[test]
fn befehl_mit_anfuehrungszeichen() {
    let (programm, argumente) =
        zerlege_befehl(r#""C:\Program Files\App\unins000.exe" /SILENT"#).unwrap();
    assert_eq!(programm, r"C:\Program Files\App\unins000.exe");
    assert_eq!(argumente, vec!["/SILENT"]);
}

#[test]
fn befehl_ohne_anfuehrungszeichen_mit_leerzeichen_im_pfad() {
    // Der klassische Stolperstein: ein Zerlegen in Wörter würde den Pfad
    // zerreißen.
    let (programm, argumente) =
        zerlege_befehl(r"C:\Program Files\App\uninst.exe -mode silent").unwrap();
    assert_eq!(programm, r"C:\Program Files\App\uninst.exe");
    assert_eq!(argumente, vec!["-mode", "silent"]);
}

#[test]
fn befehl_ohne_argumente() {
    let (programm, argumente) = zerlege_befehl(r"C:\P\unins000.exe").unwrap();
    assert_eq!(programm, r"C:\P\unins000.exe");
    assert!(argumente.is_empty());
}

#[test]
fn leerer_befehl_ergibt_nichts() {
    assert!(zerlege_befehl("").is_none());
    assert!(zerlege_befehl("   ").is_none());
}

#[test]
fn neustartcodes_gelten_als_erfolg() {
    assert!(deute_exitcode(3010).0, "3010 bedeutet Erfolg mit Neustartbedarf");
    assert!(deute_exitcode(3010).1);
    assert!(deute_exitcode(1641).0);
    assert!(deute_exitcode(1641).1);
}

#[test]
fn nicht_installiert_ist_kein_fehler() {
    let (ok, neustart, meldung) = deute_exitcode(1605);
    assert!(ok);
    assert!(!neustart);
    assert_eq!(meldung, "uninstall.not_installed");
}

#[test]
fn abbruch_und_fehler_werden_unterschieden() {
    assert_eq!(deute_exitcode(1602).2, "uninstall.user_cancelled");
    assert_eq!(deute_exitcode(1618).2, "uninstall.installer_busy");
    assert_eq!(deute_exitcode(1625).2, "uninstall.blocked_by_policy");
    assert_eq!(deute_exitcode(1603).2, "uninstall.failed");
    assert!(!deute_exitcode(1603).0);
}

#[test]
fn erfolg_ist_stumm() {
    assert_eq!(deute_exitcode(0), (true, false, ""));
}

#[test]
fn msi_argumente_verhindern_eigenmaechtigen_neustart() {
    let argumente = msi_argumente("{ABC}");
    assert!(argumente.contains(&"/norestart".to_string()));
    assert!(argumente.contains(&"/qn".to_string()));
    assert_eq!(argumente[0], "/x");
}

#[test]
fn quellen_haben_stabile_schluessel() {
    assert_eq!(Quelle::Machine.key(), "machine");
    assert_eq!(Quelle::Store.key(), "store");
}

#[test]
fn liste_liefert_plausible_eintraege() {
    let programme = liste();
    for p in &programme {
        assert!(!p.name.trim().is_empty(), "Eintrag ohne Namen");
        assert!(!p.id.trim().is_empty(), "Eintrag ohne Kennung");
        if !p.removable {
            assert!(!p.protection.is_empty(), "gesperrt ohne Grund: {}", p.name);
        }
    }
}

fn geschuetztes_programm() -> Programm {
    Programm {
        icon: String::new(),
        id: "X".into(),
        name: "Microsoft Visual C++ 2022".into(),
        version: String::new(),
        publisher: String::new(),
        install_date: String::new(),
        size: 0,
        source: Quelle::Machine,
        removable: false,
        protection: "uninstall.protected.runtime".into(),
        quiet: false,
        requires_admin: true,
    }
}

#[test]
fn geschuetzte_eintraege_werden_nicht_deinstalliert() {
    let geschuetzt = geschuetztes_programm();
    let ergebnis = deinstalliere(&geschuetzt, true);
    assert!(!ergebnis.ok);
    assert_eq!(ergebnis.message, "uninstall.protected");
    assert_eq!(ergebnis.exit_code, -1, "es darf nichts gestartet worden sein");
}

// ---------------------------------------------------------------------------
// Weitere Fälle
// ---------------------------------------------------------------------------

#[test]
fn erstes_namensmuster_bestimmt_den_grund() {
    // "microsoft defender" steht vor "update for windows".
    assert_eq!(
        schutzgrund("Microsoft Defender Update for Windows", "", Quelle::Machine),
        Some("uninstall.protected.security")
    );
    assert_eq!(
        schutzgrund("Security Update for Windows", "", Quelle::User),
        Some("uninstall.protected.update")
    );
}

#[test]
fn treiberwort_auf_deutsch_zaehlt() {
    assert_eq!(
        schutzgrund("Realtek Audio Treiber", "Realtek Semiconductor", Quelle::Machine32),
        Some("uninstall.protected.driver")
    );
}

#[test]
fn store_pakete_kennen_nur_den_shellschutz() {
    // Ein Name, der als Registry-Eintrag geschützt wäre, ist als Store-Paket frei.
    assert!(schutzgrund("Plane", "CN=Plane", Quelle::Store).is_none());
    assert_eq!(
        schutzgrund("Microsoft.WindowsStore", "", Quelle::Store),
        Some("uninstall.protected.system")
    );
}

#[test]
fn guid_mit_falscher_laenge_wird_abgelehnt() {
    assert!(msi_guid("{1234}", "MsiExec.exe /X{1234}").is_none());
    assert!(msi_guid("x", "MsiExec.exe /X{90160000-000F-0000-0000-0000000FF1CX}").is_none());
    assert!(msi_guid("x", "MsiExec.exe /X{90160000-000F-0000-0000-0000000FF1CE").is_none());
}

#[test]
fn endung_wird_ohne_gross_klein_erkannt() {
    let (programm, argumente) = zerlege_befehl("  C:\\Apps\\Tool Setup\\UNINST.EXE /quiet  ").unwrap();
    assert_eq!(programm, "C:\\Apps\\Tool Setup\\UNINST.EXE");
    assert_eq!(argumente, vec!["/quiet"]);
}

#[test]
fn ohne_endung_ist_das_erste_wort_das_programm() {
    let (programm, argumente) = zerlege_befehl("rundll32 shell32,Control_RunDLL  x").unwrap();
    assert_eq!(programm, "rundll32");
    assert_eq!(argumente, vec!["shell32,Control_RunDLL", "x"]);
}

#[test]
fn offenes_anfuehrungszeichen_ergibt_nichts() {
    assert!(zerlege_befehl("\"C:\\P\\u.exe /S").is_none());
}

#[test]
fn alle_exitcodes_haben_eine_deutung() {
    assert_eq!(deute_exitcode(3010), (true, true, "uninstall.reboot_required"));
    assert_eq!(deute_exitcode(1641), (true, true, "uninstall.reboot_started"));
    assert_eq!(deute_exitcode(-1), (false, false, "uninstall.failed"));
}

#[test]
fn msi_argumente_tragen_die_guid() {
    assert_eq!(msi_argumente("{ABC}"), vec!["/x", "{ABC}", "/qn", "/norestart"]);
}

#[test]
fn herausgeber_wird_gekuerzt() {
    assert_eq!(kurzer_herausgeber("CN=Microsoft Corporation, O=Microsoft, C=US"), "Microsoft Corporation");
    assert_eq!(kurzer_herausgeber("O=Firma,  CN=Name "), "Name");
    assert_eq!(kurzer_herausgeber("Ohne Kennung"), "Ohne Kennung");
}

#[test]
fn store_zeile_wird_gedeutet() {
    let p = store_eintrag("  Microsoft.WindowsStore|Microsoft.WindowsStore_1_x64|22.0|CN=Microsoft Corporation, O=Microsoft\r").unwrap();
    assert_eq!(p.id, "Microsoft.WindowsStore_1_x64");
    assert_eq!(p.name, "Microsoft.WindowsStore");
    assert_eq!(p.version, "22.0");
    assert_eq!(p.publisher, "Microsoft Corporation");
    assert_eq!(p.source, Quelle::Store);
    assert!(!p.removable);
    assert_eq!(p.protection, "uninstall.protected.system");
    assert!(p.quiet);
    assert!(!p.requires_admin);
    assert!(p.icon.is_empty());

    assert!(store_eintrag("|id|1.0|CN=x").is_none());
    assert!(store_eintrag("nur|drei|felder").is_none());
}

#[test]
fn store_ausgabe_liefert_ein_paket_je_gueltiger_zeile() {
    let ausgabe = "SpotifyAB.SpotifyMusic|Spotify_1|1.2|CN=Spotify\r\nkaputt\r\n\r\nMicrosoft.VCLibs|VC_1|14|CN=Microsoft\r\n";
    let pakete = store_pakete_aus(ausgabe);
    assert_eq!(pakete.len(), 2);
    assert_eq!(pakete[0].name, "SpotifyAB.SpotifyMusic");
    assert!(pakete[0].removable);
    assert_eq!(pakete[0].publisher, "Spotify");
    assert_eq!(pakete[1].id, "VC_1");
    assert!(!pakete[1].removable);
    assert!(store_pakete_aus("").is_empty());
}

fn werte(name: &str) -> Eintragswerte {
    Eintragswerte {
        display_name: name.to_string(),
        system_component: 0,
        parent_key_name: String::new(),
        release_type: String::new(),
        uninstall_string: "\"C:\\Apps\\Tool\\unins000.exe\" /SILENT".to_string(),
        quiet_uninstall_string: String::new(),
        windows_installer: 0,
        publisher: "Irgendwer".to_string(),
        no_remove: 0,
        display_version: "1.0".to_string(),
        install_date: "20240101".to_string(),
        estimated_size: 2,
        display_icon: String::new(),
    }
}

#[test]
fn registry_eintrag_wird_gedeutet() {
    let p = eintrag_deuten(&werte("Tool"), "Tool_is1", Quelle::User).unwrap();
    assert_eq!(p.id, "Tool_is1");
    assert_eq!(p.name, "Tool");
    assert_eq!(p.size, 2048);
    assert!(p.removable);
    assert!(p.protection.is_empty());
    assert!(!p.quiet);
    assert!(!p.requires_admin);
    assert_eq!(p.icon, "C:\\Apps\\Tool\\unins000.exe");
}

#[test]
fn versteckte_eintraege_werden_verworfen() {
    assert!(eintrag_deuten(&werte("   "), "a", Quelle::Machine).is_none());
    let mut w = werte("Tool");
    w.system_component = 1;
    assert!(eintrag_deuten(&w, "a", Quelle::Machine).is_none());
    let mut w = werte("Tool");
    w.parent_key_name = "Office".to_string();
    assert!(eintrag_deuten(&w, "a", Quelle::Machine).is_none());
    let mut w = werte("Tool");
    w.release_type = "Security Update".to_string();
    assert!(eintrag_deuten(&w, "a", Quelle::Machine).is_none());
    assert!(eintrag_deuten(&werte("Tool"), "KB123456", Quelle::Machine).is_none());
    // "KB" allein oder mit Buchstaben ist keine Altlast.
    assert!(eintrag_deuten(&werte("Tool"), "KB", Quelle::Machine).is_some());
    assert!(eintrag_deuten(&werte("Tool"), "KB12a", Quelle::Machine).is_some());
}

#[test]
fn sperren_der_registry_haben_vorrang() {
    let mut w = werte("Tool");
    w.no_remove = 1;
    let p = eintrag_deuten(&w, "a", Quelle::Machine).unwrap();
    assert!(!p.removable);
    assert_eq!(p.protection, "uninstall.protected.noremove");

    let mut w = werte("Tool");
    w.uninstall_string = String::new();
    let p = eintrag_deuten(&w, "a", Quelle::Machine).unwrap();
    assert_eq!(p.protection, "uninstall.protected.no_uninstaller");

    let mut w = werte("Microsoft Visual C++ 2015");
    w.uninstall_string = String::new();
    let p = eintrag_deuten(&w, "a", Quelle::Machine).unwrap();
    assert_eq!(p.protection, "uninstall.protected.runtime");
}

#[test]
fn msi_eintraege_laufen_still() {
    let mut w = werte("Tool");
    w.uninstall_string = "MsiExec.exe /X{90160000-000F-0000-0000-0000000FF1CE}".to_string();
    let p = eintrag_deuten(&w, "a", Quelle::Machine).unwrap();
    assert!(p.quiet);
    assert!(p.requires_admin);
    // msiexec taugt nicht als Symbolquelle.
    assert!(p.icon.is_empty());
}

#[test]
fn symbolquelle_bevorzugt_die_angabe() {
    assert_eq!(symbolquelle("C:\\a.ico,0", "x.exe").as_deref(), Some("C:\\a.ico,0"));
    assert_eq!(symbolquelle("  ", "\"C:\\P\\u.exe\" /S").as_deref(), Some("C:\\P\\u.exe"));
    assert!(symbolquelle("", "MsiExec.exe /X{A}").is_none());
    assert!(symbolquelle("", "C:\\P\\u.bat").is_none());
    assert!(symbolquelle("", "").is_none());
}

#[test]
fn groesste_programmdatei_wird_gewaehlt() {
    let eintrag = |name: &str, groesse: u64| Ordnereintrag {
        name: name.to_string(),
        groesse,
        pfad: format!("C:\\P\\{name}"),
    };
    let eintraege = vec![
        eintrag("helper.exe", 10),
        eintrag("unins000.exe", 500),
        eintrag("App.EXE", 300),
        eintrag("readme.txt", 900),
        eintrag("gleich.exe", 300),
    ];
    assert_eq!(symbol_waehlen(&eintraege), "C:\\P\\App.EXE");
    assert_eq!(symbol_waehlen(&Vec::new()), "");
}

#[test]
fn ordnerpfad_verliert_rand() {
    assert_eq!(ordnerpfad("  \"C:\\Program Files\\App\"  "), "C:\\Program Files\\App");
    assert_eq!(ordnerpfad(""), "");
}

#[test]
fn stiller_befehl_nimmt_die_guid() {
    let guid = "{90160000-000F-0000-0000-0000000FF1CE}";
    let (p, a) = befehl_waehlen(guid, "MsiExec.exe /I{x}", "", true).unwrap();
    assert_eq!(p, "msiexec");
    assert_eq!(a, vec!["/x", guid, "/qn", "/norestart"]);

    let (p, a) = befehl_waehlen("App", "\"C:\\u.exe\"", "\"C:\\u.exe\" /S", true).unwrap();
    assert_eq!(p, "C:\\u.exe");
    assert_eq!(a, vec!["/S"]);

    let (p, a) = befehl_waehlen("App", "\"C:\\u.exe\"", "\"C:\\u.exe\" /S", false).unwrap();
    assert_eq!(p, "C:\\u.exe");
    assert!(a.is_empty());

    assert!(befehl_waehlen("App", "", "", true).is_none());
}

fn programm(quelle: Quelle) -> Programm {
    let mut p = geschuetztes_programm();
    p.removable = true;
    p.protection = String::new();
    p.source = quelle;
    p
}

#[test]
fn verschwundener_eintrag_bestaetigt_die_deinstallation() {
    let e = deinstallation_auswerten(&programm(Quelle::Machine), 1603, false);
    assert!(e.ok);
    assert!(e.verified);
    assert_eq!(e.exit_code, 1603);
    assert!(e.message.is_empty());

    let e = deinstallation_auswerten(&programm(Quelle::Machine), 0, true);
    assert!(e.ok);
    assert!(!e.verified);
    assert_eq!(e.message, "uninstall.unverified");

    let e = deinstallation_auswerten(&programm(Quelle::User), 3010, true);
    assert!(e.ok);
    assert!(e.reboot_required);
    assert_eq!(e.message, "uninstall.reboot_required");

    let e = deinstallation_auswerten(&programm(Quelle::Machine32), 1602, true);
    assert!(!e.ok);
    assert_eq!(e.message, "uninstall.user_cancelled");
}

#[test]
fn store_ergebnis_folgt_dem_exitcode() {
    let e = deinstallation_auswerten(&programm(Quelle::Store), 0, true);
    assert!(e.ok);
    assert!(e.verified);
    let e = deinstallation_auswerten(&programm(Quelle::Store), 1, false);
    assert!(!e.ok);
    assert!(!e.verified);
    assert_eq!(e.message, "uninstall.failed");
}

#[test]
fn ohne_windows_wird_nichts_gestartet() {
    let e = deinstalliere(&programm(Quelle::Machine), false);
    assert!(!e.ok);
    assert_eq!(e.exit_code, -1);
    assert_eq!(e.message, "uninstall.windows_only");
}

fn benannt(name: &str, entfernbar: bool) -> Programm {
    let mut p = programm(Quelle::User);
    p.name = name.to_string();
    p.removable = entfernbar;
    p
}

#[test]
fn programmliste_zeigt_standardmaessig_nur_entfernbare() {
    let liste = vec![benannt("Discord", true), benannt("Microsoft Edge", false), benannt("Spotify", true)];
    let namen = |v: Vec<Programm>| v.into_iter().map(|p| p.name).collect::<Vec<_>>();
    assert_eq!(namen(programme_filtern(liste.clone(), None, false)), vec!["Discord", "Spotify"]);
    assert_eq!(namen(programme_filtern(liste.clone(), None, true)), vec!["Discord", "Microsoft Edge", "Spotify"]);
    assert_eq!(namen(programme_filtern(liste.clone(), Some("DISC"), false)), vec!["Discord"]);
    assert_eq!(namen(programme_filtern(liste.clone(), Some("edge"), false)), Vec::<String>::new());
    assert_eq!(namen(programme_filtern(liste, Some("edge"), true)), vec!["Microsoft Edge"]);
}
