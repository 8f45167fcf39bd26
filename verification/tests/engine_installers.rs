use plane::engine::installers::{
    classify, groesste_zuerst_ordnen, qualifies, vorschlaege, Fundstelle, Verdict, MIN_AGE_DAYS, MIN_SIZE_BYTES,
    SEARCH_PATTERNS,
};
use plane::engine::types::ScanItem;

const TAG: u64 = 86_400;

fn datei(pfad: &str, groesse: u64, tage: u64) -> Fundstelle {
    Fundstelle {
        pfad: pfad.to_string(),
        name: pfad.rsplit('\\').next().unwrap().to_string(),
        ist_datei: true,
        groesse,
        alter: Some(tage * TAG),
    }
}

#[test]
fn erkennt_eindeutige_installationspakete() {
    assert_eq!(classify("VCRedist.msi"), Verdict::Installer);
    assert_eq!(classify("Windows11.msu"), Verdict::Installer);
    assert_eq!(classify("App.msix"), Verdict::Installer);
    assert_eq!(classify("Paket.appx"), Verdict::Installer);
}

#[test]
fn exe_nur_mit_hinweis_im_namen() {
    assert_eq!(classify("FirefoxSetup.exe"), Verdict::Installer);
    assert_eq!(classify("node-v22-x64.exe"), Verdict::Installer);
    assert_eq!(classify("nvidia-driver.exe"), Verdict::Installer);
    assert_eq!(classify("mein-tool.exe"), Verdict::Ignore);
    assert_eq!(classify("game.exe"), Verdict::Ignore);
}

#[test]
fn archive_nur_mit_hinweis_im_namen() {
    assert_eq!(classify("treiber-setup.zip"), Verdict::Archive);
    assert_eq!(classify("urlaubsfotos.zip"), Verdict::Ignore);
    assert_eq!(classify("win11-install.iso"), Verdict::Archive);
}

#[test]
fn dokumente_werden_ignoriert() {
    for name in ["rechnung.pdf", "notizen.txt", "bild.png", "musik.mp3", "ohne-endung"] {
        assert_eq!(classify(name), Verdict::Ignore, "{name}");
    }
}

#[test]
fn erkennung_ist_gross_klein_unabhaengig() {
    assert_eq!(classify("SETUP.EXE"), Verdict::Installer);
    assert_eq!(classify("Paket.MSI"), Verdict::Installer);
}

#[test]
fn standardsuchorte_sind_nutzerordner() {
    for muster in SEARCH_PATTERNS {
        assert!(muster.starts_with('%'), "{muster}");
    }
}

#[test]
fn endung_folgt_den_pfadregeln() {
    assert_eq!(classify(".msi"), Verdict::Ignore);
    assert_eq!(classify("C:\\Downloads\\setup.msi"), Verdict::Installer);
    assert_eq!(classify("ordner.msi\\datei"), Verdict::Ignore);
    assert_eq!(classify("archiv.tar.zip"), Verdict::Ignore);
    assert_eq!(classify("patch.tar.zip"), Verdict::Archive);
}

#[test]
fn zu_kleine_dateien_werden_nicht_vorgeschlagen() {
    assert!(qualifies("setup.exe", true, 1024, Some(0), MIN_SIZE_BYTES, 0).is_none());
    assert_eq!(qualifies("setup.exe", true, 1024, Some(0), 512, 0), Some((Verdict::Installer, 1024, 0)));
}

#[test]
fn frische_dateien_werden_nicht_vorgeschlagen() {
    assert!(qualifies("setup.msi", true, 2048, Some(60), 512, MIN_AGE_DAYS).is_none());
    assert!(qualifies("setup.msi", true, 2048, None, 512, MIN_AGE_DAYS).is_none());
    let alt = 40 * 86_400 + 5;
    assert_eq!(qualifies("setup.msi", true, 2048, Some(alt), 512, MIN_AGE_DAYS), Some((Verdict::Installer, 2048, 40)));
}

#[test]
fn verzeichnisse_werden_ignoriert() {
    assert!(qualifies("setup.exe", false, 0, Some(0), 0, 0).is_none());
}

#[test]
fn vorschlaege_melden_fehlende_suchorte_als_warnung() {
    let (treffer, warnungen) = vorschlaege(&vec![Err("Umgebungsvariable GIBT_ES_NICHT_98765 fehlt".to_string())]);
    assert!(treffer.is_empty());
    assert_eq!(warnungen, vec!["Umgebungsvariable GIBT_ES_NICHT_98765 fehlt".to_string()]);
}

#[test]
fn vorschlaege_sortieren_nach_groesse_und_melden_details() {
    let mb = 1024 * 1024;
    let funde = vec![Ok(vec![
        datei("C:\\dl\\klein-setup.exe", 6 * mb, 40),
        datei("C:\\dl\\gross-setup.exe", 9 * mb, 45),
        datei("C:\\dl\\egal.txt", 10 * mb, 400),
        datei("C:\\dl\\treiber.zip", 20 * mb, 400),
        datei("C:\\dl\\treiber-setup.zip", 7 * mb, 31),
    ])];
    let (treffer, warnungen) = vorschlaege(&funde);
    assert!(warnungen.is_empty());
    let pfade: Vec<&str> = treffer.iter().map(|t| t.path.as_str()).collect();
    assert_eq!(pfade, vec!["C:\\dl\\gross-setup.exe", "C:\\dl\\treiber-setup.zip", "C:\\dl\\klein-setup.exe"]);
    assert_eq!(treffer[0].detail, "installer|45");
    assert_eq!(treffer[1].detail, "archive|31");
    assert_eq!(treffer[2].size, 6 * mb);
}

#[test]
fn vorschlaege_lassen_kleines_frisches_und_ordner_aus() {
    let mb = 1024 * 1024;
    let mut ordner = datei("C:\\dl\\setup.exe", 50 * mb, 100);
    ordner.ist_datei = false;
    let funde = vec![Ok(vec![
        datei("C:\\dl\\mini-setup.exe", MIN_SIZE_BYTES - 1, 100),
        datei("C:\\dl\\neu-setup.exe", 50 * mb, 29),
        ordner,
    ])];
    let (treffer, _) = vorschlaege(&funde);
    assert!(treffer.is_empty());
}

#[test]
fn vorschlaege_nennen_jeden_pfad_nur_einmal() {
    let mb = 1024 * 1024;
    let a = datei("C:\\dl\\setup.msi", 8 * mb, 60);
    let b = datei("C:\\dl\\setup.msi", 8 * mb, 60);
    let funde = vec![Ok(vec![a]), Err("fehlt".to_string()), Ok(vec![b])];
    let (treffer, warnungen) = vorschlaege(&funde);
    assert_eq!(treffer.len(), 1);
    assert_eq!(warnungen.len(), 1);
}

#[test]
fn gleich_grosse_bleiben_in_ihrer_reihenfolge() {
    let eintraege = vec![
        ScanItem::new("a", 5),
        ScanItem::new("b", 9),
        ScanItem::new("c", 5),
        ScanItem::new("d", 9),
        ScanItem::new("e", 1),
    ];
    let pfade: Vec<String> = groesste_zuerst_ordnen(eintraege).into_iter().map(|i| i.path).collect();
    assert_eq!(pfade, vec!["b", "d", "a", "c", "e"]);
}
