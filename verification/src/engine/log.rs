//! Protokollzeilen der Läufe.
//!
//! Jede Analyse und jede Bereinigung wird als Zeile mitgeschrieben – zur
//! Nachvollziehbarkeit für den Nutzer. Protokolliert werden Ziele, Zahlen und
//! Fehler, keine Einzelpfade. Geschrieben wird außerhalb der Bibliothek; hier
//! entstehen die Zeilen und der Zeitstempel.

use vstd::prelude::*;
use crate::engine::fsutil;
use crate::engine::fsutil::format_bytes;
use crate::engine::types::{CleanReport, ScanReport};
use crate::zeichen;
use crate::zeichen::{dezimal_von, folge_anhaengen, text_aus, wiederhole, zeichen_von};

verus! {

/// Dateiname im App-Config-Verzeichnis.
pub const LOG_FILE: &'static str = "plane.log";

/// Ab dieser Größe wird die Datei zurückgesetzt (1 MB).
pub const MAX_GROESSE: u64 = 1024 * 1024;

/// Pfad der Protokolldatei im App-Config-Verzeichnis.
pub fn log_path(config_dir: &str) -> (r: String)
    ensures
        r@ == fsutil::angehaengt(config_dir@, LOG_FILE@),
{
    fsutil::pfad_anhaengen(config_dir, LOG_FILE)
}

// ---------------------------------------------------------------------------
// Kalender
// ---------------------------------------------------------------------------

/// Kalenderdatum (Jahr, Monat, Tag) zu einem Tag seit 1970-01-01 im
/// proleptischen gregorianischen Kalender (Verfahren von Howard Hinnant).
pub open spec fn kalenderdatum(tage: int) -> (int, int, int) {
    let z = tage + 719_468;
    let era = z / 146_097;
    let doe = z - era * 146_097;
    let yoe = (doe - doe / 1460 + doe / 36_524 - doe / 146_096) / 365;
    let y = yoe + era * 400;
    let doy = doe - (365 * yoe + yoe / 4 - yoe / 100);
    let mp = (5 * doy + 2) / 153;
    let d = doy - (153 * mp + 2) / 5 + 1;
    let m = if mp < 10 { mp + 3 } else { mp - 9 };
    (if m <= 2 { y + 1 } else { y }, m, d)
}

/// Der Tag seit 1970-01-01 zu einem Kalenderdatum (die Umkehrung).
pub open spec fn tagesnummer(y: int, m: int, d: int) -> int {
    let y2 = if m <= 2 { y - 1 } else { y };
    let era = y2 / 400;
    let yoe = y2 - era * 400;
    let mp = if m > 2 { m - 3 } else { m + 9 };
    let doy = (153 * mp + 2) / 5 + d - 1;
    let doe = yoe * 365 + yoe / 4 - yoe / 100 + doy;
    era * 146_097 + doe - 719_468
}

/// Datum zu einer Tagesnummer.
pub fn civil_from_days(tage: i64) -> (r: (i64, u32, u32))
    requires
        tage <= i64::MAX - 719_468,
    ensures
        (r.0 as int, r.1 as int, r.2 as int) == kalenderdatum(tage as int),
        1 <= r.1 <= 12,
        1 <= r.2 <= 31,
{
    let z: i64 = tage + 719_468;
    // Abgerundete Division, ohne negative Zähler zu teilen.
    let era: i64 = if z >= 0 { z / 146_097 } else { 0 - ((146_096 - z) / 146_097) };
    proof {
        lemma_era(z as int, era as int);
    }
    let doe: u64 = (z - era * 146_097) as u64;
    let yoe: u64 = (doe - doe / 1460 + doe / 36_524 - doe / 146_096) / 365;
    proof {
        lemma_jahr_der_era(doe as int);
    }
    let y: i64 = yoe as i64 + era * 400;
    let doy: u64 = doe - (365 * yoe + yoe / 4 - yoe / 100);
    let mp: u64 = (5 * doy + 2) / 153;
    proof {
        lemma_monat(doy as int);
    }
    let d: u32 = (doy - (153 * mp + 2) / 5 + 1) as u32;
    let m: u32 = if mp < 10 { mp + 3 } else { mp - 9 } as u32;
    (if m <= 2 { y + 1 } else { y }, m, d)
}

proof fn lemma_era(z: int, era: int)
    requires
        z >= 0 ==> era == z / 146_097,
        z < 0 ==> era == 0 - ((146_096 - z) / 146_097),
    ensures
        era == z / 146_097,
        0 <= z - era * 146_097 < 146_097,
{
    if z < 0 {
        let q = (146_096 - z) / 146_097;
        assert(q * 146_097 <= 146_096 - z < q * 146_097 + 146_097);
        assert(0 <= z + q * 146_097 < 146_097);
        assert(z == (0 - q) * 146_097 + (z + q * 146_097));
    }
}

proof fn lemma_jahr_der_era(doe: int)
    requires
        0 <= doe < 146_097,
    ensures
        doe / 1460 <= doe,
        doe / 146_096 <= doe / 36_524,
        0 <= (doe - doe / 1460 + doe / 36_524 - doe / 146_096) / 365 <= 399,
        ({
            let yoe = (doe - doe / 1460 + doe / 36_524 - doe / 146_096) / 365;
            0 <= doe - (365 * yoe + yoe / 4 - yoe / 100) <= 365
        }),
{
    let a = doe / 1460;
    let b = doe / 36_524;
    let c = doe / 146_096;
    assert(0 <= b <= 4);
    assert(0 <= c <= 1);
    assert(c <= b);
    let n = doe - a + b - c;
    assert(0 <= n);
    let yoe = n / 365;
    assert(yoe <= 399);
    assert(365 * yoe + yoe / 4 - yoe / 100 <= doe) by (nonlinear_arith)
        requires
            0 <= doe < 146_097,
            a == doe / 1460,
            b == doe / 36_524,
            c == doe / 146_096,
            yoe == (doe - a + b - c) / 365,
            0 <= yoe <= 399,
    ;
    assert(doe - (365 * yoe + yoe / 4 - yoe / 100) <= 365) by (nonlinear_arith)
        requires
            0 <= doe < 146_097,
            a == doe / 1460,
            b == doe / 36_524,
            c == doe / 146_096,
            yoe == (doe - a + b - c) / 365,
            0 <= yoe <= 399,
    ;
}

proof fn lemma_monat(doy: int)
    requires
        0 <= doy <= 365,
    ensures
        ({
            let mp = (5 * doy + 2) / 153;
            &&& 0 <= mp <= 11
            &&& (153 * mp + 2) / 5 <= doy
            &&& 1 <= doy - (153 * mp + 2) / 5 + 1 <= 31
        }),
{
    let mp = (5 * doy + 2) / 153;
    assert(0 <= mp <= 11);
    assert(mp * 153 <= 5 * doy + 2 < mp * 153 + 153);
}

/// Eine Zahl mit führenden Nullen auf mindestens `breite` Stellen.
pub open spec fn mit_nullen(n: nat, breite: nat) -> Seq<char> {
    let z = zeichen::dezimal(n);
    let fehlend: nat = if breite > z.len() { (breite - z.len()) as nat } else { 0 };
    zeichen::wiederholt('0', fehlend) + z
}

fn nullen_anhaengen(ziel: &mut Vec<char>, n: u64, breite: usize)
    ensures
        final(ziel)@ == old(ziel)@ + mit_nullen(n as nat, breite as nat),
{
    let z = dezimal_von(n);
    let fehlend: usize = if breite > z.len() { breite - z.len() } else { 0 };
    folge_anhaengen(ziel, &wiederhole('0', fehlend));
    folge_anhaengen(ziel, &z);
    assert(final(ziel)@ =~= old(ziel)@ + mit_nullen(n as nat, breite as nat));
}

/// Zeitstempel `YYYY-MM-DD HH:MM:SS` (UTC) zu Sekunden seit 1970.
pub open spec fn zeitstempel_text(sekunden: nat) -> Seq<char> {
    let datum = kalenderdatum((sekunden / 86_400) as int);
    let rest = sekunden % 86_400;
    mit_nullen(datum.0 as nat, 4) + seq!['-'] + mit_nullen(datum.1 as nat, 2) + seq!['-'] + mit_nullen(datum.2 as nat, 2)
        + seq![' '] + mit_nullen(rest / 3600, 2) + seq![':'] + mit_nullen((rest % 3600) / 60, 2) + seq![':']
        + mit_nullen(rest % 60, 2)
}

/// Den Zeitstempel zu einem Zeitpunkt formatieren.
pub fn zeitstempel_aus(sekunden: u64) -> (r: String)
    ensures
        r@ == zeitstempel_text(sekunden as nat),
{
    let tage: i64 = (sekunden / 86_400) as i64;
    let rest: u64 = sekunden % 86_400;
    let (jahr, monat, tag) = civil_from_days(tage);
    assert(jahr >= 0) by (nonlinear_arith)
        requires
            (jahr as int, monat as int, tag as int) == kalenderdatum(tage as int),
            tage >= 0,
    {
        assert(tage + 719_468 >= 0);
    }
    let mut v: Vec<char> = Vec::new();
    nullen_anhaengen(&mut v, jahr as u64, 4);
    v.push('-');
    nullen_anhaengen(&mut v, monat as u64, 2);
    v.push('-');
    nullen_anhaengen(&mut v, tag as u64, 2);
    v.push(' ');
    nullen_anhaengen(&mut v, rest / 3600, 2);
    v.push(':');
    nullen_anhaengen(&mut v, (rest % 3600) / 60, 2);
    v.push(':');
    nullen_anhaengen(&mut v, rest % 60, 2);
    assert(v@ =~= zeitstempel_text(sekunden as nat));
    text_aus(&v)
}

/// `SystemTime::elapsed` seit `UNIX_EPOCH`, in ganzen Sekunden (0, wenn die
/// Uhr vor 1970 steht). Über die Uhrzeit selbst ist nichts zugesichert.
#[verifier::external_body]
fn sekunden_jetzt() -> (r: u64) {
    match std::time::UNIX_EPOCH.elapsed() {
        Ok(dauer) => dauer.as_secs(),
        Err(_) => 0,
    }
}

/// Zeitstempel der aktuellen Uhrzeit.
pub fn zeitstempel() -> (r: String)
    ensures
        exists|s: nat| r@ == zeitstempel_text(s),
{
    let s = sekunden_jetzt();
    zeitstempel_aus(s)
}

/// Ein Tag innerhalb einer 400-Jahres-Ära: Datum und Rückrechnung passen.
proof fn lemma_aera_umkehrbar(doe: int)
    requires
        0 <= doe < 146_097,
    ensures
        ({
            let yoe = (doe - doe / 1460 + doe / 36_524 - doe / 146_096) / 365;
            let doy = doe - (365 * yoe + yoe / 4 - yoe / 100);
            let mp = (5 * doy + 2) / 153;
            let d = doy - (153 * mp + 2) / 5 + 1;
            &&& (153 * mp + 2) / 5 + d - 1 == doy
            &&& yoe * 365 + yoe / 4 - yoe / 100 + doy == doe
        }),
{
}

/// Die Rückrechnung kehrt die Datumsbestimmung um: jeder Tag wird aus seinem
/// eigenen Kalenderdatum genau wiedergewonnen.
pub proof fn datum_und_tagesnummer_passen(tage: int)
    ensures
        ({
            let (y, m, d) = kalenderdatum(tage);
            tagesnummer(y, m, d) == tage
        }),
{
    let z = tage + 719_468;
    let era = z / 146_097;
    let doe = z - era * 146_097;
    assert(0 <= doe < 146_097);
    lemma_aera_umkehrbar(doe);
    lemma_jahr_der_era(doe);
    let yoe = (doe - doe / 1460 + doe / 36_524 - doe / 146_096) / 365;
    let doy = doe - (365 * yoe + yoe / 4 - yoe / 100);
    lemma_monat(doy);
    let mp = (5 * doy + 2) / 153;
    let m = if mp < 10 { mp + 3 } else { mp - 9 };
    let y = yoe + era * 400;
    let yy = if m <= 2 { y + 1 } else { y };
    let y2 = if m <= 2 { yy - 1 } else { yy };
    assert(y2 == y);
    let era2 = y2 / 400;
    assert(era2 == era) by (nonlinear_arith)
        requires
            y2 == yoe + era * 400,
            0 <= yoe <= 399,
            era2 == y2 / 400,
    {
    }
    let mp2 = if m > 2 { m - 3 } else { m + 9 };
    assert(mp2 == mp);
}

// ---------------------------------------------------------------------------
// Zeilen
// ---------------------------------------------------------------------------

/// Anzahl der übersprungenen Ziele einer Analyse.
pub open spec fn uebersprungen(t: Seq<crate::engine::types::TargetScan>) -> nat
    decreases t.len(),
{
    if t.len() == 0 {
        0
    } else {
        uebersprungen(t.drop_last()) + if t.last().skipped { 1nat } else { 0nat }
    }
}

/// Die Protokollzeile einer Analyse.
pub open spec fn scanzeile(b: ScanReport) -> Seq<char> {
    "ANALYSE  ziele="@ + zeichen::dezimal(b.targets@.len()) + " gefunden="@ + fsutil::groesse_text(b.total_size as nat)
        + " eintraege="@ + zeichen::dezimal(b.total_items as nat) + " uebersprungen="@
        + zeichen::dezimal(uebersprungen(b.targets@)) + " dauer="@ + zeichen::dezimal(b.duration_ms as nat) + "ms"@
        + if b.cancelled { " ABGEBROCHEN"@ } else { seq![] }
}

fn anhaengen(v: &mut Vec<char>, t: &str)
    ensures
        final(v)@ == old(v)@ + t@,
{
    folge_anhaengen(v, &zeichen_von(t));
}

fn zahl_anhaengen(v: &mut Vec<char>, n: u64)
    ensures
        final(v)@ == old(v)@ + zeichen::dezimal(n as nat),
{
    folge_anhaengen(v, &dezimal_von(n));
}

/// Die Protokollzeile einer Analyse bauen.
pub fn scan_zeile(bericht: &ScanReport) -> (r: String)
    ensures
        r@ == scanzeile(*bericht),
{
    let mut zaehler: u64 = 0;
    let mut i: usize = 0;
    while i < bericht.targets.len()
        invariant
            i <= bericht.targets@.len(),
            zaehler == uebersprungen(bericht.targets@.subrange(0, i as int)),
            zaehler <= i,
        decreases bericht.targets@.len() - i,
    {
        assert(bericht.targets@.subrange(0, i + 1).drop_last() =~= bericht.targets@.subrange(0, i as int));
        if bericht.targets[i].skipped {
            zaehler = zaehler + 1;
        }
        i = i + 1;
    }
    assert(bericht.targets@.subrange(0, i as int) =~= bericht.targets@);
    let mut v: Vec<char> = Vec::new();
    anhaengen(&mut v, "ANALYSE  ziele=");
    zahl_anhaengen(&mut v, bericht.targets.len() as u64);
    anhaengen(&mut v, " gefunden=");
    folge_anhaengen(&mut v, &zeichen_von(format_bytes(bericht.total_size).as_str()));
    anhaengen(&mut v, " eintraege=");
    zahl_anhaengen(&mut v, bericht.total_items as u64);
    anhaengen(&mut v, " uebersprungen=");
    zahl_anhaengen(&mut v, zaehler);
    anhaengen(&mut v, " dauer=");
    zahl_anhaengen(&mut v, bericht.duration_ms);
    anhaengen(&mut v, "ms");
    if bericht.cancelled {
        anhaengen(&mut v, " ABGEBROCHEN");
    }
    assert(v@ =~= scanzeile(*bericht));
    text_aus(&v)
}

/// Die Zeichenfolgen einer Liste von Zeichenketten.
pub open spec fn texte(v: Seq<String>) -> Seq<Seq<char>> {
    v.map_values(|s: String| s@)
}

/// Die Kopfzeile einer Bereinigung.
pub open spec fn cleankopf(b: CleanReport, trockenlauf: bool) -> Seq<char> {
    (if trockenlauf { "SIMULATION"@ } else { "BEREINIGUNG"@ }) + "  freigegeben="@
        + fsutil::groesse_text(b.total_freed as nat) + " entfernt="@ + zeichen::dezimal(b.total_removed as nat)
        + " gesperrt="@ + zeichen::dezimal(b.total_locked as nat) + " rechte="@ + zeichen::dezimal(b.total_denied as nat)
        + " dauer="@ + zeichen::dezimal(b.duration_ms as nat) + "ms"@
        + if b.cancelled { " ABGEBROCHEN"@ } else { seq![] }
}

/// Text linksbündig auf mindestens `breite` Zeichen.
pub open spec fn links(t: Seq<char>, breite: nat) -> Seq<char> {
    t + zeichen::wiederholt(' ', if breite > t.len() { (breite - t.len()) as nat } else { 0 })
}

/// Die Zeile eines Ziels: Schlüssel, Ausgang, Zahlen, und von den Fehlern
/// nur Anzahl und erste Meldung, gekürzt – Fehlertexte können Dateinamen
/// enthalten.
pub open spec fn zielzeile(z: crate::engine::types::TargetClean) -> Seq<char> {
    "  "@ + links(z.key@, 28) + " "@ + (if z.skipped { "uebersprungen"@ } else if z.ok { "ok"@ } else { "FEHLER"@ })
        + zahlenteil(z) + fehlerteil(z)
}

/// Alle Zeilen einer Bereinigung: Kopf, je Ziel eine Zeile, dann die
/// Registry-Sicherung, falls angelegt.
pub open spec fn cleanzeilen(b: CleanReport, trockenlauf: bool) -> Seq<Seq<char>> {
    seq![cleankopf(b, trockenlauf)] + Seq::new(b.targets@.len(), |k: int| zielzeile(b.targets@[k]))
        + match b.registry_backup {
            Some(s) => seq!["  registry-sicherung="@ + s@],
            None => seq![],
        }
}

/// Zahlen eines nicht übersprungenen Ziels.
pub open spec fn zahlenteil(z: crate::engine::types::TargetClean) -> Seq<char> {
    if z.skipped {
        seq![]
    } else {
        " freigegeben="@ + fsutil::groesse_text(z.freed as nat) + " entfernt="@ + zeichen::dezimal(z.removed_items as nat)
            + (if z.locked_items > 0 { " gesperrt="@ + zeichen::dezimal(z.locked_items as nat) } else { seq![] })
            + (if z.denied_items > 0 { " rechte="@ + zeichen::dezimal(z.denied_items as nat) } else { seq![] })
    }
}

/// Anzahl und erste Meldung der Fehler, gekürzt auf 120 Zeichen.
pub open spec fn fehlerteil(z: crate::engine::types::TargetClean) -> Seq<char> {
    if z.errors@.len() > 0 {
        " fehler="@ + zeichen::dezimal(z.errors@.len()) + " \""@
            + z.errors@[0]@.take(if z.errors@[0]@.len() < 120 { z.errors@[0]@.len() as int } else { 120 }) + "\""@
    } else {
        seq![]
    }
}

fn zahlenteil_bauen(z: &crate::engine::types::TargetClean) -> (r: Vec<char>)
    ensures
        r@ == zahlenteil(*z),
{
    let mut v: Vec<char> = Vec::new();
    if !z.skipped {
        anhaengen(&mut v, " freigegeben=");
        folge_anhaengen(&mut v, &zeichen_von(format_bytes(z.freed).as_str()));
        anhaengen(&mut v, " entfernt=");
        zahl_anhaengen(&mut v, z.removed_items as u64);
        let ghost basis = v@;
        let mut gesperrt: Vec<char> = Vec::new();
        if z.locked_items > 0 {
            anhaengen(&mut gesperrt, " gesperrt=");
            zahl_anhaengen(&mut gesperrt, z.locked_items as u64);
        }
        let mut rechte: Vec<char> = Vec::new();
        if z.denied_items > 0 {
            anhaengen(&mut rechte, " rechte=");
            zahl_anhaengen(&mut rechte, z.denied_items as u64);
        }
        folge_anhaengen(&mut v, &gesperrt);
        folge_anhaengen(&mut v, &rechte);
    }
    assert(v@ =~= zahlenteil(*z));
    v
}

fn fehlerteil_bauen(z: &crate::engine::types::TargetClean) -> (r: Vec<char>)
    ensures
        r@ == fehlerteil(*z),
{
    let mut v: Vec<char> = Vec::new();
    if z.errors.len() > 0 {
        anhaengen(&mut v, " fehler=");
        zahl_anhaengen(&mut v, z.errors.len() as u64);
        anhaengen(&mut v, " \"");
        let erste = zeichen_von(z.errors[0].as_str());
        let n: usize = if erste.len() < 120 { erste.len() } else { 120 };
        folge_anhaengen(&mut v, &zeichen::teilfolge(&erste, 0, n));
        anhaengen(&mut v, "\"");
    }
    assert(v@ =~= fehlerteil(*z));
    v
}

fn zielzeile_bauen(z: &crate::engine::types::TargetClean) -> (r: String)
    ensures
        r@ == zielzeile(*z),
{
    let mut v: Vec<char> = Vec::new();
    anhaengen(&mut v, "  ");
    let key = zeichen_von(z.key.as_str());
    let fehlend: usize = if key.len() < 28 { 28 - key.len() } else { 0 };
    folge_anhaengen(&mut v, &key);
    folge_anhaengen(&mut v, &wiederhole(' ', fehlend));
    anhaengen(&mut v, " ");
    anhaengen(&mut v, if z.skipped { "uebersprungen" } else if z.ok { "ok" } else { "FEHLER" });
    folge_anhaengen(&mut v, &zahlenteil_bauen(z));
    folge_anhaengen(&mut v, &fehlerteil_bauen(z));
    assert(v@ =~= zielzeile(*z));
    text_aus(&v)
}

/// Die Protokollzeilen einer Bereinigung bauen.
pub fn clean_zeilen(bericht: &CleanReport, trockenlauf: bool) -> (r: Vec<String>)
    ensures
        texte(r@) == cleanzeilen(*bericht, trockenlauf),
{
    let mut v: Vec<char> = Vec::new();
    anhaengen(&mut v, if trockenlauf { "SIMULATION" } else { "BEREINIGUNG" });
    anhaengen(&mut v, "  freigegeben=");
    folge_anhaengen(&mut v, &zeichen_von(format_bytes(bericht.total_freed).as_str()));
    anhaengen(&mut v, " entfernt=");
    zahl_anhaengen(&mut v, bericht.total_removed as u64);
    anhaengen(&mut v, " gesperrt=");
    zahl_anhaengen(&mut v, bericht.total_locked as u64);
    anhaengen(&mut v, " rechte=");
    zahl_anhaengen(&mut v, bericht.total_denied as u64);
    anhaengen(&mut v, " dauer=");
    zahl_anhaengen(&mut v, bericht.duration_ms);
    anhaengen(&mut v, "ms");
    if bericht.cancelled {
        anhaengen(&mut v, " ABGEBROCHEN");
    }
    assert(v@ =~= cleankopf(*bericht, trockenlauf));
    let mut r: Vec<String> = Vec::new();
    r.push(text_aus(&v));
    let mut i: usize = 0;
    while i < bericht.targets.len()
        invariant
            i <= bericht.targets@.len(),
            r@.len() == i + 1,
            r@[0]@ == cleankopf(*bericht, trockenlauf),
            forall|k: int| 0 <= k < i ==> (#[trigger] r@[k + 1])@ == zielzeile(bericht.targets@[k]),
        decreases bericht.targets@.len() - i,
    {
        r.push(zielzeile_bauen(&bericht.targets[i]));
        i = i + 1;
    }
    let ghost kopf_und_ziele = seq![cleankopf(*bericht, trockenlauf)]
        + Seq::new(bericht.targets@.len(), |k: int| zielzeile(bericht.targets@[k]));
    assert forall|k: int| 0 <= k < r@.len() implies #[trigger] texte(r@)[k] == kopf_und_ziele[k] by {
        if k > 0 {
            assert(r@[(k - 1) + 1]@ == zielzeile(bericht.targets@[k - 1]));
        }
    }
    assert(texte(r@) =~= kopf_und_ziele);
    match &bericht.registry_backup {
        Some(sicherung) => {
            let mut z: Vec<char> = Vec::new();
            anhaengen(&mut z, "  registry-sicherung=");
            folge_anhaengen(&mut z, &zeichen_von(sicherung.as_str()));
            let ghost vorher = r@;
            r.push(text_aus(&z));
            assert(texte(r@) =~= texte(vorher).push(z@));
        },
        None => {},
    }
    r
}

} // verus!
