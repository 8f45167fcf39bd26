//! Entscheidungen der Bereinigung.
//!
//! Es wird nur bereinigt, was ausdrücklich angefordert wurde. Gesperrte
//! Dateien und fehlende Rechte werden gezählt, nicht als Fehler gemeldet;
//! ein Trockenlauf meldet dieselben Zahlen, löscht aber nichts. Das Löschen
//! selbst geschieht außerhalb der Bibliothek; es fragt hier nach, welcher
//! Pfad an die Reihe kommt, und verbucht hier, was dabei herauskam.

use vstd::prelude::*;
use crate::engine::fsutil::{is_older_than, Removal};
use crate::engine::catalog;
use crate::engine::fsutil;
use crate::engine::process;
use crate::engine::process::Output;
use crate::engine::scan;
use crate::engine::types;
use crate::engine::types::{CleanReport, CleanRequest, FileRule, ScanItem, Target, TargetClean, TargetKind};
use crate::i18n;
use crate::i18n::gleich_ohne_gross_text;
use crate::zeichen;
use crate::zeichen::{enthaelt_folge, text_aus, text_anhaengen, zeichen_von};

verus! {

/// Die Ziele einer Bereinigung: die bekannten unter den angeforderten, in
/// der angeforderten Reihenfolge – ohne Anforderung keines, anders als bei
/// der Analyse.
pub fn bereinigungsziele(anfrage: &CleanRequest) -> (r: Vec<Target>)
    ensures
        r@.len() == scan::zeilen_zu(anfrage.targets@).len(),
        forall|i: int| 0 <= i < r@.len() ==> #[trigger] catalog::ziel_passt(r@[i], scan::zeilen_zu(anfrage.targets@)[i]),
{
    if anfrage.targets.len() == 0 {
        return Vec::new();
    }
    scan::scanziele(&anfrage.targets)
}

/// Ein Pfad gehört zur Auswahl: leere Auswahl heißt alles; sonst muss er
/// ohne Rücksicht auf ASCII-Groß-/Kleinschreibung einem Auswahlpfad gleichen.
pub open spec fn ausgewaehlt(pfad: Seq<char>, a: CleanRequest) -> bool {
    a.only_paths@.len() == 0 || exists|i: int| 0 <= i < a.only_paths@.len()
        && i18n::gleich_ohne_gross(#[trigger] a.only_paths@[i]@, pfad)
}

/// `true`, wenn der Pfad zur Auswahl gehört. Leere Auswahl = alles.
pub fn path_selected(pfad: &str, anfrage: &CleanRequest) -> (r: bool)
    ensures
        r == ausgewaehlt(pfad@, *anfrage),
{
    if anfrage.only_paths.len() == 0 {
        return true;
    }
    let mut i: usize = 0;
    while i < anfrage.only_paths.len()
        invariant
            i <= anfrage.only_paths@.len(),
            forall|k: int| 0 <= k < i ==> !i18n::gleich_ohne_gross(#[trigger] anfrage.only_paths@[k]@, pfad@),
        decreases anfrage.only_paths@.len() - i,
    {
        if gleich_ohne_gross_text(anfrage.only_paths[i].as_str(), pfad) {
            return true;
        }
        i = i + 1;
    }
    false
}

/// Jeder angehakte Pfad gehört zur Auswahl, gleich an welcher Stelle er
/// steht – und ebenso jeder Pfad, der ihm bis auf ASCII-Groß-/
/// Kleinschreibung gleicht. Ein Pfad, der keinem angehakten gleicht, gehört
/// bei nicht leerer Auswahl nicht dazu; ohne Auswahl gehört jeder dazu.
pub proof fn jeder_angehakte_pfad_ist_ausgewaehlt(pfad: Seq<char>, a: CleanRequest, k: int)
    ensures
        0 <= k < a.only_paths@.len() && zeichen::klein_folge(a.only_paths@[k]@) == zeichen::klein_folge(pfad)
            ==> ausgewaehlt(pfad, a),
        0 <= k < a.only_paths@.len() ==> ausgewaehlt(a.only_paths@[k]@, a),
        a.only_paths@.len() == 0 ==> ausgewaehlt(pfad, a),
        a.only_paths@.len() > 0
            && (forall|j: int| 0 <= j < a.only_paths@.len() ==> zeichen::klein_folge(#[trigger] a.only_paths@[j]@) != zeichen::klein_folge(pfad))
            ==> !ausgewaehlt(pfad, a),
{
    if 0 <= k < a.only_paths@.len() {
        assert(i18n::gleich_ohne_gross(a.only_paths@[k]@, a.only_paths@[k]@));
    }
}

/// Ein Treffer einer Dateiregel wird angefasst: noch nicht gesehen, alt
/// genug, nicht ausgeschlossen, bei rekursiven Mustern (`**`) nur Dateien –
/// die Ordnerstruktur bleibt –, und ausgewählt.
pub open spec fn anfassen(regel: FileRule, pfad: Seq<char>, alter: Option<u64>, ist_ordner: bool,
    schon_gesehen: bool, a: CleanRequest) -> bool {
    &&& !schon_gesehen
    &&& fsutil::alt_genug(alter, regel.min_age_days)
    &&& !types::ausgeschlossen(regel.exclude@, pfad)
    &&& !(zeichen::enthaelt(regel.pattern@, "**"@) && ist_ordner)
    &&& ausgewaehlt(pfad, a)
}

/// Entscheidet für einen Treffer einer Dateiregel, ob er gelöscht wird.
pub fn eintrag_anfassen(regel: &FileRule, pfad: &str, alter: Option<u64>, ist_ordner: bool,
    schon_gesehen: bool, anfrage: &CleanRequest) -> (r: bool)
    ensures
        r == anfassen(*regel, pfad@, alter, ist_ordner, schon_gesehen, *anfrage),
{
    if schon_gesehen {
        return false;
    }
    if !is_older_than(alter, regel.min_age_days) {
        return false;
    }
    if regel.is_excluded(pfad) {
        return false;
    }
    let nur_dateien = enthaelt_folge(&zeichen_von(regel.pattern), &zeichen_von("**"));
    if nur_dateien && ist_ordner {
        return false;
    }
    path_selected(pfad, anfrage)
}

/// Ein leeres, noch nicht gescheitertes Ergebnis für ein Ziel.
pub fn neues_ergebnis(ziel: &Target) -> (r: TargetClean)
    ensures
        r.key@ == ziel.key@,
        r.category == ziel.category,
        r.ok,
        !r.skipped,
        r.skip_reason@.len() == 0,
        r.freed == 0,
        r.removed_items == 0,
        r.locked_items == 0,
        r.denied_items == 0,
        r.blocked_items == 0,
        r.errors@.len() == 0,
{
    TargetClean {
        key: ziel.key.to_owned(),
        category: ziel.category,
        ok: true,
        skipped: false,
        skip_reason: String::new(),
        freed: 0,
        removed_items: 0,
        locked_items: 0,
        denied_items: 0,
        blocked_items: 0,
        errors: Vec::new(),
    }
}

/// Vorprüfung eines Ziels: ohne nötige Rechte wird es übersprungen, ebenso
/// Installationsdateien ohne ausdrückliche Auswahl – sie werden nie pauschal
/// gelöscht.
pub open spec fn vorab_uebersprungen(ziel: Target, erhoeht: bool, a: CleanRequest) -> Option<Seq<char>> {
    if ziel.requires_admin && !erhoeht {
        Some("skip.needs_admin"@)
    } else if types::nur_vorschlag(ziel) && a.only_paths@.len() == 0 {
        Some("skip.needs_explicit_selection"@)
    } else {
        None
    }
}

/// Vorprüfung vor der Bereinigung eines Ziels: `Some` mit dem übersprungenen
/// Ergebnis, sonst `None`.
pub fn vorpruefung(ziel: &Target, erhoeht: bool, anfrage: &CleanRequest) -> (r: Option<TargetClean>)
    ensures
        match vorab_uebersprungen(*ziel, erhoeht, *anfrage) {
            Some(g) => r matches Some(e) && e.skipped && e.ok && e.skip_reason@ == g && e.key@ == ziel.key@
                && e.category == ziel.category && e.freed == 0 && e.removed_items == 0 && e.errors@.len() == 0
                && e.locked_items == 0 && e.denied_items == 0 && e.blocked_items == 0,
            None => r is None,
        },
{
    if ziel.requires_admin && !erhoeht {
        return Some(TargetClean::skipped(ziel.key, ziel.category, "skip.needs_admin"));
    }
    if ziel.is_suggestion_only() && anfrage.only_paths.len() == 0 {
        return Some(TargetClean::skipped(ziel.key, ziel.category, "skip.needs_explicit_selection"));
    }
    None
}

/// Den Ausgang eines Löschversuchs verbuchen: Gelöschtes zählt mit Bytes,
/// Gesperrtes, Verweigertes und Blockiertes wird gezählt, Verschwundenes
/// nicht, und nur ein echter Fehler wird als Fehler vermerkt.
pub fn verbuche(ergebnis: &mut TargetClean, ausgang: Result<Removal, String>)
    requires
        match ausgang {
            Ok(Removal::Removed(b)) => old(ergebnis).freed + b <= u64::MAX && old(ergebnis).removed_items < usize::MAX,
            Ok(Removal::InUse) => old(ergebnis).locked_items < usize::MAX,
            Ok(Removal::Denied) => old(ergebnis).denied_items < usize::MAX,
            Ok(Removal::Blocked) => old(ergebnis).blocked_items < usize::MAX,
            _ => true,
        },
    ensures
        match ausgang {
            Ok(Removal::Removed(b)) => *final(ergebnis) == (TargetClean {
                freed: (old(ergebnis).freed + b) as u64,
                removed_items: (old(ergebnis).removed_items + 1) as usize,
                ..*old(ergebnis)
            }),
            Ok(Removal::InUse) => *final(ergebnis) == (TargetClean {
                locked_items: (old(ergebnis).locked_items + 1) as usize,
                ..*old(ergebnis)
            }),
            Ok(Removal::Denied) => *final(ergebnis) == (TargetClean {
                denied_items: (old(ergebnis).denied_items + 1) as usize,
                ..*old(ergebnis)
            }),
            Ok(Removal::Blocked) => *final(ergebnis) == (TargetClean {
                blocked_items: (old(ergebnis).blocked_items + 1) as usize,
                ..*old(ergebnis)
            }),
            Ok(Removal::Vanished) => *final(ergebnis) == *old(ergebnis),
            Err(f) => final(ergebnis).errors@ == old(ergebnis).errors@.push(f)
                && *final(ergebnis) == (TargetClean { errors: final(ergebnis).errors, ..*old(ergebnis) }),
        },
{
    match ausgang {
        Ok(Removal::Removed(bytes)) => {
            ergebnis.freed = ergebnis.freed + bytes;
            ergebnis.removed_items = ergebnis.removed_items + 1;
        },
        Ok(Removal::InUse) => ergebnis.locked_items = ergebnis.locked_items + 1,
        Ok(Removal::Denied) => ergebnis.denied_items = ergebnis.denied_items + 1,
        Ok(Removal::Blocked) => ergebnis.blocked_items = ergebnis.blocked_items + 1,
        Ok(Removal::Vanished) => {},
        Err(fehler) => ergebnis.errors.push(fehler),
    }
}

/// Ein Ziel abschließen: es ist gelungen, wenn kein Fehler vermerkt wurde.
pub fn abschliessen(ergebnis: &mut TargetClean)
    ensures
        *final(ergebnis) == (TargetClean { ok: old(ergebnis).errors@.len() == 0, ..*old(ergebnis) }),
{
    ergebnis.ok = ergebnis.errors.len() == 0;
}

// ---------------------------------------------------------------------------
// Dienste, Befehle und Registry
// ---------------------------------------------------------------------------

/// Vor dem Löschen werden die Dienste eines Ziels angehalten – nur wenn es
/// welche hat und nicht im Trockenlauf.
pub fn dienste_anhalten(ziel: &Target, anfrage: &CleanRequest) -> (r: bool)
    ensures
        r == (ziel.services@.len() > 0 && !anfrage.dry_run),
{
    ziel.services.len() > 0 && !anfrage.dry_run
}

/// Eine Fehlermeldung mit Übersetzungsschlüssel: `schluessel|meldung`.
pub open spec fn mit_schluessel(schluessel: Seq<char>, meldung: Seq<char>) -> Seq<char> {
    schluessel + "|"@ + meldung
}

fn schluesselmeldung(schluessel: &str, meldung: &str) -> (r: String)
    ensures
        r@ == mit_schluessel(schluessel@, meldung@),
{
    let mut r = schluessel.to_owned();
    text_anhaengen(&mut r, "|");
    text_anhaengen(&mut r, meldung);
    r
}

/// Scheitert das Anhalten der Dienste, wird nichts gelöscht: das Ziel ist
/// gescheitert, mit der Meldung des Befehls.
pub fn dienststopp_gescheitert(ergebnis: &mut TargetClean, ausgabe: &Output)
    ensures
        *final(ergebnis) == (TargetClean { ok: false, errors: final(ergebnis).errors, ..*old(ergebnis) }),
        final(ergebnis).errors@.drop_last() == old(ergebnis).errors@,
        final(ergebnis).errors@.len() == old(ergebnis).errors@.len() + 1,
        final(ergebnis).errors@.last()@ == mit_schluessel("error.service_stop"@, process::meldung_von(*ausgabe)),
{
    let meldung = ausgabe.message();
    let ghost vorher = ergebnis.errors@;
    ergebnis.ok = false;
    ergebnis.errors.push(schluesselmeldung("error.service_stop", meldung.as_str()));
    assert(ergebnis.errors@.drop_last() =~= vorher);
}

/// Laufen die Dienste danach nicht wieder an, wird das als Fehler vermerkt.
pub fn dienststart_gescheitert(ergebnis: &mut TargetClean, ausgabe: &Output)
    ensures
        *final(ergebnis) == (TargetClean { errors: final(ergebnis).errors, ..*old(ergebnis) }),
        final(ergebnis).errors@.drop_last() == old(ergebnis).errors@,
        final(ergebnis).errors@.len() == old(ergebnis).errors@.len() + 1,
        final(ergebnis).errors@.last()@ == mit_schluessel("error.service_start"@, process::meldung_von(*ausgabe)),
{
    let meldung = ausgabe.message();
    let ghost vorher = ergebnis.errors@;
    ergebnis.errors.push(schluesselmeldung("error.service_start", meldung.as_str()));
    assert(ergebnis.errors@.drop_last() =~= vorher);
}

/// Ausgang eines Befehlsziels: im Trockenlauf (ohne Ausgabe) und bei Erfolg
/// ein Eintrag ohne messbare Größe, sonst die Meldung des Befehls.
pub fn befehlsausgang(ausgabe: Option<&Output>) -> (r: Result<Removal, String>)
    ensures
        match ausgabe {
            None => r == Ok::<Removal, String>(Removal::Removed(0)),
            Some(o) => if o.code == 0 {
                r == Ok::<Removal, String>(Removal::Removed(0))
            } else {
                r matches Err(m) && m@ == process::meldung_von(*o)
            },
        },
{
    match ausgabe {
        None => Ok(Removal::Removed(0)),
        Some(o) => if o.ok() {
            Ok(Removal::Removed(0))
        } else {
            Err(o.message())
        },
    }
}

/// Ohne Sicherung wird die Registry nicht angefasst: vor dem ersten echten
/// Eingriff eines Laufs wird gesichert, nie im Trockenlauf.
pub fn sicherung_noetig(anfrage: &CleanRequest, sicherung: &Option<String>) -> (r: bool)
    ensures
        r == (!anfrage.dry_run && sicherung is None),
{
    !anfrage.dry_run && sicherung.is_none()
}

/// Scheitert die Sicherung, ist das Registry-Ziel gescheitert.
pub fn sicherung_gescheitert(ergebnis: &mut TargetClean, fehler: &str)
    ensures
        *final(ergebnis) == (TargetClean { ok: false, errors: final(ergebnis).errors, ..*old(ergebnis) }),
        final(ergebnis).errors@.drop_last() == old(ergebnis).errors@,
        final(ergebnis).errors@.len() == old(ergebnis).errors@.len() + 1,
        final(ergebnis).errors@.last()@ == mit_schluessel("error.registry_backup"@, fehler@),
{
    let ghost vorher = ergebnis.errors@;
    ergebnis.ok = false;
    ergebnis.errors.push(schluesselmeldung("error.registry_backup", fehler));
    assert(ergebnis.errors@.drop_last() =~= vorher);
}

/// Ein Registry-Treffer gehört zur Auswahl: ohne Auswahl jeder, sonst nur
/// einer mit genau diesem Pfad.
pub open spec fn registry_gewaehlt(pfad: Seq<char>, a: CleanRequest) -> bool {
    a.only_paths@.len() == 0 || exists|i: int| 0 <= i < a.only_paths@.len() && #[trigger] a.only_paths@[i]@ == pfad
}

pub open spec fn registry_filter(a: CleanRequest) -> spec_fn((Seq<char>, u64, Seq<char>, Option<String>)) -> bool {
    |t: (Seq<char>, u64, Seq<char>, Option<String>)| registry_gewaehlt(t.0, a)
}

fn registry_gewaehlt_von(pfad: &str, anfrage: &CleanRequest) -> (r: bool)
    ensures
        r == registry_gewaehlt(pfad@, *anfrage),
{
    if anfrage.only_paths.len() == 0 {
        return true;
    }
    let mut i: usize = 0;
    while i < anfrage.only_paths.len()
        invariant
            i <= anfrage.only_paths@.len(),
            forall|k: int| 0 <= k < i ==> #[trigger] anfrage.only_paths@[k]@ != pfad@,
        decreases anfrage.only_paths@.len() - i,
    {
        if zeichen::gleich(anfrage.only_paths[i].as_str(), pfad) {
            return true;
        }
        i = i + 1;
    }
    false
}

/// Die Registry-Treffer, die zur Auswahl gehören, in ihrer Reihenfolge.
pub fn registry_auswahl(treffer: Vec<ScanItem>, anfrage: &CleanRequest) -> (r: Vec<ScanItem>)
    ensures
        types::sichten(r@) == types::sichten(treffer@).filter(registry_filter(*anfrage)),
{
    let ghost s = types::sichten(treffer@);
    let ghost n = treffer@.len();
    let mut offen = treffer;
    let mut r: Vec<ScanItem> = Vec::new();
    proof {
        reveal(Seq::filter);
        assert(s.subrange(0, 0) =~= Seq::<(Seq<char>, u64, Seq<char>, Option<String>)>::empty());
        assert(types::sichten(r@) =~= s.subrange(0, 0).filter(registry_filter(*anfrage)));
        assert(types::sichten(offen@) =~= s.subrange(0, n as int));
    }
    while offen.len() > 0
        invariant
            offen@.len() <= n,
            n == s.len(),
            types::sichten(offen@) == s.subrange(n - offen@.len(), n as int),
            types::sichten(r@) == s.subrange(0, n - offen@.len()).filter(registry_filter(*anfrage)),
        decreases offen@.len(),
    {
        let ghost k = n - offen@.len();
        let ghost alt = offen@;
        let x = offen.remove(0);
        proof {
            reveal(Seq::filter);
            assert(types::sichten(alt)[0] == types::sicht(alt[0]));
            assert(s.subrange(k, n as int)[0] == s[k]);
            assert(types::sicht(x) == s[k]);
            assert(offen@ =~= alt.subrange(1, alt.len() as int));
            assert forall|j: int| 0 <= j < offen@.len() implies #[trigger] types::sichten(offen@)[j] == s.subrange(k + 1, n as int)[j] by {
                assert(types::sichten(alt)[j + 1] == types::sicht(alt[j + 1]));
                assert(s.subrange(k, n as int)[j + 1] == s[k + 1 + j]);
            }
            assert(types::sichten(offen@) =~= s.subrange(k + 1, n as int));
            assert(s.subrange(0, k + 1).drop_last() =~= s.subrange(0, k));
            assert(s.subrange(0, k + 1).last() == s[k]);
        }
        if registry_gewaehlt_von(x.path.as_str(), anfrage) {
            let ghost vorher = r@;
            r.push(x);
            proof {
                assert(types::sichten(r@) =~= types::sichten(vorher).push(types::sicht(x)));
            }
        }
    }
    proof {
        assert(s.subrange(0, n as int) =~= s);
    }
    r
}

/// Das Ergebnis der Registry-Bereinigung übernehmen: zuerst die Warnungen
/// der Analyse, dann die Fehler beim Löschen; gezählt wird, was entfernt
/// wurde.
pub fn registry_verbuchen(ergebnis: &mut TargetClean, warnungen: &Vec<String>, entfernt: usize, fehler: &Vec<String>)
    ensures
        *final(ergebnis) == (TargetClean { removed_items: entfernt, errors: final(ergebnis).errors, ..*old(ergebnis) }),
        zeichen::text_folgen(final(ergebnis).errors@) == zeichen::text_folgen(old(ergebnis).errors@)
            + zeichen::text_folgen(warnungen@) + zeichen::text_folgen(fehler@),
{
    ergebnis.removed_items = entfernt;
    let ghost anfang = zeichen::text_folgen(ergebnis.errors@);
    let ghost fest = *ergebnis;
    let mut i: usize = 0;
    while i < warnungen.len()
        invariant
            i <= warnungen@.len(),
            *ergebnis == (TargetClean { errors: ergebnis.errors, ..fest }),
            zeichen::text_folgen(ergebnis.errors@) == anfang + zeichen::text_folgen(warnungen@.subrange(0, i as int)),
        decreases warnungen@.len() - i,
    {
        let ghost davor = ergebnis.errors@;
        ergebnis.errors.push(warnungen[i].as_str().to_owned());
        proof {
            assert(zeichen::text_folgen(ergebnis.errors@) =~= zeichen::text_folgen(davor).push(warnungen@[i as int]@));
            assert(zeichen::text_folgen(warnungen@.subrange(0, i + 1))
                =~= zeichen::text_folgen(warnungen@.subrange(0, i as int)).push(warnungen@[i as int]@));
        }
        i = i + 1;
    }
    proof {
        assert(warnungen@.subrange(0, i as int) =~= warnungen@);
    }
    let ghost mitte = zeichen::text_folgen(ergebnis.errors@);
    let mut j: usize = 0;
    while j < fehler.len()
        invariant
            j <= fehler@.len(),
            *ergebnis == (TargetClean { errors: ergebnis.errors, ..fest }),
            zeichen::text_folgen(ergebnis.errors@) == mitte + zeichen::text_folgen(fehler@.subrange(0, j as int)),
        decreases fehler@.len() - j,
    {
        let ghost davor = ergebnis.errors@;
        ergebnis.errors.push(fehler[j].as_str().to_owned());
        proof {
            assert(zeichen::text_folgen(ergebnis.errors@) =~= zeichen::text_folgen(davor).push(fehler@[j as int]@));
            assert(zeichen::text_folgen(fehler@.subrange(0, j + 1))
                =~= zeichen::text_folgen(fehler@.subrange(0, j as int)).push(fehler@[j as int]@));
        }
        j = j + 1;
    }
    proof {
        assert(fehler@.subrange(0, j as int) =~= fehler@);
    }
}

// ---------------------------------------------------------------------------
// Ablauf eines Ziels
// ---------------------------------------------------------------------------

/// Was die Anwendung als Nächstes für ein Ziel tun soll.
#[derive(Debug, Clone, Copy, PartialEq, Eq, Structural)]
pub enum Schritt {
    /// Die Dienste des Ziels anhalten.
    DiensteAnhalten,
    /// Die Treffer der Dateiregeln durchgehen; `nur_messen`: nichts löschen.
    Dateien { nur_messen: bool },
    /// Den Papierkorb leeren; `nur_messen`: nur seine Größe melden.
    PapierkorbLeeren { nur_messen: bool },
    /// Den Befehl des Ziels ausführen.
    BefehlAusfuehren,
    /// Den Befehl nicht ausführen, nur als Eintrag zählen (Trockenlauf).
    BefehlSimulieren,
    /// Die ausdrücklich gewählten Installationsdateien entfernen.
    Installationsdateien { nur_messen: bool },
    /// Die Registry-Schlüssel der Regeln sichern.
    RegistrySichern,
    /// Verwaiste Registry-Einträge suchen und entfernen.
    RegistryBereinigen { nur_messen: bool },
    /// Die angehaltenen Dienste wieder starten.
    DiensteStarten,
    /// Das Ziel ist abgeschlossen.
    Fertig,
}

/// Was die Anwendung zurückmeldet.
#[derive(Debug, Clone, Copy, PartialEq, Eq, Structural)]
pub enum Ereignis {
    /// Das Ziel beginnt (nach der Vorprüfung).
    Beginn,
    /// Die Dienste sind angehalten.
    DiensteAngehalten,
    /// Die Dienste ließen sich nicht anhalten.
    DienststoppGescheitert,
    /// Der Schritt der Zielart ist erledigt.
    ArbeitErledigt,
    /// Die Registry-Sicherung liegt vor.
    SicherungAngelegt,
    /// Die Registry-Sicherung ist gescheitert.
    SicherungGescheitert,
    /// Der Neustart der Dienste ist versucht worden.
    DiensteGestartet,
}

/// Der Stand eines Ziels im Lauf: sind seine Dienste angehalten, und gibt
/// es in diesem Lauf schon eine Registry-Sicherung.
#[derive(Debug, Clone, Copy, PartialEq, Eq, Structural)]
pub struct Bereinigungsstand {
    pub dienste_gestoppt: bool,
    pub sicherung_vorhanden: bool,
}

/// Der Schritt, der die eigentliche Arbeit der Zielart tut: im Trockenlauf
/// wird nur gemessen und kein Befehl ausgeführt; die Registry wird erst
/// gesichert, dann bereinigt.
pub open spec fn arbeit(ziel: Target, a: CleanRequest, stand: Bereinigungsstand) -> Schritt {
    match ziel.kind {
        TargetKind::Files(_) => Schritt::Dateien { nur_messen: a.dry_run },
        TargetKind::RecycleBin => Schritt::PapierkorbLeeren { nur_messen: a.dry_run },
        TargetKind::Command(_) => if a.dry_run { Schritt::BefehlSimulieren } else { Schritt::BefehlAusfuehren },
        TargetKind::Installers => Schritt::Installationsdateien { nur_messen: a.dry_run },
        TargetKind::Registry(_) => if !a.dry_run && !stand.sicherung_vorhanden {
            Schritt::RegistrySichern
        } else {
            Schritt::RegistryBereinigen { nur_messen: a.dry_run }
        },
    }
}

/// Der nächste Stand und Schritt nach einem Ereignis.
///
/// Dienste werden nur außerhalb des Trockenlaufs angehalten; scheitert das,
/// ist das Ziel beendet, bevor etwas gelöscht wird. Scheitert die Sicherung,
/// wird die Registry nicht angefasst. Angehaltene Dienste werden nach der
/// Arbeit wieder gestartet.
pub open spec fn nach_ereignis(ziel: Target, a: CleanRequest, stand: Bereinigungsstand, e: Ereignis)
    -> (Bereinigungsstand, Schritt) {
    match e {
        Ereignis::Beginn => if ziel.services@.len() > 0 && !a.dry_run {
            (stand, Schritt::DiensteAnhalten)
        } else {
            (stand, arbeit(ziel, a, stand))
        },
        Ereignis::DiensteAngehalten => {
            let neu = Bereinigungsstand { dienste_gestoppt: true, ..stand };
            (neu, arbeit(ziel, a, neu))
        },
        Ereignis::DienststoppGescheitert => (stand, Schritt::Fertig),
        Ereignis::SicherungAngelegt => {
            let neu = Bereinigungsstand { sicherung_vorhanden: true, ..stand };
            (neu, Schritt::RegistryBereinigen { nur_messen: a.dry_run })
        },
        Ereignis::SicherungGescheitert => (stand, Schritt::Fertig),
        Ereignis::ArbeitErledigt => if stand.dienste_gestoppt {
            (stand, Schritt::DiensteStarten)
        } else {
            (stand, Schritt::Fertig)
        },
        Ereignis::DiensteGestartet => (Bereinigungsstand { dienste_gestoppt: false, ..stand }, Schritt::Fertig),
    }
}

/// Der nächste Schritt der Bereinigung eines Ziels; die Anwendung führt ihn
/// aus und meldet das Ergebnis als nächstes Ereignis.
pub fn naechster_schritt(ziel: &Target, anfrage: &CleanRequest, stand: Bereinigungsstand, ereignis: Ereignis)
    -> (r: (Bereinigungsstand, Schritt))
    ensures
        r == nach_ereignis(*ziel, *anfrage, stand, ereignis),
{
    let arbeit_fuer = |s: Bereinigungsstand| -> (r: Schritt)
        ensures
            r == arbeit(*ziel, *anfrage, s),
    {
        match &ziel.kind {
            TargetKind::Files(_) => Schritt::Dateien { nur_messen: anfrage.dry_run },
            TargetKind::RecycleBin => Schritt::PapierkorbLeeren { nur_messen: anfrage.dry_run },
            TargetKind::Command(_) => if anfrage.dry_run { Schritt::BefehlSimulieren } else { Schritt::BefehlAusfuehren },
            TargetKind::Installers => Schritt::Installationsdateien { nur_messen: anfrage.dry_run },
            TargetKind::Registry(_) => if !anfrage.dry_run && !s.sicherung_vorhanden {
                Schritt::RegistrySichern
            } else {
                Schritt::RegistryBereinigen { nur_messen: anfrage.dry_run }
            },
        }
    };
    match ereignis {
        Ereignis::Beginn => if dienste_anhalten(ziel, anfrage) {
            (stand, Schritt::DiensteAnhalten)
        } else {
            (stand, arbeit_fuer(stand))
        },
        Ereignis::DiensteAngehalten => {
            let neu = Bereinigungsstand { dienste_gestoppt: true, ..stand };
            (neu, arbeit_fuer(neu))
        },
        Ereignis::DienststoppGescheitert => (stand, Schritt::Fertig),
        Ereignis::SicherungAngelegt => {
            let neu = Bereinigungsstand { sicherung_vorhanden: true, ..stand };
            (neu, Schritt::RegistryBereinigen { nur_messen: anfrage.dry_run })
        },
        Ereignis::SicherungGescheitert => (stand, Schritt::Fertig),
        Ereignis::ArbeitErledigt => if stand.dienste_gestoppt {
            (stand, Schritt::DiensteStarten)
        } else {
            (stand, Schritt::Fertig)
        },
        Ereignis::DiensteGestartet => (Bereinigungsstand { dienste_gestoppt: false, ..stand }, Schritt::Fertig),
    }
}

/// Ein Trockenlauf verändert nichts: er hält keine Dienste an, führt keinen
/// Befehl aus, legt keine Sicherung an, und jeder Schritt, der löschen
/// könnte, misst nur.
pub proof fn trockenlauf_veraendert_nichts(ziel: Target, a: CleanRequest, stand: Bereinigungsstand, e: Ereignis)
    requires
        a.dry_run,
    ensures
        ({
            let s = nach_ereignis(ziel, a, stand, e).1;
            &&& s != Schritt::DiensteAnhalten
            &&& s != Schritt::BefehlAusfuehren
            &&& s != Schritt::RegistrySichern
            &&& s != Schritt::Dateien { nur_messen: false }
            &&& s != Schritt::PapierkorbLeeren { nur_messen: false }
            &&& s != Schritt::Installationsdateien { nur_messen: false }
            &&& s != Schritt::RegistryBereinigen { nur_messen: false }
        }),
{
}

/// Die Registry wird nur verändert, wenn es in diesem Lauf eine Sicherung
/// gibt; scheitert die Sicherung, ist das Ziel beendet.
pub proof fn registry_nur_mit_sicherung(ziel: Target, a: CleanRequest, stand: Bereinigungsstand, e: Ereignis)
    ensures
        nach_ereignis(ziel, a, stand, e).1 == (Schritt::RegistryBereinigen { nur_messen: false })
            ==> nach_ereignis(ziel, a, stand, e).0.sicherung_vorhanden,
        e == Ereignis::SicherungGescheitert ==> nach_ereignis(ziel, a, stand, e).1 == Schritt::Fertig,
{
}

/// Scheitert das Anhalten der Dienste, ist das Ziel beendet, bevor etwas
/// gelöscht wird; angehaltene Dienste werden nach der Arbeit wieder
/// gestartet, bevor das Ziel endet.
pub proof fn dienste_werden_nie_halb_behandelt(ziel: Target, a: CleanRequest, stand: Bereinigungsstand, e: Ereignis)
    ensures
        e == Ereignis::DienststoppGescheitert ==> nach_ereignis(ziel, a, stand, e).1 == Schritt::Fertig,
        e == Ereignis::ArbeitErledigt && stand.dienste_gestoppt ==> nach_ereignis(ziel, a, stand, e).1 == Schritt::DiensteStarten,
        nach_ereignis(ziel, a, stand, e).1 == Schritt::Fertig && nach_ereignis(ziel, a, stand, e).0.dienste_gestoppt
            ==> e == Ereignis::DienststoppGescheitert || e == Ereignis::SicherungGescheitert,
{
}

// ---------------------------------------------------------------------------
// Gesamtbericht
// ---------------------------------------------------------------------------

/// Summe einer Größe über alle Zielergebnisse.
pub open spec fn summe(e: Seq<TargetClean>, f: spec_fn(TargetClean) -> nat) -> nat
    decreases e.len(),
{
    if e.len() == 0 { 0 } else { summe(e.drop_last(), f) + f(e.last()) }
}

/// Gescheitert ist ein Ziel, das nicht gelang und nicht übersprungen wurde.
pub open spec fn gescheitert(z: TargetClean) -> bool {
    !z.ok && !z.skipped
}

/// Die Schlüssel der gescheiterten Ziele, in Reihenfolge.
pub open spec fn gescheiterte(e: Seq<TargetClean>) -> Seq<Seq<char>>
    decreases e.len(),
{
    if e.len() == 0 {
        seq![]
    } else if gescheitert(e.last()) {
        gescheiterte(e.drop_last()).push(e.last().key@)
    } else {
        gescheiterte(e.drop_last())
    }
}

/// Die Summen passen in ihre Zahlentypen.
pub open spec fn summen_passen(e: Seq<TargetClean>) -> bool {
    &&& summe(e, |z: TargetClean| z.freed as nat) <= u64::MAX
    &&& summe(e, |z: TargetClean| z.removed_items as nat) <= usize::MAX
    &&& summe(e, |z: TargetClean| z.locked_items as nat) <= usize::MAX
    &&& summe(e, |z: TargetClean| z.denied_items as nat) <= usize::MAX
    &&& summe(e, |z: TargetClean| z.blocked_items as nat) <= usize::MAX
}

proof fn lemma_summe_anfang(e: Seq<TargetClean>, f: spec_fn(TargetClean) -> nat, k: int)
    requires
        0 <= k <= e.len(),
    ensures
        summe(e.subrange(0, k), f) <= summe(e, f),
    decreases e.len() - k,
{
    if k < e.len() {
        lemma_summe_anfang(e, f, k + 1);
        assert(e.subrange(0, k + 1).drop_last() =~= e.subrange(0, k));
    } else {
        assert(e.subrange(0, k) =~= e);
    }
}

/// Der Gesamtbericht zu den Zielergebnissen: erfolgreich, wenn nichts
/// scheiterte und nicht abgebrochen wurde; die Summen über alle Ziele; und
/// als Fehler die Liste der gescheiterten Schlüssel.
pub fn bericht_zusammenfassen(ergebnisse: Vec<TargetClean>, abgebrochen: bool, dauer_ms: u64,
    sicherung: Option<String>) -> (r: CleanReport)
    requires
        summen_passen(ergebnisse@),
    ensures
        r.success == (gescheiterte(ergebnisse@).len() == 0 && !abgebrochen),
        r.targets@ == ergebnisse@,
        r.total_freed == summe(ergebnisse@, |z: TargetClean| z.freed as nat),
        r.total_removed == summe(ergebnisse@, |z: TargetClean| z.removed_items as nat),
        r.total_locked == summe(ergebnisse@, |z: TargetClean| z.locked_items as nat),
        r.total_denied == summe(ergebnisse@, |z: TargetClean| z.denied_items as nat),
        r.total_blocked == summe(ergebnisse@, |z: TargetClean| z.blocked_items as nat),
        r.error@ == (if gescheiterte(ergebnisse@).len() == 0 { seq![] } else {
            "clean.failed|"@ + zeichen::verbunden(gescheiterte(ergebnisse@), ", "@)
        }),
        r.duration_ms == dauer_ms,
        r.cancelled == abgebrochen,
        r.registry_backup == sicherung,
{
    let ghost e = ergebnisse@;
    let mut freed: u64 = 0;
    let mut removed: usize = 0;
    let mut locked: usize = 0;
    let mut denied: usize = 0;
    let mut blocked: usize = 0;
    let mut fehlgeschlagen: Vec<Vec<char>> = Vec::new();
    let mut i: usize = 0;
    while i < ergebnisse.len()
        invariant
            i <= ergebnisse@.len(),
            e == ergebnisse@,
            summen_passen(e),
            freed == summe(e.subrange(0, i as int), |z: TargetClean| z.freed as nat),
            removed == summe(e.subrange(0, i as int), |z: TargetClean| z.removed_items as nat),
            locked == summe(e.subrange(0, i as int), |z: TargetClean| z.locked_items as nat),
            denied == summe(e.subrange(0, i as int), |z: TargetClean| z.denied_items as nat),
            blocked == summe(e.subrange(0, i as int), |z: TargetClean| z.blocked_items as nat),
            zeichen::ansichten(fehlgeschlagen@) == gescheiterte(e.subrange(0, i as int)),
        decreases ergebnisse@.len() - i,
    {
        proof {
            assert(e.subrange(0, i + 1).drop_last() =~= e.subrange(0, i as int));
            lemma_summe_anfang(e, |z: TargetClean| z.freed as nat, i + 1);
            lemma_summe_anfang(e, |z: TargetClean| z.removed_items as nat, i + 1);
            lemma_summe_anfang(e, |z: TargetClean| z.locked_items as nat, i + 1);
            lemma_summe_anfang(e, |z: TargetClean| z.denied_items as nat, i + 1);
            lemma_summe_anfang(e, |z: TargetClean| z.blocked_items as nat, i + 1);
        }
        let z = &ergebnisse[i];
        freed = freed + z.freed;
        removed = removed + z.removed_items;
        locked = locked + z.locked_items;
        denied = denied + z.denied_items;
        blocked = blocked + z.blocked_items;
        if !z.ok && !z.skipped {
            let ghost vorher = fehlgeschlagen@;
            fehlgeschlagen.push(zeichen_von(z.key.as_str()));
            assert(zeichen::ansichten(fehlgeschlagen@) =~= zeichen::ansichten(vorher).push(z.key@));
        }
        i = i + 1;
    }
    assert(e.subrange(0, i as int) =~= e);
    let fehler = if fehlgeschlagen.len() == 0 {
        String::new()
    } else {
        let mut t = "clean.failed|".to_owned();
        let liste = text_aus(&zeichen::verbinde(&fehlgeschlagen, &zeichen_von(", ")));
        text_anhaengen(&mut t, liste.as_str());
        t
    };
    CleanReport {
        success: fehlgeschlagen.len() == 0 && !abgebrochen,
        targets: ergebnisse,
        total_freed: freed,
        total_removed: removed,
        total_locked: locked,
        total_denied: denied,
        total_blocked: blocked,
        duration_ms: dauer_ms,
        cancelled: abgebrochen,
        registry_backup: sicherung,
        error: fehler,
    }
}

} // verus!
