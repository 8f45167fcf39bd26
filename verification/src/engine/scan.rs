//! Analysephase: ermitteln, was bereinigt werden könnte – ohne etwas zu
//! ändern.
//!
//! Der Scan ist nebenwirkungsfrei: er ist die Grundlage dafür, dass der
//! Nutzer vor jeder Löschung sieht, worum es geht und wie viel es bringt.
//! Hier stehen seine Regeln – welche Ziele, welche Treffer zählen, wie sich
//! Größen summieren; das Durchlaufen des Dateisystems gehört zur Anwendung.

use vstd::prelude::*;
use crate::zeichen;
use crate::zeichen::{folge_anhaengen, text_aus, text_von, verbinde, zeichen_von};
use crate::engine::catalog;
use crate::engine::catalog::{target_by_key, targets, ANZAHL};
use crate::engine::fsutil;
use crate::engine::types::{FileRule, ScanItem, ScanReport, Target, TargetKind, TargetScan};
use crate::engine::types;

verus! {

/// Höchstzahl gemeldeter Einzeltreffer je Ziel. Ein Browser-Cache hat
/// schnell 50 000 Dateien; `item_count` und `size` bleiben vollständig.
pub const MAX_ITEMS_PER_TARGET: usize = 200;

/// Die Katalogzeilen zu den angegebenen Schlüsseln, unbekannte übergangen.
pub open spec fn zeilen_zu(keys: Seq<String>) -> Seq<int>
    decreases keys.len(),
{
    if keys.len() == 0 {
        seq![]
    } else {
        let davor = zeilen_zu(keys.drop_last());
        match catalog::zeile_ab(catalog::schluesselform(keys.last()@), 0) {
            Some(i) => davor.push(i),
            None => davor,
        }
    }
}

/// Die Ziele einer Analyse: ohne Schlüssel der ganze Katalog in seiner
/// Reihenfolge, sonst die bekannten unter den angegebenen.
pub fn scanziele(keys: &Vec<String>) -> (r: Vec<Target>)
    ensures
        keys@.len() == 0 ==> r@.len() == ANZAHL
            && forall|i: int| 0 <= i < ANZAHL ==> #[trigger] catalog::ziel_passt(r@[i], i),
        keys@.len() > 0 ==> r@.len() == zeilen_zu(keys@).len()
            && forall|i: int| 0 <= i < r@.len() ==> #[trigger] catalog::ziel_passt(r@[i], zeilen_zu(keys@)[i]),
{
    if keys.len() == 0 {
        return targets();
    }
    let mut r: Vec<Target> = Vec::new();
    let mut i: usize = 0;
    while i < keys.len()
        invariant
            i <= keys@.len(),
            r@.len() == zeilen_zu(keys@.subrange(0, i as int)).len(),
            forall|k: int| 0 <= k < r@.len() ==> #[trigger] catalog::ziel_passt(r@[k], zeilen_zu(keys@.subrange(0, i as int))[k]),
        decreases keys@.len() - i,
    {
        let ghost vor = r@;
        assert(keys@.subrange(0, i + 1).drop_last() =~= keys@.subrange(0, i as int));
        match target_by_key(keys[i].as_str()) {
            Some(t) => {
                r.push(t);
                assert forall|k: int| 0 <= k < r@.len() implies #[trigger] catalog::ziel_passt(r@[k], zeilen_zu(keys@.subrange(0, i + 1))[k]) by {
                    if k < vor.len() {
                        assert(r@[k] == vor[k]);
                    }
                }
            },
            None => {},
        }
        i = i + 1;
    }
    assert(keys@.subrange(0, i as int) =~= keys@);
    r
}

/// Das Ergebnis vor der Analyse eines Ziels: noch nichts gefunden.
pub fn neues_scanergebnis(ziel: &Target) -> (r: TargetScan)
    ensures
        r.key@ == ziel.key@,
        r.category == ziel.category,
        r.risk == ziel.risk,
        r.requires_admin == ziel.requires_admin,
        r.default_enabled == ziel.default_enabled,
        r.suggestion_only == types::nur_vorschlag(*ziel),
        r.item_count == 0,
        r.size == 0,
        r.items@.len() == 0,
        !r.skipped,
        r.skip_reason@.len() == 0,
        r.warnings@.len() == 0,
{
    TargetScan {
        key: text_von(ziel.key),
        category: ziel.category,
        risk: ziel.risk,
        requires_admin: ziel.requires_admin,
        default_enabled: ziel.default_enabled,
        suggestion_only: ziel.is_suggestion_only(),
        item_count: 0,
        size: 0,
        items: Vec::new(),
        skipped: false,
        skip_reason: String::new(),
        warnings: Vec::new(),
    }
}

/// Ein Ziel, das Administratorrechte braucht, wird ohne sie übersprungen.
pub fn scan_vorpruefen(ziel: &Target, erhoeht: bool) -> (r: Option<TargetScan>)
    ensures
        r is Some <==> (ziel.requires_admin && !erhoeht),
        r matches Some(s) ==> s.skipped && s.skip_reason@ == "skip.needs_admin"@ && s.key@ == ziel.key@
            && s.size == 0 && s.item_count == 0,
        r matches Some(s) ==> s.category == ziel.category && s.risk == ziel.risk
            && s.requires_admin == ziel.requires_admin && s.default_enabled == ziel.default_enabled
            && s.suggestion_only == types::nur_vorschlag(*ziel) && s.items@.len() == 0 && s.warnings@.len() == 0,
{
    if ziel.requires_admin && !erhoeht {
        Some(TargetScan::skipped(ziel, "skip.needs_admin"))
    } else {
        None
    }
}

/// Die Warnung, dass Programme laufen, die Dateien des Ziels sperren.
pub open spec fn prozesswarnung(laufend: Seq<Seq<char>>) -> Seq<char> {
    "warn.process_running|"@ + zeichen::verbunden(laufend, ", "@)
}

/// Laufende Programme sperren ihre Cache-Dateien – das ist kein Fehler, aber
/// der Nutzer soll es wissen: ohne laufende Programme keine Warnung.
pub fn prozesse_melden(ergebnis: &mut TargetScan, laufend: &Vec<Vec<char>>)
    ensures
        laufend@.len() == 0 ==> final(ergebnis).warnings@ == old(ergebnis).warnings@,
        laufend@.len() > 0 ==> final(ergebnis).warnings@.len() == old(ergebnis).warnings@.len() + 1
            && final(ergebnis).warnings@.drop_last() == old(ergebnis).warnings@
            && final(ergebnis).warnings@.last()@ == prozesswarnung(zeichen::ansichten(laufend@)),
        final(ergebnis).key == old(ergebnis).key,
        final(ergebnis).size == old(ergebnis).size,
        final(ergebnis).item_count == old(ergebnis).item_count,
        final(ergebnis).items == old(ergebnis).items,
        final(ergebnis).skipped == old(ergebnis).skipped,
        *final(ergebnis) == (TargetScan { warnings: final(ergebnis).warnings, ..*old(ergebnis) }),
{
    if laufend.len() == 0 {
        return;
    }
    let mut v = zeichen_von("warn.process_running|");
    let liste = verbinde(laufend, &zeichen_von(", "));
    folge_anhaengen(&mut v, &liste);
    let ghost vor = ergebnis.warnings@;
    ergebnis.warnings.push(text_aus(&v));
    assert(ergebnis.warnings@.drop_last() =~= vor);
}

/// Ein gefundener Eintrag zählt: Größe und Anzahl wachsen, gemeldet wird er
/// nur, solange die Trefferliste nicht voll ist.
pub fn treffer_verbuchen(ergebnis: &mut TargetScan, pfad: &str, groesse: u64)
    requires
        old(ergebnis).size + groesse <= u64::MAX,
        old(ergebnis).item_count < usize::MAX,
    ensures
        final(ergebnis).size == old(ergebnis).size + groesse,
        final(ergebnis).item_count == old(ergebnis).item_count + 1,
        old(ergebnis).items@.len() < MAX_ITEMS_PER_TARGET ==> final(ergebnis).items@.len() == old(ergebnis).items@.len() + 1
            && final(ergebnis).items@.drop_last() == old(ergebnis).items@
            && final(ergebnis).items@.last().path@ == pfad@
            && final(ergebnis).items@.last().size == groesse,
        old(ergebnis).items@.len() >= MAX_ITEMS_PER_TARGET ==> final(ergebnis).items@ == old(ergebnis).items@,
        final(ergebnis).key == old(ergebnis).key,
        final(ergebnis).warnings == old(ergebnis).warnings,
        final(ergebnis).skipped == old(ergebnis).skipped,
        *final(ergebnis) == (TargetScan {
            size: final(ergebnis).size,
            item_count: final(ergebnis).item_count,
            items: final(ergebnis).items,
            ..*old(ergebnis)
        }),
{
    ergebnis.size = ergebnis.size + groesse;
    ergebnis.item_count = ergebnis.item_count + 1;
    if ergebnis.items.len() < MAX_ITEMS_PER_TARGET {
        let ghost vor = ergebnis.items@;
        ergebnis.items.push(ScanItem::new(pfad, groesse));
        assert(ergebnis.items@.drop_last() =~= vor);
    }
}

/// Ein Treffer einer Dateiregel zählt: noch nicht gesehen, kein geschützter
/// Pfad, alt genug, nicht ausgeschlossen und bei rekursiven Mustern kein
/// Ordner.
pub open spec fn zaehlt(regel: FileRule, pfad: Seq<char>, alter: Option<u64>, ist_ordner: bool, schon_gesehen: bool) -> bool {
    &&& !schon_gesehen
    &&& fsutil::erlaubt(pfad)
    &&& fsutil::alt_genug(alter, regel.min_age_days)
    &&& !types::ausgeschlossen(regel.exclude@, pfad)
    &&& !(zeichen::enthaelt(regel.pattern@, "**"@) && ist_ordner)
}

/// Entscheidet für einen Treffer einer Dateiregel, ob er in die Analyse
/// eingeht.
pub fn eintrag_zaehlt(regel: &FileRule, pfad: &str, alter: Option<u64>, ist_ordner: bool, schon_gesehen: bool) -> (r: bool)
    ensures
        r == zaehlt(*regel, pfad@, alter, ist_ordner, schon_gesehen),
{
    if schon_gesehen || !fsutil::path_is_allowed(pfad) {
        return false;
    }
    if !fsutil::is_older_than(alter, regel.min_age_days) {
        return false;
    }
    if regel.is_excluded(pfad) {
        return false;
    }
    !(nur_dateien(regel.pattern) && ist_ordner)
}

/// Die Treffer einer Liste (Papierkorb, Installationsdateien, Registry)
/// übernehmen: ihre Zahl, ihre Größe – Registry-Einträge belegen keinen
/// messbaren Platz –, die ersten höchstens [`MAX_ITEMS_PER_TARGET`] Einträge
/// und die Warnungen.
pub fn liste_uebernehmen(ergebnis: &mut TargetScan, art: &TargetKind, items: Vec<ScanItem>, warnungen: &Vec<String>)
    requires
        types::belegt(items@) <= u64::MAX,
    ensures
        final(ergebnis).item_count == items@.len(),
        final(ergebnis).size == (if art is Registry { 0 } else { types::belegt(items@) }),
        final(ergebnis).items@ == (if items@.len() <= MAX_ITEMS_PER_TARGET {
            items@
        } else {
            items@.subrange(0, MAX_ITEMS_PER_TARGET as int)
        }),
        zeichen::text_folgen(final(ergebnis).warnings@) == zeichen::text_folgen(old(ergebnis).warnings@)
            + zeichen::text_folgen(warnungen@),
        final(ergebnis).key == old(ergebnis).key,
        final(ergebnis).category == old(ergebnis).category,
        final(ergebnis).skipped == old(ergebnis).skipped,
        final(ergebnis).skip_reason == old(ergebnis).skip_reason,
        *final(ergebnis) == (TargetScan {
            size: final(ergebnis).size,
            item_count: final(ergebnis).item_count,
            items: final(ergebnis).items,
            warnings: final(ergebnis).warnings,
            ..*old(ergebnis)
        }),
{
    let registry = match art {
        TargetKind::Registry(_) => true,
        _ => false,
    };
    ergebnis.item_count = items.len();
    ergebnis.size = if registry { 0 } else { types::belegt_von(&items) };
    let mut behalten = items;
    behalten.truncate(MAX_ITEMS_PER_TARGET);
    ergebnis.items = behalten;
    let ghost vorher = zeichen::text_folgen(ergebnis.warnings@);
    let ghost fest = *ergebnis;
    let mut i: usize = 0;
    while i < warnungen.len()
        invariant
            i <= warnungen@.len(),
            *ergebnis == (TargetScan { warnings: ergebnis.warnings, ..fest }),
            zeichen::text_folgen(ergebnis.warnings@) == vorher + zeichen::text_folgen(warnungen@.subrange(0, i as int)),
        decreases warnungen@.len() - i,
    {
        let ghost davor = ergebnis.warnings@;
        ergebnis.warnings.push(warnungen[i].as_str().to_owned());
        proof {
            assert(zeichen::text_folgen(ergebnis.warnings@) =~= zeichen::text_folgen(davor).push(warnungen@[i as int]@));
            assert(zeichen::text_folgen(warnungen@.subrange(0, i + 1))
                =~= zeichen::text_folgen(warnungen@.subrange(0, i as int)).push(warnungen@[i as int]@));
        }
        i = i + 1;
    }
    proof {
        assert(warnungen@.subrange(0, i as int) =~= warnungen@);
    }
}

/// Befehle lassen sich nicht analysieren, ohne sie auszuführen: sie gelten
/// als ein vorhandener Eintrag unbekannter Größe.
pub fn befehl_verbuchen(ergebnis: &mut TargetScan)
    ensures
        final(ergebnis).item_count == 1,
        final(ergebnis).size == 0,
        final(ergebnis).items == old(ergebnis).items,
        final(ergebnis).key == old(ergebnis).key,
        final(ergebnis).warnings == old(ergebnis).warnings,
        *final(ergebnis) == (TargetScan { item_count: 1, size: 0, ..*old(ergebnis) }),
{
    ergebnis.item_count = 1;
    ergebnis.size = 0;
}

/// Bei rekursiven Mustern liefert die Suche Ordner und Dateien; gezählt
/// werden dann nur die Dateien, sonst würde derselbe Baum mehrfach vermessen.
pub fn nur_dateien(muster: &str) -> (r: bool)
    ensures
        r == zeichen::enthaelt(muster@, "**"@),
{
    zeichen::enthaelt_folge(&zeichen_von(muster), &zeichen_von("**"))
}

/// Summe der Größen.
pub open spec fn groessen(e: Seq<TargetScan>) -> nat
    decreases e.len(),
{
    if e.len() == 0 { 0 } else { groessen(e.drop_last()) + e.last().size as nat }
}

/// Summe der Anzahlen.
pub open spec fn anzahlen(e: Seq<TargetScan>) -> nat
    decreases e.len(),
{
    if e.len() == 0 { 0 } else { anzahlen(e.drop_last()) + e.last().item_count as nat }
}

proof fn lemma_summen_monoton(e: Seq<TargetScan>, k: int)
    requires
        0 <= k <= e.len(),
    ensures
        groessen(e.subrange(0, k)) <= groessen(e),
        anzahlen(e.subrange(0, k)) <= anzahlen(e),
    decreases e.len() - k,
{
    if k < e.len() {
        lemma_summen_monoton(e, k + 1);
        assert(e.subrange(0, k + 1).drop_last() =~= e.subrange(0, k));
    } else {
        assert(e.subrange(0, k) =~= e);
    }
}

/// Der Bericht einer Analyse: die Ergebnisse in Reihenfolge, ihre Summen,
/// die Dauer und ob abgebrochen wurde.
pub fn scanbericht(ergebnisse: Vec<TargetScan>, dauer_ms: u64, abgebrochen: bool) -> (r: ScanReport)
    requires
        groessen(ergebnisse@) <= u64::MAX,
        anzahlen(ergebnisse@) <= usize::MAX,
    ensures
        r.targets@ == ergebnisse@,
        r.total_size == groessen(ergebnisse@),
        r.total_items == anzahlen(ergebnisse@),
        r.duration_ms == dauer_ms,
        r.cancelled == abgebrochen,
{
    let mut groesse: u64 = 0;
    let mut anzahl: usize = 0;
    let mut i: usize = 0;
    while i < ergebnisse.len()
        invariant
            i <= ergebnisse@.len(),
            groessen(ergebnisse@) <= u64::MAX,
            anzahlen(ergebnisse@) <= usize::MAX,
            groesse == groessen(ergebnisse@.subrange(0, i as int)),
            anzahl == anzahlen(ergebnisse@.subrange(0, i as int)),
        decreases ergebnisse@.len() - i,
    {
        proof {
            assert(ergebnisse@.subrange(0, i + 1).drop_last() =~= ergebnisse@.subrange(0, i as int));
            lemma_summen_monoton(ergebnisse@, i + 1);
        }
        groesse = groesse + ergebnisse[i].size;
        anzahl = anzahl + ergebnisse[i].item_count;
        i = i + 1;
    }
    assert(ergebnisse@.subrange(0, i as int) =~= ergebnisse@);
    ScanReport { targets: ergebnisse, total_size: groesse, total_items: anzahl, duration_ms: dauer_ms, cancelled: abgebrochen }
}

} // verus!
