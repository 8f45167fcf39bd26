//! Papierkorb: was die Analyse meldet und wie das Leeren ausgewertet wird.
//!
//! Der Papierkorb ist keine gewöhnliche Ordnerstruktur, sondern eine
//! Shell-Abstraktion über `$Recycle.Bin` auf jedem Laufwerk. Die Ordner werden
//! außerhalb der Bibliothek gemessen, geleert wird über die Shell-API; hier
//! steht, was daraus gemeldet wird.

use vstd::prelude::*;
use crate::engine::process::Output;
use crate::engine::types;
use crate::engine::types::ScanItem;
use crate::zeichen;
use crate::zeichen::{enthaelt_folge, folge_anhaengen, klein_von, zeichen_von};

verus! {

/// Hinweis, wenn es keinen Papierkorb zu messen gibt, weil das System kein
/// Windows ist.
pub const NUR_WINDOWS: &'static str = "Papierkorb wird nur unter Windows unterstützt";

/// Der Befehl, mit dem die Shell alle Papierkörbe leert.
pub const LEEREN_BEFEHL: [&'static str; 5] = [
    "powershell",
    "-NoProfile",
    "-NonInteractive",
    "-Command",
    "Clear-RecycleBin -Force -ErrorAction Stop",
];

/// Ein gemessener Papierkorb.
pub struct Papierkorbfund {
    /// Pfad des `$Recycle.Bin`-Ordners.
    pub pfad: String,
    /// Das Laufwerk, auf dem er liegt.
    pub laufwerk: String,
    /// Belegter Platz in Bytes.
    pub groesse: u64,
}

/// Ein Eintrag je Laufwerk mit belegtem Papierkorb, mit dem Laufwerk als
/// Detail – die Einzeldateien tragen verschlüsselte Namen (`$R…`) und wären
/// für den Nutzer nicht lesbar.
pub open spec fn eintraege_aus(f: Seq<Papierkorbfund>) -> Seq<(Seq<char>, u64, Seq<char>, Option<String>)>
    decreases f.len(),
{
    if f.len() == 0 {
        Seq::empty()
    } else {
        let k = eintraege_aus(f.drop_last());
        let x = f.last();
        if x.groesse == 0 {
            k
        } else {
            k.push((x.pfad@, x.groesse, x.laufwerk@, None))
        }
    }
}

/// Warnungen der Analyse: ohne Windows und ohne Treffer ein Hinweis.
pub open spec fn scanwarnungen(f: Seq<Papierkorbfund>, windows: bool) -> Seq<Seq<char>> {
    if eintraege_aus(f).len() == 0 && !windows {
        seq![NUR_WINDOWS@]
    } else {
        Seq::empty()
    }
}

/// Das Ergebnis der Analyse aus den gemessenen Papierkörben.
pub fn scan_auswerten(funde: &Vec<Papierkorbfund>, windows: bool) -> (r: (Vec<ScanItem>, Vec<String>))
    ensures
        types::sichten(r.0@) == eintraege_aus(funde@),
        zeichen::text_folgen(r.1@) == scanwarnungen(funde@, windows),
{
    let mut treffer: Vec<ScanItem> = Vec::new();
    let mut i: usize = 0;
    proof {
        assert(types::sichten(treffer@) =~= eintraege_aus(funde@.subrange(0, 0)));
    }
    while i < funde.len()
        invariant
            i <= funde@.len(),
            types::sichten(treffer@) == eintraege_aus(funde@.subrange(0, i as int)),
        decreases funde@.len() - i,
    {
        proof {
            assert(funde@.subrange(0, i + 1).drop_last() =~= funde@.subrange(0, i as int));
        }
        let x = &funde[i];
        if x.groesse > 0 {
            let ghost vorher = treffer@;
            treffer.push(ScanItem::new(x.pfad.as_str(), x.groesse).with_detail(x.laufwerk.as_str()));
            proof {
                assert(types::sichten(treffer@) =~= types::sichten(vorher).push(types::sicht(treffer@.last())));
            }
        }
        i = i + 1;
    }
    proof {
        assert(funde@.subrange(0, i as int) =~= funde@);
    }
    let mut warnungen: Vec<String> = Vec::new();
    if treffer.len() == 0 && !windows {
        warnungen.push(NUR_WINDOWS.to_owned());
    }
    proof {
        assert(zeichen::text_folgen(warnungen@) =~= scanwarnungen(funde@, windows));
    }
    (treffer, warnungen)
}

/// Vor dem Leeren: der gemessene Platz, und ob die Shell überhaupt leeren
/// muss – nicht im Trockenlauf und nicht bei leerem Papierkorb.
pub fn leeren_planen(eintraege: &Vec<ScanItem>, dry_run: bool) -> (r: (u64, bool))
    requires
        types::belegt(eintraege@) <= u64::MAX,
    ensures
        r.0 == types::belegt(eintraege@),
        r.1 == (!dry_run && r.0 > 0),
{
    let summe = types::belegt_von(eintraege);
    (summe, !dry_run && summe > 0)
}

/// Der belegte Platz aller gemessenen Papierkörbe zusammen.
pub open spec fn papierkorbgroesse(f: Seq<Papierkorbfund>) -> nat
    decreases f.len(),
{
    if f.len() == 0 { 0 } else { papierkorbgroesse(f.drop_last()) + f.last().groesse as nat }
}

proof fn lemma_belegt_ist_papierkorbgroesse(eintraege: Seq<ScanItem>, f: Seq<Papierkorbfund>)
    requires
        types::sichten(eintraege) == eintraege_aus(f),
    ensures
        types::belegt(eintraege) == papierkorbgroesse(f),
    decreases f.len(),
{
    if f.len() == 0 {
        assert(types::sichten(eintraege).len() == 0);
    } else {
        let x = f.last();
        if x.groesse == 0 {
            lemma_belegt_ist_papierkorbgroesse(eintraege, f.drop_last());
        } else {
            assert(types::sichten(eintraege).len() == eintraege_aus(f).len());
            assert(types::sichten(eintraege.drop_last()) =~= types::sichten(eintraege).drop_last());
            assert(eintraege_aus(f).drop_last() =~= eintraege_aus(f.drop_last()));
            lemma_belegt_ist_papierkorbgroesse(eintraege.drop_last(), f.drop_last());
            assert(types::sichten(eintraege)[eintraege.len() - 1] == eintraege_aus(f).last());
        }
    }
}

/// Vor dem Leeren, aus den gemessenen Papierkörben: ihr Platz zusammen, die
/// Warnungen der Analyse und ob die Shell leeren muss. Ein Trockenlauf und
/// ein leerer Papierkorb starten keinen Prozess und löschen nichts; sie
/// melden den gemessenen Platz und die Warnungen.
pub fn leeren_vorbereiten(funde: &Vec<Papierkorbfund>, windows: bool, dry_run: bool) -> (r: (u64, Vec<String>, bool))
    requires
        papierkorbgroesse(funde@) <= u64::MAX,
    ensures
        r.0 == papierkorbgroesse(funde@),
        zeichen::text_folgen(r.1@) == scanwarnungen(funde@, windows),
        r.2 == (!dry_run && r.0 > 0),
{
    let (eintraege, warnungen) = scan_auswerten(funde, windows);
    proof {
        lemma_belegt_ist_papierkorbgroesse(eintraege@, funde@);
    }
    let (groesse, leeren) = leeren_planen(&eintraege, dry_run);
    (groesse, warnungen, leeren)
}

/// Der Text, in dem nach dem Hinweis auf einen schon leeren Papierkorb
/// gesucht wird: beide Ausgaben, kleingeschrieben.
pub open spec fn ausgabetext(o: Output) -> Seq<char> {
    zeichen::klein_folge(o.stderr@ + " "@ + o.stdout@)
}

/// Ob das Leeren gescheitert ist: ein Fehlercode, der nicht nur einen schon
/// leeren Papierkorb meldet – der meldet ebenfalls einen Fehler, ist aber
/// keiner.
pub open spec fn leeren_gescheitert(o: Output) -> bool {
    o.code != 0 && !zeichen::enthaelt(ausgabetext(o), "empty"@) && !zeichen::enthaelt(ausgabetext(o), "leer"@)
}

/// Nach dem Leeren: die vorher gemessene Größe und die Fehler, oder bei
/// einem Fehlschlag 0 Bytes und zusätzlich dessen Meldung (die
/// Fehlerausgabe, ohne sie die Ausgabe).
pub fn leeren_auswerten(groesse: u64, ausgabe: &Output, fehler: Vec<String>) -> (r: (u64, Vec<String>))
    ensures
        leeren_gescheitert(*ausgabe) ==> r.0 == 0 && zeichen::text_folgen(r.1@) == zeichen::text_folgen(fehler@).push(
            if ausgabe.stderr@.len() == 0 { ausgabe.stdout@ } else { ausgabe.stderr@ },
        ),
        !leeren_gescheitert(*ausgabe) ==> r.0 == groesse && r.1@ == fehler@,
{
    if ausgabe.code == 0 {
        return (groesse, fehler);
    }
    let mut text = zeichen_von(ausgabe.stderr.as_str());
    text.push(' ');
    folge_anhaengen(&mut text, &zeichen_von(ausgabe.stdout.as_str()));
    proof {
        reveal_strlit(" ");
        assert(text@ =~= ausgabe.stderr@ + " "@ + ausgabe.stdout@);
    }
    let klein = klein_von(&text);
    if enthaelt_folge(&klein, &zeichen_von("empty")) || enthaelt_folge(&klein, &zeichen_von("leer")) {
        return (groesse, fehler);
    }
    let mut r = fehler;
    let ghost vorher = r@;
    if ausgabe.stderr.as_str().unicode_len() == 0 {
        r.push(ausgabe.stdout.as_str().to_owned());
    } else {
        r.push(ausgabe.stderr.as_str().to_owned());
    }
    proof {
        assert(zeichen::text_folgen(r@) =~= zeichen::text_folgen(vorher).push(r@.last()@));
    }
    (0, r)
}

} // verus!
