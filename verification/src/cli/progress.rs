//! Fortschrittsdarstellung für Konsole und TUI.
//!
//! Der Balken besteht aus Blockzeichen statt aus einem Widget, damit CLI und
//! TUI dieselbe Darstellung verwenden. Wie viele Elemente gefüllt sind,
//! rechnet der Aufrufer aus dem Prozentwert aus; hier entsteht daraus der
//! Text.

use vstd::prelude::*;
use crate::i18n;
use crate::zeichen;
use crate::zeichen::{dezimal_text, folge_anhaengen, gleich, text_aus, wiederhole, zeichen_von};
use crate::engine::fsutil;
use crate::cli::text;

verus! {

/// Eine Zeile, die die vorige per `\r` überschreibt: auf die Breite mit
/// Leerzeichen aufgefüllt, längerer Inhalt bleibt ungekürzt.
pub open spec fn ueberschrieben(inhalt: Seq<char>, breite: nat) -> Seq<char> {
    let auffuellung: nat = if breite > inhalt.len() { (breite - inhalt.len()) as nat } else { 0 };
    seq!['\r'] + inhalt + zeichen::wiederholt(' ', auffuellung)
}

/// Zeile für die Ausgabe mit `\r` vorbereiten, damit Reste einer längeren
/// vorigen Zeile verschwinden.
pub fn ueberschreibend(inhalt: &str, breite: usize) -> (r: String)
    ensures
        r@ == ueberschrieben(inhalt@, breite as nat),
{
    let z = zeichen_von(inhalt);
    let auffuellung: usize = if breite > z.len() { breite - z.len() } else { 0 };
    let mut r: Vec<char> = Vec::new();
    r.push('\r');
    folge_anhaengen(&mut r, &z);
    folge_anhaengen(&mut r, &wiederhole(' ', auffuellung));
    assert(r@ =~= ueberschrieben(inhalt@, breite as nat));
    text_aus(&r)
}

/// Gefülltes Element des Balkens.
pub const VOLL: char = '█';
/// Leeres Element des Balkens.
pub const LEER: char = '░';

/// Ein Balken der Breite `breite`, von dem `gefuellt` Elemente voll sind.
pub open spec fn balken_spec(gefuellt: nat, breite: nat) -> Seq<char> {
    zeichen::wiederholt(VOLL, gefuellt) + zeichen::wiederholt(LEER, (breite - gefuellt) as nat)
}

/// Balken aus Blockzeichen: erst die gefüllten, dann die leeren Elemente.
/// Beispiel bei Breite 10 und 5 gefüllten: `█████░░░░░`.
pub fn balken_aus(gefuellt: usize, breite: usize) -> (r: String)
    requires
        gefuellt <= breite,
    ensures
        r@ == balken_spec(gefuellt as nat, breite as nat),
        r@.len() == breite,
{
    let mut v = wiederhole(VOLL, gefuellt);
    folge_anhaengen(&mut v, &wiederhole(LEER, breite - gefuellt));
    text_aus(&v)
}

/// Die Fortschrittszeile vor dem Kürzen: Balken mit Prozent, Phase,
/// Zielname, `[n/gesamt]`, Bytesumme.
pub open spec fn fortschritt_roh(
    lang: Seq<char>,
    phase: Seq<char>,
    ziel_i18n: Seq<char>,
    index: nat,
    gesamt: nat,
    bytes: nat,
    balken: Seq<char>,
) -> Seq<char> {
    let phasentext = if phase == "clean"@ {
        i18n::text(lang, "home.cleaning"@)
    } else {
        i18n::text(lang, "cli.scanning"@)
    };
    balken + " "@ + phasentext + " "@ + i18n::text(lang, ziel_i18n) + " ["@ + zeichen::dezimal(index + 1)
        + "/"@ + zeichen::dezimal(if gesamt > 1 { gesamt } else { 1 }) + "] "@ + fsutil::groesse_text(bytes)
}

/// Vollständige Fortschrittszeile: Balken mit Prozent (vom Aufrufer
/// gebaut), Phase, Zielname, Position, Bytesumme.
///
/// `breite` ist die verfügbare Terminalbreite, mindestens 20; die Zeile
/// wird darauf gekürzt, damit sie beim Überschreiben mit `\r` nicht
/// umbricht.
pub fn fortschrittszeile(
    lang: &str,
    phase: &str,
    ziel_i18n: &str,
    index: usize,
    gesamt: usize,
    bytes: u64,
    balken: &str,
    breite: usize,
) -> (r: String)
    requires
        index < usize::MAX,
    ensures
        r@ == text::gekuerzt(
            fortschritt_roh(lang@, phase@, ziel_i18n@, index as nat, gesamt as nat, bytes as nat, balken@),
            (if breite > 20 { breite } else { 20 }) as nat,
        ),
{
    let name = i18n::t(lang, ziel_i18n);
    let phasentext = if gleich(phase, "clean") {
        i18n::t(lang, "home.cleaning")
    } else {
        i18n::t(lang, "cli.scanning")
    };
    let n = if gesamt > 1 { gesamt } else { 1 };
    let mut v = zeichen_von(balken);
    folge_anhaengen(&mut v, &zeichen_von(" "));
    folge_anhaengen(&mut v, &zeichen_von(phasentext.as_str()));
    folge_anhaengen(&mut v, &zeichen_von(" "));
    folge_anhaengen(&mut v, &zeichen_von(name.as_str()));
    folge_anhaengen(&mut v, &zeichen_von(" ["));
    folge_anhaengen(&mut v, &zeichen_von(dezimal_text((index + 1) as u64).as_str()));
    folge_anhaengen(&mut v, &zeichen_von("/"));
    folge_anhaengen(&mut v, &zeichen_von(dezimal_text(n as u64).as_str()));
    folge_anhaengen(&mut v, &zeichen_von("] "));
    folge_anhaengen(&mut v, &zeichen_von(fsutil::format_bytes(bytes).as_str()));
    assert(v@ =~= fortschritt_roh(lang@, phase@, ziel_i18n@, index as nat, gesamt as nat, bytes as nat, balken@));
    let roh = text_aus(&v);
    text::kuerzen(roh.as_str(), if breite > 20 { breite } else { 20 })
}

} // verus!
