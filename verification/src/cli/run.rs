//! Entscheidungen beim Ausführen der Unterbefehle: der Ausgabekanal, die
//! Terminalbreite und ob eine Eingabe als Zustimmung gilt. Geschrieben und
//! gelesen wird außerhalb der Bibliothek.

use vstd::prelude::*;
use crate::cli::args::Bedienfehler;
use crate::cli::stil::Stil;
use crate::i18n;
use crate::i18n::t;
use crate::zeichen;
use crate::zeichen::{getrimmt_von, gleich, text_aus, zeichen_von};

verus! {

/// Was die Umgebung über den Lauf verrät: gesetztes `NO_COLOR`, ob Ein- und
/// Ausgabe Terminals sind, und die Terminalbreite.
#[derive(Debug, Clone, Copy)]
pub struct Umgebung {
    pub no_color_env: bool,
    pub stdout_terminal: bool,
    pub stdin_terminal: bool,
    pub breite: usize,
}

/// Ausgabekanal eines Laufs: Sprache, Farbe, Breite und ob ein Mensch zuschaut.
#[derive(Debug, Clone)]
pub struct Ausgabe {
    pub lang: String,
    pub stil: Stil,
    pub breite: usize,
    pub interaktiv: bool,
    pub json: bool,
}

impl Ausgabe {
    /// Ausgabekanal aus den globalen Optionen und der Umgebung ableiten.
    /// JSON ist nie farbig und nie interaktiv; ohne Terminal wird nie nachgefragt.
    pub fn neu(lang: String, no_color: bool, json: bool, umgebung: Umgebung) -> (r: Self)
        ensures
            r.lang == lang,
            r.stil.farbig() == (!json && !no_color && !umgebung.no_color_env && umgebung.stdout_terminal),
            r.breite == umgebung.breite,
            r.interaktiv == (umgebung.stdout_terminal && umgebung.stdin_terminal && !json),
            r.json == json,
    {
        let stil = if json {
            Stil::schlicht()
        } else {
            Stil::neu(no_color, umgebung.no_color_env, umgebung.stdout_terminal)
        };
        Ausgabe {
            lang,
            stil,
            breite: umgebung.breite,
            interaktiv: umgebung.stdout_terminal && umgebung.stdin_terminal && !json,
            json,
        }
    }
}

/// Terminalbreite aus der gemeldeten Spaltenzahl; ohne Angabe 100, immer in 40–200.
pub open spec fn breite_von(spalten: Option<u16>) -> nat {
    let s: nat = match spalten {
        Some(s) => s as nat,
        None => 100,
    };
    if s < 40 { 40 } else if s > 200 { 200 } else { s }
}

/// Terminalbreite mit vernünftigem Rückfallwert und festen Grenzen.
pub fn terminalbreite(spalten: Option<u16>) -> (r: usize)
    ensures
        r == breite_von(spalten),
        40 <= r <= 200,
{
    let s: usize = match spalten {
        Some(s) => s as usize,
        None => 100,
    };
    if s < 40 {
        40
    } else if s > 200 {
        200
    } else {
        s
    }
}

/// Zustimmung: nicht leer, und entweder das Sprachkürzel oder eine der
/// ausgeschriebenen Formen `y`, `yes`, `j`, `ja`.
pub open spec fn zustimmung(antwort: Seq<char>, kuerzel: Seq<char>) -> bool {
    antwort.len() > 0 && (antwort == kuerzel || antwort == "y"@ || antwort == "yes"@ || antwort == "j"@ || antwort == "ja"@)
}

/// Entscheidet über eine bereits aufbereitete (getrimmte, kleingeschriebene)
/// Antwort gegen das kleingeschriebene Sprachkürzel.
pub fn antwort_entscheiden(antwort: &str, kuerzel: &str) -> (r: bool)
    ensures
        r == zustimmung(antwort@, kuerzel@),
{
    if antwort.unicode_len() == 0 {
        return false;
    }
    gleich(antwort, kuerzel) || gleich(antwort, "y") || gleich(antwort, "yes") || gleich(antwort, "j") || gleich(antwort, "ja")
}

/// Prüft, ob eine Eingabe als Zustimmung gilt. Alles andere – auch eine leere
/// Eingabe – bedeutet Nein.
pub fn antwort_ist_ja(lang: &str, eingabe: &str) -> (r: bool)
    ensures
        r == zustimmung(
            zeichen::unicode_klein(zeichen::getrimmt(eingabe@)),
            zeichen::unicode_klein(i18n::text(lang@, "cli.confirm_yes"@)),
        ),
{
    let getrimmt = text_aus(&getrimmt_von(&zeichen_von(eingabe)));
    let antwort = zeichen::kleingeschrieben(getrimmt.as_str());
    let kuerzel = zeichen::kleingeschrieben(t(lang, "cli.confirm_yes").as_str());
    antwort_entscheiden(antwort.as_str(), kuerzel.as_str())
}

/// Ob eine Fortschrittszeile geschrieben werden darf: nie bei JSON – auch
/// in einem Terminal darf JSON nicht durch `\r`-Zeilen verschmutzt werden –
/// und sonst nur, wenn die Ausgabe ein Terminal ist.
pub fn fortschritt_erlaubt(ausgabe: &Ausgabe, terminal: bool) -> (r: bool)
    ensures
        r == (!ausgabe.json && terminal),
{
    !ausgabe.json && terminal
}

/// Meldung, wenn nachgefragt werden müsste, aber niemand antworten kann.
pub const RUECKFRAGE_UNMOEGLICH: &'static str = "Rückfrage nicht möglich (keine Konsole). Bitte `--yes` angeben.";

/// Ob vor dem Löschen nachgefragt wird: ohne `--yes` und außer bei JSON.
/// Kann dann niemand antworten, ist das ein Bedienfehler – statt auf eine
/// Eingabe zu warten, die nie kommt.
pub fn rueckfrage(ausgabe: &Ausgabe, ohne_rueckfrage: bool) -> (r: Result<bool, Bedienfehler>)
    ensures
        ohne_rueckfrage || ausgabe.json ==> r == Ok::<bool, Bedienfehler>(false),
        !ohne_rueckfrage && !ausgabe.json && ausgabe.interaktiv ==> r == Ok::<bool, Bedienfehler>(true),
        !ohne_rueckfrage && !ausgabe.json && !ausgabe.interaktiv ==> (r matches Err(f) && f.0@ == RUECKFRAGE_UNMOEGLICH@),
{
    if ohne_rueckfrage || ausgabe.json {
        Ok(false)
    } else if ausgabe.interaktiv {
        Ok(true)
    } else {
        Err(Bedienfehler(RUECKFRAGE_UNMOEGLICH.to_owned()))
    }
}

} // verus!
