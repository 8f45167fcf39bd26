//! Farben der Konsolenausgabe.
//!
//! Farbe ist immer nur *Zusatz*: jede Information steht auch als Symbol oder
//! Wort da. Dadurch bleibt die Ausgabe in Pipes, Protokolldateien und
//! farblosen Terminals vollständig lesbar.

use vstd::prelude::*;
use crate::zeichen::verkettet;

verus! {

/// Markenakzent (`#A7EC5B`) als 24-Bit-ANSI-Sequenz.
pub const AKZENT: &'static str = "\x1b[38;2;167;236;91m";
/// Gedämpfter Text für Nebeninformationen.
pub const GEDAEMPFT: &'static str = "\x1b[2m";
/// Warnton.
pub const WARNUNG: &'static str = "\x1b[38;2;240;180;70m";
/// Fehlerton.
pub const FEHLER: &'static str = "\x1b[38;2;235;95;95m";
/// Fett.
pub const FETT: &'static str = "\x1b[1m";
/// Alles zurücksetzen.
pub const RESET: &'static str = "\x1b[0m";

/// Ausgabestil eines Laufs.
#[derive(Debug, Clone, Copy)]
pub struct Stil {
    farbig: bool,
}

/// So sieht ein eingefärbter Text aus: mit Farbe eingerahmt, sonst unverändert.
pub open spec fn gefaerbt(farbig: bool, code: Seq<char>, text: Seq<char>) -> Seq<char> {
    if farbig {
        code + text + RESET@
    } else {
        text
    }
}

impl Stil {
    /// Ob der Stil Farbe verwendet.
    pub closed spec fn farbig(self) -> bool {
        self.farbig
    }

    /// Stil festlegen: `--no-color`, `NO_COLOR` und eine umgeleitete Ausgabe
    /// schalten Farbe jeweils für sich allein ab.
    pub fn neu(no_color_flag: bool, no_color_env: bool, ist_terminal: bool) -> (r: Self)
        ensures
            r.farbig() == (!no_color_flag && !no_color_env && ist_terminal),
    {
        Stil { farbig: !no_color_flag && !no_color_env && ist_terminal }
    }

    /// Stil ohne jede Farbe – für JSON-Ausgabe und Tests.
    pub fn schlicht() -> (r: Self)
        ensures
            !r.farbig(),
    {
        Stil { farbig: false }
    }

    pub fn ist_farbig(&self) -> (r: bool)
        ensures
            r == self.farbig(),
    {
        self.farbig
    }

    /// Text einfärben. Ohne Farbunterstützung bleibt der Text unverändert –
    /// niemals entfällt der Text selbst.
    pub fn faerben(&self, code: &str, text: &str) -> (r: String)
        ensures
            r@ == gefaerbt(self.farbig(), code@, text@),
    {
        if self.farbig {
            verkettet(code, text, RESET)
        } else {
            text.to_owned()
        }
    }

    pub fn akzent(&self, text: &str) -> (r: String)
        ensures
            r@ == gefaerbt(self.farbig(), AKZENT@, text@),
    {
        self.faerben(AKZENT, text)
    }

    pub fn gedaempft(&self, text: &str) -> (r: String)
        ensures
            r@ == gefaerbt(self.farbig(), GEDAEMPFT@, text@),
    {
        self.faerben(GEDAEMPFT, text)
    }

    pub fn warnung(&self, text: &str) -> (r: String)
        ensures
            r@ == gefaerbt(self.farbig(), WARNUNG@, text@),
    {
        self.faerben(WARNUNG, text)
    }

    pub fn fehler(&self, text: &str) -> (r: String)
        ensures
            r@ == gefaerbt(self.farbig(), FEHLER@, text@),
    {
        self.faerben(FEHLER, text)
    }

    pub fn ueberschrift(&self, text: &str) -> (r: String)
        ensures
            r@ == gefaerbt(self.farbig(), FETT@, text@),
    {
        self.faerben(FETT, text)
    }
}

/// Farbe verliert keinen Text: der gefärbte Text enthält den ursprünglichen
/// unverändert als zusammenhängendes Stück.
pub proof fn farbe_verliert_keinen_text(farbig: bool, code: Seq<char>, text: Seq<char>)
    ensures
        ({
            let g = gefaerbt(farbig, code, text);
            let a = if farbig { code.len() as int } else { 0 };
            g.subrange(a, a + text.len()) == text
        }),
{
    let g = gefaerbt(farbig, code, text);
    if farbig {
        assert(g.subrange(code.len() as int, (code.len() + text.len()) as int) =~= text);
    } else {
        assert(g.subrange(0, text.len() as int) =~= text);
    }
}

} // verus!
