//! Ergebnisse externer Befehle und die Befehlszeile zur Dienststeuerung.
//! Gestartet wird außerhalb der Bibliothek, immer ohne Shell und mit
//! Argumentliste – es gibt damit keine Injektionsfläche.

use vstd::prelude::*;
use crate::zeichen;
use crate::zeichen::{dezimal_von, folge_anhaengen, text_aus, text_anhaengen, zeichen_von};

verus! {

/// Ergebnis eines Prozessaufrufs.
#[derive(Debug, Clone)]
pub struct Output {
    /// Exitcode; `-1` bei Zeitüberschreitung oder Startfehler.
    pub code: i32,
    pub stdout: String,
    pub stderr: String,
}

/// Die aussagekräftigste Meldung: Fehlerausgabe, sonst Ausgabe, sonst der Code.
pub open spec fn meldung_von(o: Output) -> Seq<char> {
    if o.stderr@.len() > 0 {
        o.stderr@
    } else if o.stdout@.len() > 0 {
        o.stdout@
    } else {
        "Exitcode "@ + crate::engine::elevation::ganzzahl(o.code as int)
    }
}

impl Output {
    pub fn ok(&self) -> (r: bool)
        ensures
            r == (self.code == 0),
    {
        self.code == 0
    }

    /// Aussagekräftigste Fehlermeldung.
    pub fn message(&self) -> (r: String)
        ensures
            r@ == meldung_von(*self),
    {
        if self.stderr.as_str().unicode_len() > 0 {
            self.stderr.as_str().to_owned()
        } else if self.stdout.as_str().unicode_len() > 0 {
            self.stdout.as_str().to_owned()
        } else {
            let mut v = zeichen_von("Exitcode ");
            let c = self.code;
            if c < 0 {
                v.push('-');
                let betrag: u64 = if c == i32::MIN { 2147483648u64 } else { (-c) as u64 };
                folge_anhaengen(&mut v, &dezimal_von(betrag));
            } else {
                folge_anhaengen(&mut v, &dezimal_von(c as u64));
            }
            assert(v@ =~= "Exitcode "@ + crate::engine::elevation::ganzzahl(c as int));
            text_aus(&v)
        }
    }

    /// Ein gescheiterter Aufruf mit Meldung.
    pub fn fehler(text: &str) -> (r: Self)
        ensures
            r.code == -1,
            r.stdout@.len() == 0,
            r.stderr@ == text@,
    {
        Output { code: -1, stdout: String::new(), stderr: text.to_owned() }
    }
}

/// Die PowerShell-Zeile, die Dienste anhält oder startet (`aktion` ist
/// `Stop` oder `Start`).
pub open spec fn dienstskript(aktion: Seq<char>, dienste: Seq<&str>) -> Seq<char> {
    aktion + "-Service -Name "@ + zeichen::verbunden(dienste.map_values(|d: &str| d@), ","@)
        + " -Force -ErrorAction Stop"@
}

/// Befehlszeile zum Anhalten oder Starten von Diensten; ohne Dienste gibt es
/// nichts zu tun (`None`).
pub fn dienstbefehl(aktion: &str, dienste: &[&str]) -> (r: Option<Vec<String>>)
    ensures
        dienste@.len() == 0 ==> r is None,
        dienste@.len() > 0 ==> r is Some && r->0@.len() == 5
            && r->0@[0]@ == "powershell"@ && r->0@[1]@ == "-NoProfile"@
            && r->0@[2]@ == "-NonInteractive"@ && r->0@[3]@ == "-Command"@
            && r->0@[4]@ == dienstskript(aktion@, dienste@),
{
    if dienste.len() == 0 {
        return None;
    }
    let mut teile: Vec<Vec<char>> = Vec::new();
    let mut i: usize = 0;
    while i < dienste.len()
        invariant
            i <= dienste@.len(),
            teile@.len() == i,
            forall|k: int| 0 <= k < i ==> (#[trigger] teile@[k])@ == dienste@[k]@,
        decreases dienste@.len() - i,
    {
        teile.push(zeichen_von(dienste[i]));
        i = i + 1;
    }
    assert(zeichen::ansichten(teile@) =~= dienste@.map_values(|d: &str| d@));
    let liste = zeichen::verbinde(&teile, &zeichen_von(","));
    let mut skript = aktion.to_owned();
    text_anhaengen(&mut skript, "-Service -Name ");
    let liste_text = text_aus(&liste);
    text_anhaengen(&mut skript, liste_text.as_str());
    text_anhaengen(&mut skript, " -Force -ErrorAction Stop");
    Some(vec![
        "powershell".to_owned(),
        "-NoProfile".to_owned(),
        "-NonInteractive".to_owned(),
        "-Command".to_owned(),
        skript,
    ])
}

} // verus!
