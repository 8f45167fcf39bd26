//! Neustart mit Administratorrechten.
//!
//! Plane fordert nie von sich aus erhöhte Rechte an; die Elevation bleibt
//! eine bewusste Handlung des Nutzers. Eine exklusiv geöffnete Datei lässt
//! sich auch als Administrator nicht löschen – dagegen hilft nur, das
//! Programm zu schließen.

use vstd::prelude::*;
use crate::engine::runtime::is_admin;
use crate::zeichen;
use crate::zeichen::{dezimal_von, folge_anhaengen, text_aus, zeichen_von};

verus! {

/// Ergebnis eines Elevationsversuchs.
#[derive(Debug, Clone, PartialEq, Eq)]
pub enum Elevation {
    /// Der neue Prozess wurde gestartet; der aufrufende soll sich beenden.
    Gestartet,
    /// Läuft bereits erhöht – nichts zu tun.
    Bereits,
    /// Nutzer hat die Rückfrage abgelehnt oder der Start scheiterte.
    Abgelehnt(String),
}

/// Prüft, ob ein Neustart überhaupt sinnvoll wäre: nur ohne erhöhte Rechte.
pub fn neustart_sinnvoll() -> (r: bool)
    ensures
        r,
{
    !is_admin()
}

/// Neustart ohne Windows-Schnittstelle: es gibt nichts zu starten.
pub fn neu_starten_als_admin(argumente: &[String]) -> (r: Elevation)
    ensures
        r matches Elevation::Abgelehnt(g) && g@ == "Nur unter Windows verfügbar"@,
{
    Elevation::Abgelehnt("Nur unter Windows verfügbar".to_owned())
}

/// Dezimaldarstellung einer ganzen Zahl mit Vorzeichen.
pub open spec fn ganzzahl(n: int) -> Seq<char> {
    if n < 0 { seq!['-'] + zeichen::dezimal((-n) as nat) } else { zeichen::dezimal(n as nat) }
}

/// Wie die Shell den Startversuch beantwortet hat: über 32 ist Erfolg, 5
/// heißt „Zugriff verweigert“ – die abgelehnte UAC-Rückfrage.
pub open spec fn gedeutet(code: i64) -> (Option<Seq<char>>) {
    if code > 32 {
        None
    } else if code == 5 {
        Some("UAC-Rückfrage abgelehnt"@)
    } else {
        Some("ShellExecuteW meldete "@ + ganzzahl(code as int))
    }
}

/// Den Rückgabewert von `ShellExecuteW` deuten.
pub fn elevation_deuten(code: i64) -> (r: Elevation)
    ensures
        match gedeutet(code) {
            None => r == Elevation::Gestartet,
            Some(g) => r matches Elevation::Abgelehnt(t) && t@ == g,
        },
{
    if code > 32 {
        Elevation::Gestartet
    } else if code == 5 {
        Elevation::Abgelehnt("UAC-Rückfrage abgelehnt".to_owned())
    } else {
        let mut v = zeichen_von("ShellExecuteW meldete ");
        if code < 0 {
            v.push('-');
            let betrag: u64 = if code == i64::MIN { 9223372036854775808u64 } else { (-code) as u64 };
            folge_anhaengen(&mut v, &dezimal_von(betrag));
        } else {
            folge_anhaengen(&mut v, &dezimal_von(code as u64));
        }
        assert(v@ =~= "ShellExecuteW meldete "@ + ganzzahl(code as int));
        Elevation::Abgelehnt(text_aus(&v))
    }
}

} // verus!
