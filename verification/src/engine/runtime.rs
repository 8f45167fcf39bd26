//! Laufzeitkontext eines Durchlaufs: das geteilte Abbruchsignal und der
//! Rechtestatus.

use vstd::prelude::*;
use std::sync::atomic::{AtomicBool, Ordering};
use std::sync::Arc;

verus! {

/// Abbruchsignal. Wird von der Oberfläche gesetzt und von Analyse und
/// Bereinigung zwischen den Einzelschritten geprüft. Alle Kopien teilen sich
/// dasselbe Signal – deshalb kann ein anderer Faden es jederzeit umstellen,
/// und ein gelesener Wert ist nur eine Momentaufnahme.
#[derive(Clone)]
pub struct CancelToken(Arc<AtomicBool>);

impl CancelToken {
    /// Ein neues, nicht gesetztes Signal.
    pub fn new() -> Self {
        CancelToken(Arc::new(AtomicBool::new(false)))
    }

    /// Abbruch anfordern – für alle Kopien.
    pub fn cancel(&self) {
        self.0.store(true, Ordering::SeqCst);
    }

    /// Signal zurücksetzen – für alle Kopien.
    pub fn reset(&self) {
        self.0.store(false, Ordering::SeqCst);
    }

    /// Der aktuelle Stand des Signals. Andere Fäden können ihn jederzeit
    /// ändern; über den gelesenen Wert ist deshalb nichts festgelegt.
    pub fn is_cancelled(&self) -> bool {
        self.0.load(Ordering::SeqCst)
    }
}

impl Default for CancelToken {
    fn default() -> Self {
        CancelToken::new()
    }
}

/// Rechtestatus ohne Windows-Schnittstelle: ohne sie gibt es keine erhöhten
/// Rechte festzustellen. Unter Windows fragt die Anwendung die Shell selbst.
pub fn is_admin() -> (r: bool)
    ensures
        !r,
{
    false
}

} // verus!
