//! Die Logik der Kommandozeile: Stil, Texte, Tabellen und Argumente.

pub mod stil;
pub mod text;
pub mod table;
pub mod args;
pub mod progress;
pub mod run;
pub mod tui;
