//! Plane – PC-Cleaner für Windows: die Logik als verifizierte Bibliothek.

pub mod zeichen;
pub mod i18n;
pub mod engine;
pub mod cli;
pub mod state;
pub mod commands;
