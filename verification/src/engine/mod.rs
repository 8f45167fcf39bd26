//! Die Reinigungs-Engine: Katalog, Analyse- und Bereinigungsregeln.

pub mod types;
pub mod catalog;
pub mod fsutil;
pub mod runtime;
pub mod elevation;
pub mod process;
pub mod update;
pub mod installers;
pub mod recyclebin;
pub mod icons;
pub mod log;
pub mod clean;
pub mod scan;
pub mod uninstall;
pub mod registry;
pub mod tweaks;
