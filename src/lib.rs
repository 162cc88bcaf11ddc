//! An escrow marketplace for unique assets: fee settlement, listing custody
//! and the rules that keep an asset from being double-listed or stranded.
pub mod derive;
pub mod fee;
pub mod lifecycle;
pub mod market;
pub mod registry;
