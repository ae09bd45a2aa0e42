//! Demonlist records, demon patching and list-position bookkeeping,
//! with the rules that decide each change stated and proved.

pub mod error;
pub mod demon;
pub mod position;
pub mod patch;
pub mod pages;
pub mod apply;
pub mod run;
