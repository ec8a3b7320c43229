//! Verified core of a telomeric-repeat plotting tool.
//!
//! The library turns an ordered table of per-window telomeric repeat
//! counts into a stacked SVG line plot, one panel per chromosome, and
//! offers the static clade-to-telomeric-repeat lookup table that sibling
//! functionality consults.  Reading the input table and writing the
//! image file are left to the thin unverified layer around this crate.

pub mod clades;
pub mod decimal;
pub mod laws;
pub mod plot;
