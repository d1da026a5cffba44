//! An interactive, field-by-field data-entry engine for audio-tag records.
//!
//! The engine walks a user through a fixed ordered sequence of typed fields,
//! pre-filling each prompt with a suggested default, and only at the end
//! assembles a fully-validated, strongly-typed record.  The modules below
//! hold the navigable field sequence, the record builders for album- and
//! track-level records, the generic session driver, and the small text
//! utilities (trimming, decimal parsing and formatting) they rely on.

pub mod album;
pub mod counter;
pub mod editor;
pub mod file;
pub mod finder;
pub mod text;
pub mod track;
