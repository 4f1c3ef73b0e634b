//! Staff notation for single MIDI notes.
//!
//! A note number is resolved to a position on a five-line staff and to the
//! accidental it is spelled with; the staff, its clef, the note head, its
//! ledger lines and its accidental are then laid out inside a container and
//! turned into an ordered list of draw commands. All geometry is exact: lengths
//! are rational numbers, and every contract speaks of them as reals.

pub mod error;
pub mod gcd;
pub mod geometry;
pub mod glyph;
pub mod layout;
pub mod midi;
pub mod note;
pub mod paint;
pub mod ratio;
pub mod staff;
