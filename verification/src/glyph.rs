//! Handles to the symbols that a staff is drawn from.
//!
//! The host owns the drawable symbols. The staff names them by kind and is
//! told which of them the host could load; a symbol that is missing is
//! replaced by a blank one.

use vstd::prelude::*;

use crate::error::StaffError;

verus! {

/// The symbols that the host is asked for.
#[derive(Clone, Copy, Debug, PartialEq, Eq, Structural)]
pub enum GlyphKind {
    TrebleClef,
    BassClef,
    NoteHead,
    Sharp,
    Flat,
}

/// A handle to a drawable symbol: one of the host's, or the blank symbol.
#[derive(Clone, Copy, Debug, PartialEq, Eq, Structural)]
pub enum Glyph {
    Asset(GlyphKind),
    Blank,
}

/// Which symbols the host has loaded.
#[derive(Clone, Copy, Debug, PartialEq, Eq, Structural)]
pub struct Assets {
    pub treble_clef: bool,
    pub bass_clef: bool,
    pub note_head: bool,
    pub sharp: bool,
    pub flat: bool,
}

impl Assets {
    /// Whether the symbol of this kind is loaded.
    pub open spec fn has(self, kind: GlyphKind) -> bool {
        match kind {
            GlyphKind::TrebleClef => self.treble_clef,
            GlyphKind::BassClef => self.bass_clef,
            GlyphKind::NoteHead => self.note_head,
            GlyphKind::Sharp => self.sharp,
            GlyphKind::Flat => self.flat,
        }
    }

    /// The handle that a lookup of this kind yields, or the failure.
    pub open spec fn found(self, kind: GlyphKind) -> Result<Glyph, StaffError> {
        if self.has(kind) {
            Ok(Glyph::Asset(kind))
        } else {
            Err(StaffError::AssetMissing)
        }
    }

    /// Every symbol loaded.
    pub fn all() -> (assets: Assets)
        ensures
            forall|kind: GlyphKind| assets.has(kind),
    {
        Assets { treble_clef: true, bass_clef: true, note_head: true, sharp: true, flat: true }
    }

    /// Looks a symbol up by kind.
    pub fn lookup(&self, kind: GlyphKind) -> (file: Result<Glyph, StaffError>)
        ensures
            file == self.found(kind),
    {
        let loaded = match kind {
            GlyphKind::TrebleClef => self.treble_clef,
            GlyphKind::BassClef => self.bass_clef,
            GlyphKind::NoteHead => self.note_head,
            GlyphKind::Sharp => self.sharp,
            GlyphKind::Flat => self.flat,
        };
        if loaded {
            Ok(Glyph::Asset(kind))
        } else {
            Err(StaffError::AssetMissing)
        }
    }
}

/// The handle that is drawn for a lookup: the symbol found, or the blank one.
pub open spec fn glyph_or_blank(file: Result<Glyph, StaffError>) -> Glyph {
    match file {
        Ok(glyph) => glyph,
        Err(_) => Glyph::Blank,
    }
}

} // verus!
