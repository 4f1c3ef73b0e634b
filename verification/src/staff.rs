//! The staff: how it is set up, what it shows, and its geometry.
//!
//! A staff shows an odd number of line slots, five of them as lines in the
//! middle. The line height is the container's height divided among the
//! slots; every vertical position is a base plus a rational number of line
//! heights, and is held exactly.

use vstd::prelude::*;

use crate::error::StaffError;
use crate::geometry::{Bounds, Rect, RectView};
use crate::glyph::{glyph_or_blank, Assets, Glyph, GlyphKind};
use crate::note::{
    resolved_alteration, resolved_halves, resolved_line, LineIndex, Note, NoteAlt,
};
use crate::ratio::{frac, lemma_frac_is, Ratio};

verus! {

/// The number of line slots that a staff shows unless told otherwise.
pub const MAX_LINES: i32 = 11;

/// The note that sits on the bottom line of the staff.
pub const STAFF_NOTE: u8 = 64;

/// The line of that note, in half lines.
pub const REFERENCE_HALVES: i64 = 37;

/// The kinds of clef. Each kind has a symbol of its own, but a staff draws
/// the treble clef whatever kind it is set up with.
#[derive(Clone, Copy, Debug, PartialEq, Eq, Structural)]
pub enum ClefType {
    Treble,
    Bass,
    Auto,
}

impl ClefType {
    /// The kind of symbol that shows the clef.
    pub open spec fn glyph_kind(self) -> GlyphKind {
        match self {
            ClefType::Auto => GlyphKind::TrebleClef,
            ClefType::Treble => GlyphKind::TrebleClef,
            ClefType::Bass => GlyphKind::BassClef,
        }
    }

    /// The symbol that shows the clef, or the blank symbol where it is missing.
    pub fn svgdata(&self, assets: &Assets) -> (glyph: Glyph)
        ensures
            glyph == glyph_or_blank(assets.found(self.glyph_kind())),
    {
        let file: Result<Glyph, StaffError>;
        match *self {
            ClefType::Auto => file = assets.lookup(GlyphKind::TrebleClef),
            ClefType::Treble => file = assets.lookup(GlyphKind::TrebleClef),
            ClefType::Bass => file = assets.lookup(GlyphKind::BassClef),
        }
        match file {
            Ok(svg) => svg,
            Err(_) => Glyph::Blank,
        }
    }
}

/// How a staff is set up.
#[derive(Clone, Copy, Debug, PartialEq, Eq, Structural)]
pub struct StaffConfig {
    /// The number of line slots shown: odd, and at least five.
    pub max_lines: i32,
    /// The clef.
    pub clef: ClefType,
    /// The accidental that black keys are spelled with.
    pub alteration: NoteAlt,
}

impl Default for StaffConfig {
    fn default() -> (config: StaffConfig)
        ensures
            config == (StaffConfig {
                max_lines: MAX_LINES,
                clef: ClefType::Treble,
                alteration: NoteAlt::Sharp,
            }),
    {
        StaffConfig { max_lines: MAX_LINES, clef: ClefType::Treble, alteration: NoteAlt::Sharp }
    }
}

/// The symbols that a staff draws with.
#[derive(Clone, Copy, Debug, PartialEq, Eq, Structural)]
pub struct Glyphs {
    pub clef: Glyph,
    pub note: Glyph,
    pub sharp: Glyph,
    pub flat: Glyph,
}

impl Glyphs {
    /// The symbols for a staff, each taken from what is loaded or blank:
    /// the treble clef, the note head, the sharp and the flat.
    pub open spec fn loaded(assets: Assets) -> Glyphs {
        Glyphs {
            clef: glyph_or_blank(assets.found(GlyphKind::TrebleClef)),
            note: glyph_or_blank(assets.found(GlyphKind::NoteHead)),
            sharp: glyph_or_blank(assets.found(GlyphKind::Sharp)),
            flat: glyph_or_blank(assets.found(GlyphKind::Flat)),
        }
    }

    /// The symbol that draws an accidental, if it has one.
    pub open spec fn accidental(self, alt: NoteAlt) -> Option<Glyph> {
        match alt {
            NoteAlt::White => None,
            NoteAlt::Sharp => Some(self.sharp),
            NoteAlt::Flat => Some(self.flat),
        }
    }
}

/// What a ratio that may be absent stands for.
pub open spec fn ratio_view(ratio: Option<Ratio>) -> Option<real> {
    match ratio {
        Some(r) => Some(r@),
        None => None,
    }
}

/// A staff can show this many line slots: an odd number, at least five.
pub open spec fn valid_lines(max_lines: int) -> bool {
    max_lines >= 5 && max_lines % 2 == 1
}

/// The distance between two lines of a staff of this height.
pub open spec fn line_height(max_lines: int, height: int) -> real {
    height as real / (max_lines - 1) as real
}

/// The width of the lines of a staff of this height: a two-hundredth of the
/// height, but at least 2.
pub open spec fn stroke_width(height: int) -> real {
    let w = height as real / 200real;
    if w < 2real {
        2real
    } else {
        w
    }
}

/// The rectangle between the top and the bottom one of the five lines:
/// the container without the slots above and below them.
pub open spec fn staff_lines_rect(max_lines: int, staff_rect: Bounds) -> RectView {
    let vpad = line_height(max_lines, staff_rect.spec_height()) * ((max_lines - 5) as real
        / 2real);
    RectView {
        x0: staff_rect.x0 as real,
        y0: staff_rect.y0 as real + vpad,
        x1: staff_rect.x1 as real,
        y1: staff_rect.y1 as real - vpad,
    }
}

/// The line at index `line`, counted upward from the bottom line of the
/// staff: as wide as the staff and centred in it, unless a width or a centre
/// is given.
pub open spec fn line_rect(
    max_lines: int,
    staff_rect: Bounds,
    line: real,
    width: Option<real>,
    center: Option<real>,
) -> RectView {
    let lines_rect = staff_lines_rect(max_lines, staff_rect);
    let m_width = match width {
        Some(w) => w,
        None => lines_rect.width(),
    };
    let m_center = match center {
        Some(x) => x,
        None => (lines_rect.x0 + lines_rect.x1) / 2real,
    };
    let pos_y = lines_rect.y1 - line_height(max_lines, staff_rect.spec_height()) * line;
    RectView {
        x0: m_center - m_width / 2real,
        y0: pos_y,
        x1: m_center + m_width / 2real,
        y1: pos_y,
    }
}

/// The line on which the bottom line of the staff lies.
pub open spec fn reference_line() -> real {
    resolved_line(STAFF_NOTE as int, NoteAlt::Flat)
}

/// What a staff shows.
#[derive(Clone, Copy, Debug, PartialEq, Eq, Structural)]
pub enum StaffState {
    /// No note: only the lines and the clef.
    Empty,
    /// A note with all that belongs to it.
    NoteActive,
}

/// A staff that shows at most one note.
#[derive(Clone, Copy, Debug)]
pub struct Staff {
    midi_note: Option<Note>,
    max_lines: i32,
    clef: ClefType,
    alteration: NoteAlt,
    glyphs: Glyphs,
}

impl Staff {
    /// The number of line slots is odd and at least five, and the note, if
    /// there is one, is a pitch.
    #[verifier::type_invariant]
    pub closed spec fn wf(self) -> bool {
        &&& valid_lines(self.max_lines as int)
        &&& self.midi_note matches Some(note) ==> note.wf()
    }

    /// The note that the staff shows, if any.
    pub closed spec fn note(self) -> Option<Note> {
        self.midi_note
    }

    /// The number of the note that the staff shows, if any.
    pub open spec fn note_number(self) -> Option<int> {
        match self.note() {
            Some(note) => Some(note.midi()),
            None => None,
        }
    }

    /// The number of line slots.
    pub closed spec fn max_lines(self) -> int {
        self.max_lines as int
    }

    /// The clef that the staff was set up with.
    pub closed spec fn clef(self) -> ClefType {
        self.clef
    }

    /// The accidental that black keys are spelled with.
    pub closed spec fn preference(self) -> NoteAlt {
        self.alteration
    }

    /// The symbols that the staff draws with.
    pub closed spec fn glyphs(self) -> Glyphs {
        self.glyphs
    }

    /// The state that goes with a note or with none.
    pub open spec fn state_of(note: Option<Note>) -> StaffState {
        match note {
            Some(_) => StaffState::NoteActive,
            None => StaffState::Empty,
        }
    }

    /// An empty staff of eleven line slots with a treble clef, which spells
    /// black keys as sharps.
    pub fn new(assets: &Assets) -> (staff: Staff)
        ensures
            staff.wf(),
            staff.note() is None,
            staff.max_lines() == MAX_LINES,
            staff.clef() == ClefType::Treble,
            staff.preference() == NoteAlt::Sharp,
            staff.glyphs() == Glyphs::loaded(*assets),
    {
        Staff {
            midi_note: None,
            max_lines: MAX_LINES,
            clef: ClefType::Treble,
            alteration: NoteAlt::Sharp,
            glyphs: Glyphs {
                clef: Self::make_clef_svg(ClefType::Treble, assets),
                note: Self::make_note_svg(assets),
                sharp: Self::make_alt_svg(NoteAlt::Sharp, assets),
                flat: Self::make_alt_svg(NoteAlt::Flat, assets),
            },
        }
    }

    /// A staff like a new one that shows `note`.
    pub fn from_note(note: Note, assets: &Assets) -> (staff: Staff)
        ensures
            staff.wf(),
            staff.note() == Some(note),
            staff.max_lines() == MAX_LINES,
            staff.clef() == ClefType::Treble,
            staff.preference() == NoteAlt::Sharp,
            staff.glyphs() == Glyphs::loaded(*assets),
    {
        proof {
            use_type_invariant(note);
        }
        Staff {
            midi_note: Some(note),
            max_lines: MAX_LINES,
            clef: ClefType::Treble,
            alteration: NoteAlt::Sharp,
            glyphs: Glyphs {
                clef: Self::make_clef_svg(ClefType::Treble, assets),
                note: Self::make_note_svg(assets),
                sharp: Self::make_alt_svg(NoteAlt::Sharp, assets),
                flat: Self::make_alt_svg(NoteAlt::Flat, assets),
            },
        }
    }

    /// An empty staff set up as `config` says. A staff of fewer than five
    /// line slots, or of an even number of them, cannot be made.
    pub fn with_config(config: StaffConfig, assets: &Assets) -> (made: Result<Staff, StaffError>)
        ensures
            valid_lines(config.max_lines as int) ==> made is Ok && {
                let staff = made->Ok_0;
                &&& staff.wf()
                &&& staff.note() is None
                &&& staff.max_lines() == config.max_lines
                &&& staff.clef() == config.clef
                &&& staff.preference() == config.alteration
                &&& staff.glyphs() == Glyphs::loaded(*assets)
            },
            !valid_lines(config.max_lines as int) ==> made == Err::<Staff, StaffError>(
                StaffError::DegenerateConfig,
            ),
    {
        if config.max_lines < 5 || config.max_lines % 2 == 0 {
            return Err(StaffError::DegenerateConfig);
        }
        Ok(
            Staff {
                midi_note: None,
                max_lines: config.max_lines,
                clef: config.clef,
                alteration: config.alteration,
                glyphs: Glyphs {
                    clef: Self::make_clef_svg(ClefType::Treble, assets),
                    note: Self::make_note_svg(assets),
                    sharp: Self::make_alt_svg(NoteAlt::Sharp, assets),
                    flat: Self::make_alt_svg(NoteAlt::Flat, assets),
                },
            },
        )
    }

    /// The symbol for a clef.
    fn make_clef_svg(cleftype: ClefType, assets: &Assets) -> (glyph: Glyph)
        ensures
            glyph == glyph_or_blank(assets.found(cleftype.glyph_kind())),
    {
        cleftype.svgdata(assets)
    }

    /// The symbol for the note head.
    fn make_note_svg(assets: &Assets) -> (glyph: Glyph)
        ensures
            glyph == glyph_or_blank(assets.found(GlyphKind::NoteHead)),
    {
        Self::make_svg(assets.lookup(GlyphKind::NoteHead))
    }

    /// The symbol for a sharp or a flat.
    fn make_alt_svg(alttype: NoteAlt, assets: &Assets) -> (glyph: Glyph)
        requires
            alttype != NoteAlt::White,
        ensures
            glyph == glyph_or_blank(assets.found(alttype.glyph_kind()->Some_0)),
    {
        match alttype.svgdata(assets) {
            Some(glyph) => glyph,
            None => Glyph::Blank,
        }
    }

    /// The symbol that a lookup yields: the one found, or the blank symbol
    /// where the lookup failed.
    pub fn make_svg(file: Result<Glyph, StaffError>) -> (glyph: Glyph)
        ensures
            glyph == glyph_or_blank(file),
    {
        match file {
            Ok(svg) => svg,
            Err(_) => Glyph::Blank,
        }
    }

    /// What the staff shows: a note or none.
    pub fn state(&self) -> (state: StaffState)
        ensures
            state == Self::state_of(self.note()),
    {
        match self.midi_note {
            Some(_) => StaffState::NoteActive,
            None => StaffState::Empty,
        }
    }

    /// The note that the staff shows, if any.
    pub fn current_note(&self) -> (note: Option<Note>)
        ensures
            note == self.note(),
            note matches Some(n) ==> n.wf(),
    {
        proof {
            use_type_invariant(self);
        }
        self.midi_note
    }

    /// The symbols that the staff draws with.
    pub fn glyph_handles(&self) -> (glyphs: Glyphs)
        ensures
            glyphs == self.glyphs(),
    {
        self.glyphs
    }

    /// Shows the note with this number, or none. A number above 127 is
    /// refused and leaves the staff as it was.
    pub fn set_note(&mut self, midi_nr: Option<u8>) -> (set: Result<(), StaffError>)
        ensures
            final(self).wf(),
            final(self).max_lines() == old(self).max_lines(),
            final(self).clef() == old(self).clef(),
            final(self).preference() == old(self).preference(),
            final(self).glyphs() == old(self).glyphs(),
            match midi_nr {
                None => set is Ok && final(self).note() is None,
                Some(nr) => if nr <= 127 {
                    set is Ok && final(self).note_number() == Some(nr as int)
                } else {
                    set == Err::<(), StaffError>(StaffError::InvalidPitch) && *final(self) == *old(
                        self,
                    )
                },
            },
    {
        proof {
            use_type_invariant(&*self);
        }
        match midi_nr {
            None => {
                self.midi_note = None;
                Ok(())
            },
            Some(nr) => match Note::new(nr) {
                Ok(note) => {
                    self.midi_note = Some(note);
                    Ok(())
                },
                Err(err) => Err(err),
            },
        }
    }

    /// The width of the lines of a staff of this height.
    pub fn line_w(staff_height: i64) -> (w: Ratio)
        ensures
            w.wf(),
            w@ == stroke_width(staff_height as int),
    {
        if staff_height < 400 {
            Ratio::from_int(2)
        } else {
            assert(frac(staff_height as int, 200) == staff_height as real / 200real);
            Ratio::new(staff_height as i128, 200)
        }
    }

    /// The distance between two lines of a staff of this height.
    pub fn line_h(&self, staff_height: i64) -> (h: Ratio)
        ensures
            h.wf(),
            h@ == line_height(self.max_lines(), staff_height as int),
    {
        proof {
            use_type_invariant(self);
        }
        Ratio::new(staff_height as i128, (self.max_lines - 1) as i128)
    }

    /// The number of line slots above the five lines, and as many below.
    pub(crate) fn slots_beside(&self) -> (slots: i128)
        ensures
            2 * slots == self.max_lines() - 5,
            0 <= slots < 0x4000_0000,
            valid_lines(self.max_lines()),
    {
        proof {
            use_type_invariant(self);
        }
        ((self.max_lines - 5) / 2) as i128
    }

    /// The height that lies `twelfths / 12` line heights below `base`.
    pub(crate) fn below(&self, staff_rect: &Bounds, base: i32, twelfths: i128) -> (y: Ratio)
        requires
            -0x1_0000_0000_0000_0000_0000 <= twelfths <= 0x1_0000_0000_0000_0000_0000,
        ensures
            y.wf(),
            y@ == base as real + (twelfths as real / 12real) * line_height(
                self.max_lines(),
                staff_rect.spec_height(),
            ),
    {
        proof {
            use_type_invariant(self);
        }
        let slots: i128 = (self.max_lines - 1) as i128;
        let height: i128 = staff_rect.height() as i128;
        proof {
            lemma_below(base as int, twelfths as int, height as int, slots as int);
        }
        Ratio::new(12 * (base as i128) * slots + twelfths * height, 12 * slots)
    }

    /// The rectangle between the top and the bottom one of the five lines.
    pub fn lines_rect(&self, staff_rect: Bounds) -> (lines_rect: Rect)
        ensures
            lines_rect.wf(),
            lines_rect@ == staff_lines_rect(self.max_lines(), staff_rect),
    {
        let slots = self.slots_beside();
        let lines_rect = Rect {
            x0: Ratio::from_int(staff_rect.x0 as i64),
            y0: self.below(&staff_rect, staff_rect.y0, 12 * slots),
            x1: Ratio::from_int(staff_rect.x1 as i64),
            y1: self.below(&staff_rect, staff_rect.y1, -12 * slots),
        };
        proof {
            let line_h = line_height(self.max_lines(), staff_rect.spec_height());
            let vpad = line_h * ((self.max_lines() - 5) as real / 2real);
            assert(((12 * slots) as real / 12real) * line_h == vpad) by (nonlinear_arith)
                requires
                    (12 * slots) as real / 12real == (self.max_lines() - 5) as real / 2real,
                    vpad == line_h * ((self.max_lines() - 5) as real / 2real),
            ;
            assert(((-12 * slots) as real / 12real) * line_h == -vpad) by (nonlinear_arith)
                requires
                    (-12 * slots) as real / 12real == -((self.max_lines() - 5) as real / 2real),
                    vpad == line_h * ((self.max_lines() - 5) as real / 2real),
            ;
        }
        lines_rect
    }

    /// The line at `line_nr`, counted upward from the bottom line of the
    /// staff: as wide as the staff and centred in it, unless a width or a
    /// centre is given.
    pub fn line_coords(
        &self,
        staff_rect: Bounds,
        line_nr: LineIndex,
        width: Option<Ratio>,
        center: Option<Ratio>,
    ) -> (line: Rect)
        requires
            width matches Some(w) ==> w.small(),
            center matches Some(x) ==> x.small(),
        ensures
            line.wf(),
            line@ == line_rect(
                self.max_lines(),
                staff_rect,
                line_nr@,
                ratio_view(width),
                ratio_view(center),
            ),
    {
        let slots = self.slots_beside();
        let m_width = match width {
            Some(w) => w,
            None => Ratio::from_int(staff_rect.width()),
        };
        let m_center = match center {
            Some(x) => x,
            None => {
                assert(frac(staff_rect.x0 + staff_rect.x1, 2) == (staff_rect.x0 + staff_rect.x1) as real
                    / 2real);
                Ratio::new(staff_rect.x0 as i128 + staff_rect.x1 as i128, 2)
            },
        };
        let pos_y = self.below(&staff_rect, staff_rect.y1, -12 * slots - 6 * (line_nr.halves as i128));
        let half = m_width.half();
        let line = Rect { x0: m_center.sub(&half), y0: pos_y, x1: m_center.add(&half), y1: pos_y };
        proof {
            let line_h = line_height(self.max_lines(), staff_rect.spec_height());
            let vpad = line_h * ((self.max_lines() - 5) as real / 2real);
            let twelfths = -12 * slots - 6 * line_nr.halves;
            assert((twelfths as real / 12real) * line_h == -vpad - line_h * line_nr@)
                by (nonlinear_arith)
                requires
                    twelfths as real / 12real == -((self.max_lines() - 5) as real / 2real)
                        - line_nr@,
                    vpad == line_h * ((self.max_lines() - 5) as real / 2real),
            ;
        }
        line
    }

    /// The line of the note that the staff shows.
    pub fn note_line(&self) -> (line: LineIndex)
        requires
            self.note() is Some,
        ensures
            line@ == resolved_line(self.note_number()->Some_0, self.preference()),
            line.halves == resolved_halves(self.note_number()->Some_0, self.preference()),
    {
        let note = self.midi_note.unwrap();
        note.line(self.alteration)
    }

    /// The accidental of the note that the staff shows.
    pub fn note_alt(&self) -> (alt: NoteAlt)
        requires
            self.note() is Some,
        ensures
            alt == resolved_alteration(self.note_number()->Some_0, self.preference()),
    {
        let note = self.midi_note.unwrap();
        note.alteration(self.alteration)
    }

    /// The line on which the bottom line of the staff lies.
    pub fn staff_line(&self) -> (line: LineIndex)
        ensures
            line@ == reference_line(),
            line.halves == REFERENCE_HALVES,
    {
        match Note::new(STAFF_NOTE) {
            Ok(note) => note.line(NoteAlt::Flat),
            Err(_) => LineIndex { halves: REFERENCE_HALVES },
        }
    }

}

/// A base plus twelfths of a line height, as one fraction.
proof fn lemma_below(base: int, twelfths: int, height: int, slots: int)
    requires
        slots >= 4,
        slots <= 0x8000_0000,
        -0x8000_0000 <= base <= 0x8000_0000,
        -0x1_0000_0000 <= height <= 0x1_0000_0000,
        -0x1_0000_0000_0000_0000_0000 <= twelfths <= 0x1_0000_0000_0000_0000_0000,
    ensures
        frac(12 * base * slots + twelfths * height, 12 * slots) == base as real + (twelfths as real
            / 12real) * (height as real / slots as real),
        -0x4_0000_0000_0000_0000 <= 12 * base * slots <= 0x4_0000_0000_0000_0000,
        -0x1_0000_0000_0000_0000_0000_0000_0000 <= twelfths * height
            <= 0x1_0000_0000_0000_0000_0000_0000_0000,
{
    assert(-0x4_0000_0000_0000_0000 <= 12 * base * slots <= 0x4_0000_0000_0000_0000)
        by (nonlinear_arith)
        requires
            4 <= slots <= 0x8000_0000,
            -0x8000_0000 <= base <= 0x8000_0000,
    ;
    assert(-0x1_0000_0000_0000_0000_0000_0000_0000 <= twelfths * height
        <= 0x1_0000_0000_0000_0000_0000_0000_0000) by (nonlinear_arith)
        requires
            -0x1_0000_0000 <= height <= 0x1_0000_0000,
            -0x1_0000_0000_0000_0000_0000 <= twelfths <= 0x1_0000_0000_0000_0000_0000,
    ;
    let b = base as real;
    let q = twelfths as real;
    let h = height as real;
    let s = slots as real;
    let value = b + (q / 12real) * (h / s);
    assert((12 * base * slots + twelfths * height) as real == 12real * b * s + q * h)
        by (nonlinear_arith)
        requires
            b == base as real,
            q == twelfths as real,
            h == height as real,
            s == slots as real,
    ;
    assert((12 * slots) as real == 12real * s);
    assert(12real * b * s + q * h == value * (12real * s)) by (nonlinear_arith)
        requires
            s >= 4real,
            value == b + (q / 12real) * (h / s),
    ;
    lemma_frac_is(12 * base * slots + twelfths * height, 12 * slots, value);
}

/// The five lines span four line heights, however many line slots the staff
/// shows.
pub proof fn lemma_staff_lines_height(max_lines: int, staff_rect: Bounds)
    requires
        valid_lines(max_lines),
    ensures
        staff_lines_rect(max_lines, staff_rect).height() == 4real * line_height(
            max_lines,
            staff_rect.spec_height(),
        ),
{
    let h = staff_rect.spec_height() as real;
    let s = (max_lines - 1) as real;
    let pad = (max_lines - 5) as real / 2real;
    let line_h = h / s;
    assert(staff_rect.y1 as real - staff_rect.y0 as real == h);
    assert(2real * pad == s - 4real);
    assert(line_h * s == h) by (nonlinear_arith)
        requires
            s >= 4real,
            line_h == h / s,
    ;
    assert(h - 2real * (line_h * pad) == 4real * line_h) by (nonlinear_arith)
        requires
            line_h * s == h,
            2real * pad == s - 4real,
    ;
}

} // verus!
