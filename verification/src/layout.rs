//! The layout of a staff: where the lines, the clef, the note head, its
//! accidental and its ledger lines lie within a container.
//!
//! The staff offers each symbol a box; the host measures how wide the symbol
//! is in its box, and the layout places it. Nothing is kept between two
//! layouts: each is made afresh from the container, the staff and the widths.

use vstd::prelude::*;

use crate::geometry::{rect_views, Bounds, Rect, RectView};
use crate::note::{
    lemma_line_range, lemma_resolved_halves, resolved_alteration, resolved_halves, resolved_line,
    LineIndex, NoteAlt,
};
use crate::ratio::{frac, Ratio};
use crate::staff::{
    line_height, line_rect, reference_line, staff_lines_rect, Staff, REFERENCE_HALVES, STAFF_NOTE,
};

verus! {

/// The widths that the host measured for the note head and for the
/// accidental, each fitted into the box that the staff offers it.
#[derive(Clone, Copy, Debug, PartialEq, Eq, Structural)]
pub struct GlyphWidths {
    pub note: i32,
    pub accidental: i32,
}

/// A width and a height.
#[derive(Clone, Copy, Debug, PartialEq, Eq, Structural)]
pub struct Size {
    pub width: Ratio,
    pub height: Ratio,
}

/// The boxes that the staff offers to its symbols: each may take the full
/// width and has a fixed height.
#[derive(Clone, Copy, Debug, PartialEq, Eq, Structural)]
pub struct GlyphBoxes {
    pub clef: Size,
    pub note: Size,
    pub accidental: Size,
}

/// An accidental and the place where it is drawn.
#[derive(Clone, Copy, Debug, PartialEq, Eq, Structural)]
pub struct Accidental {
    pub alt: NoteAlt,
    pub rect: Rect,
}

/// Where each element of a staff lies within its container.
#[derive(Debug, PartialEq, Eq)]
pub struct LayoutResult {
    /// The container.
    pub bounds: Bounds,
    /// The five lines, from the top one to the bottom one.
    pub staff_lines: Rect,
    /// The clef.
    pub clef: Rect,
    /// The note head, if a note is shown.
    pub note_head: Option<Rect>,
    /// The accidental, if the note has one.
    pub accidental: Option<Accidental>,
    /// The ledger lines, from the lowest up.
    pub ledger_lines: Vec<Rect>,
}

/// The elements of a staff that a layout places.
#[derive(Clone, Copy, Debug, PartialEq, Eq, Structural)]
pub enum Element {
    StaffLines,
    Clef,
    NoteHead,
    Accidental,
    /// A ledger line, counted from the lowest, which is number 0.
    LedgerLine(usize),
}

impl LayoutResult {
    /// The rectangle of an element, if the layout holds the element.
    pub open spec fn placed(self, element: Element) -> Option<Rect> {
        match element {
            Element::StaffLines => Some(self.staff_lines),
            Element::Clef => Some(self.clef),
            Element::NoteHead => self.note_head,
            Element::Accidental => match self.accidental {
                Some(accidental) => Some(accidental.rect),
                None => None,
            },
            Element::LedgerLine(i) => if i < self.ledger_lines@.len() {
                Some(self.ledger_lines@[i as int])
            } else {
                None
            },
        }
    }

    /// The rectangle of an element, if the layout holds the element.
    pub fn rect_of(&self, element: Element) -> (rect: Option<Rect>)
        ensures
            rect == self.placed(element),
    {
        match element {
            Element::StaffLines => Some(self.staff_lines),
            Element::Clef => Some(self.clef),
            Element::NoteHead => self.note_head,
            Element::Accidental => match self.accidental {
                Some(accidental) => Some(accidental.rect),
                None => None,
            },
            Element::LedgerLine(i) => if i < self.ledger_lines.len() {
                Some(self.ledger_lines[i])
            } else {
                None
            },
        }
    }

    /// Every coordinate is a ratio in lowest terms.
    pub open spec fn wf(self) -> bool {
        &&& self.staff_lines.wf()
        &&& self.clef.wf()
        &&& self.note_head matches Some(rect) ==> rect.wf()
        &&& self.accidental matches Some(accidental) ==> accidental.rect.wf()
        &&& forall|i: int| 0 <= i < self.ledger_lines@.len() ==> (#[trigger] self.ledger_lines@[i]).wf()
    }
}

/// What a layout stands for.
pub struct LayoutView {
    pub bounds: Bounds,
    pub staff_lines: RectView,
    pub clef: RectView,
    pub note_head: Option<RectView>,
    pub accidental: Option<(NoteAlt, RectView)>,
    pub ledger_lines: Seq<RectView>,
}

impl View for LayoutResult {
    type V = LayoutView;

    open spec fn view(&self) -> LayoutView {
        LayoutView {
            bounds: self.bounds,
            staff_lines: self.staff_lines@,
            clef: self.clef@,
            note_head: match self.note_head {
                Some(rect) => Some(rect@),
                None => None,
            },
            accidental: match self.accidental {
                Some(accidental) => Some((accidental.alt, accidental.rect@)),
                None => None,
            },
            ledger_lines: rect_views(self.ledger_lines@),
        }
    }
}

/// The box of the clef: as wide as the container and six line heights high,
/// from one line height above the top line.
pub open spec fn clef_rect(max_lines: int, staff_rect: Bounds) -> RectView {
    let lines_rect = staff_lines_rect(max_lines, staff_rect);
    let line_h = line_height(max_lines, staff_rect.spec_height());
    RectView::at(
        lines_rect.x0,
        lines_rect.y0 - line_h,
        staff_rect.spec_width() as real,
        line_h * 6real,
    )
}

/// The box of a note head `diff` lines above the bottom line: one line
/// height high, centred on its line and in the staff.
pub open spec fn note_rect(
    max_lines: int,
    staff_rect: Bounds,
    diff: real,
    note_width: real,
) -> RectView {
    let lines_rect = staff_lines_rect(max_lines, staff_rect);
    let line_h = line_height(max_lines, staff_rect.spec_height());
    RectView::at(
        (lines_rect.x0 + lines_rect.x1) / 2real - note_width / 2real,
        lines_rect.y1 - (line_h * diff + line_h * (1real / 2real)),
        note_width,
        line_h,
    )
}

/// By which part of a line height an accidental is raised above the top of
/// its note head.
pub open spec fn up_coeff(alt: NoteAlt) -> real {
    if alt == NoteAlt::Flat {
        3real / 2real
    } else {
        4real
    }
}

/// The box of the accidental of a note head: one and a half line heights
/// high, twice its own width to the left of the note head.
pub open spec fn alt_rect(
    max_lines: int,
    staff_rect: Bounds,
    diff: real,
    note_width: real,
    alt: NoteAlt,
    alt_width: real,
) -> RectView {
    let note = note_rect(max_lines, staff_rect, diff, note_width);
    let line_h = line_height(max_lines, staff_rect.spec_height());
    RectView::at(
        note.x0 - alt_width * 2real,
        note.y0 - line_h / up_coeff(alt),
        alt_width,
        line_h * (3real / 2real),
    )
}

/// Whether a note `diff` lines above the bottom line needs a ledger line at
/// the whole line `line`: below the staff from the note up, above it from
/// the first line over the staff up to the note.
pub open spec fn needs_ledger(diff: real, line: int) -> bool {
    ||| diff <= line as real && line < 0
    ||| 5 <= line && line as real <= diff
}

/// The whole part of a line index: the index without its half.
pub open spec fn whole_part(diff: LineIndex) -> int {
    if diff.halves >= 0 {
        diff.halves / 2
    } else {
        -((-diff.halves) / 2)
    }
}

/// The lowest ledger line of a note `diff` lines above the bottom line.
pub open spec fn ledger_first(diff: LineIndex) -> int {
    if whole_part(diff) < 0 {
        whole_part(diff)
    } else {
        5
    }
}

/// The number of ledger lines of a note `diff` lines above the bottom line.
pub open spec fn ledger_count(diff: LineIndex) -> nat {
    if whole_part(diff) < 0 {
        (-whole_part(diff)) as nat
    } else if whole_part(diff) > 4 {
        (whole_part(diff) - 4) as nat
    } else {
        0
    }
}

/// The ledger lines of a note `diff` lines above the bottom line, from the
/// lowest up: each a seventh of the container wide and centred in it.
pub open spec fn ledger_rects(max_lines: int, staff_rect: Bounds, diff: LineIndex) -> Seq<
    RectView,
> {
    Seq::new(
        ledger_count(diff),
        |i: int|
            line_rect(
                max_lines,
                staff_rect,
                (ledger_first(diff) + i) as real,
                Some(staff_rect.spec_width() as real / 7real),
                Some(staff_rect.center_x()),
            ),
    )
}

/// How many lines above the bottom line of the staff a note sits.
pub open spec fn note_diff(midi: int, preferred: NoteAlt) -> LineIndex {
    LineIndex { halves: (resolved_halves(midi, preferred) - REFERENCE_HALVES) as i64 }
}

/// The layout of a staff in a container: the lines and the clef, and for a
/// note its head, its accidental if it has one, and its ledger lines.
pub open spec fn layout_of(
    max_lines: int,
    preferred: NoteAlt,
    note: Option<int>,
    staff_rect: Bounds,
    widths: GlyphWidths,
) -> LayoutView {
    match note {
        None => LayoutView {
            bounds: staff_rect,
            staff_lines: staff_lines_rect(max_lines, staff_rect),
            clef: clef_rect(max_lines, staff_rect),
            note_head: None,
            accidental: None,
            ledger_lines: Seq::empty(),
        },
        Some(midi) => {
            let diff = note_diff(midi, preferred);
            let alt = resolved_alteration(midi, preferred);
            LayoutView {
                bounds: staff_rect,
                staff_lines: staff_lines_rect(max_lines, staff_rect),
                clef: clef_rect(max_lines, staff_rect),
                note_head: Some(note_rect(max_lines, staff_rect, diff@, widths.note as real)),
                accidental: if alt == NoteAlt::White {
                    None
                } else {
                    Some(
                        (
                            alt,
                            alt_rect(
                                max_lines,
                                staff_rect,
                                diff@,
                                widths.note as real,
                                alt,
                                widths.accidental as real,
                            ),
                        ),
                    )
                },
                ledger_lines: ledger_rects(max_lines, staff_rect, diff),
            }
        },
    }
}

impl Staff {
    /// The whole lines that need a ledger line for a note `diff` lines above
    /// the bottom line: from the first to one before the second, or none.
    pub fn ledger_range(diff: LineIndex) -> (range: Option<(i64, i64)>)
        ensures
            match range {
                None => ledger_count(diff) == 0,
                Some((first, end)) => {
                    &&& first == ledger_first(diff)
                    &&& end - first == ledger_count(diff)
                    &&& -0x4000_0000_0000_0000 <= first < end <= 0x4000_0000_0000_0000
                },
            },
    {
        let whole: i64 = if diff.halves >= 0 {
            diff.halves / 2
        } else if diff.halves == i64::MIN {
            -0x4000_0000_0000_0000
        } else {
            -((-diff.halves) / 2)
        };
        if whole < 0 {
            Some((whole, 0))
        } else if whole > 4 {
            Some((5, whole + 1))
        } else {
            None
        }
    }

    /// The boxes that the staff offers to its symbols in this container: the
    /// clef six line heights high, the note head one, the accidental one and
    /// a half, each as wide as the container.
    pub fn glyph_boxes(&self, staff_rect: Bounds) -> (boxes: GlyphBoxes)
        ensures
            boxes.clef.width@ == staff_rect.spec_width() as real,
            boxes.note.width@ == staff_rect.spec_width() as real,
            boxes.accidental.width@ == staff_rect.spec_width() as real,
            boxes.clef.height@ == line_height(self.max_lines(), staff_rect.spec_height()) * 6real,
            boxes.note.height@ == line_height(self.max_lines(), staff_rect.spec_height()),
            boxes.accidental.height@ == line_height(self.max_lines(), staff_rect.spec_height()) * (
            3real / 2real),
    {
        let width = Ratio::from_int(staff_rect.width());
        GlyphBoxes {
            clef: Size { width, height: self.below(&staff_rect, 0, 72) },
            note: Size { width, height: self.below(&staff_rect, 0, 12) },
            accidental: Size { width, height: self.below(&staff_rect, 0, 18) },
        }
    }

    /// The box of the clef.
    fn clef_box(&self, staff_rect: Bounds) -> (clef: Rect)
        ensures
            clef.wf(),
            clef@ == clef_rect(self.max_lines(), staff_rect),
    {
        let slots = self.slots_beside();
        proof {
            let line_h = line_height(self.max_lines(), staff_rect.spec_height());
            let pad = (self.max_lines() - 5) as real / 2real;
            lemma_from_top(line_h, 12 * slots - 12, pad, -1real);
            lemma_from_top(line_h, 12 * slots + 60, pad, 5real);
        }
        Rect {
            x0: Ratio::from_int(staff_rect.x0 as i64),
            y0: self.below(&staff_rect, staff_rect.y0, 12 * slots - 12),
            x1: Ratio::from_int(staff_rect.x1 as i64),
            y1: self.below(&staff_rect, staff_rect.y0, 12 * slots + 60),
        }
    }

    /// The box of a note head `diff` lines above the bottom line.
    fn note_box(&self, staff_rect: Bounds, diff: LineIndex, note_width: i32) -> (note: Rect)
        requires
            -0x1_0000_0000 <= diff.halves <= 0x1_0000_0000,
        ensures
            note.wf(),
            note@ == note_rect(self.max_lines(), staff_rect, diff@, note_width as real),
    {
        let slots = self.slots_beside();
        let middle: i128 = staff_rect.x0 as i128 + staff_rect.x1 as i128;
        let up: i128 = -12 * slots - 6 * (diff.halves as i128);
        proof {
            assert(frac(middle - note_width, 2) == (middle - note_width) as real / 2real);
            assert(frac(middle + note_width, 2) == (middle + note_width) as real / 2real);
            let line_h = line_height(self.max_lines(), staff_rect.spec_height());
            let pad = (self.max_lines() - 5) as real / 2real;
            lemma_from_bottom(line_h, up - 6, pad, diff@, -1real / 2real);
            assert(line_h * (-1real / 2real) == -(line_h * (1real / 2real))) by (nonlinear_arith);
            lemma_from_bottom(line_h, up + 6, pad, diff@, 1real / 2real);
        }
        let note = Rect {
            x0: Ratio::new(middle - note_width as i128, 2),
            y0: self.below(&staff_rect, staff_rect.y1, up - 6),
            x1: Ratio::new(middle + note_width as i128, 2),
            y1: self.below(&staff_rect, staff_rect.y1, up + 6),
        };
        note
    }

    /// The box of the accidental of a note head `diff` lines above the
    /// bottom line.
    fn alt_box(
        &self,
        staff_rect: Bounds,
        diff: LineIndex,
        note_width: i32,
        alt: NoteAlt,
        alt_width: i32,
    ) -> (accidental: Rect)
        requires
            -0x1_0000_0000 <= diff.halves <= 0x1_0000_0000,
        ensures
            accidental.wf(),
            accidental@ == alt_rect(
                self.max_lines(),
                staff_rect,
                diff@,
                note_width as real,
                alt,
                alt_width as real,
            ),
    {
        let slots = self.slots_beside();
        let middle: i128 = staff_rect.x0 as i128 + staff_rect.x1 as i128;
        let raise: i128 = match alt {
            NoteAlt::Flat => 8,
            _ => 3,
        };
        let up: i128 = -12 * slots - 6 * (diff.halves as i128) - 6 - raise;
        let left: i128 = middle - note_width as i128 - 4 * (alt_width as i128);
        proof {
            assert(frac(left as int, 2) == left as real / 2real);
            assert(frac(left + 2 * alt_width, 2) == (left + 2 * alt_width) as real / 2real);
            let line_h = line_height(self.max_lines(), staff_rect.spec_height());
            let pad = (self.max_lines() - 5) as real / 2real;
            lemma_raise(line_h, alt);
            let half = line_h * (1real / 2real);
            let tall = line_h * (3real / 2real);
            if alt == NoteAlt::Flat {
                let raised = line_h * (8real / 12real);
                lemma_from_bottom(line_h, up as int, pad, diff@, -14real / 12real);
                lemma_from_bottom(line_h, up + 18, pad, diff@, 4real / 12real);
                assert(line_h * (-14real / 12real) == -half - raised) by (nonlinear_arith)
                    requires
                        half == line_h * (1real / 2real),
                        raised == line_h * (8real / 12real),
                ;
                assert(line_h * (4real / 12real) == -half - raised + tall) by (nonlinear_arith)
                    requires
                        half == line_h * (1real / 2real),
                        raised == line_h * (8real / 12real),
                        tall == line_h * (3real / 2real),
                ;
            } else {
                let raised = line_h * (3real / 12real);
                lemma_from_bottom(line_h, up as int, pad, diff@, -9real / 12real);
                lemma_from_bottom(line_h, up + 18, pad, diff@, 9real / 12real);
                assert(line_h * (-9real / 12real) == -half - raised) by (nonlinear_arith)
                    requires
                        half == line_h * (1real / 2real),
                        raised == line_h * (3real / 12real),
                ;
                assert(line_h * (9real / 12real) == -half - raised + tall) by (nonlinear_arith)
                    requires
                        half == line_h * (1real / 2real),
                        raised == line_h * (3real / 12real),
                        tall == line_h * (3real / 2real),
                ;
            }
        }
        let accidental = Rect {
            x0: Ratio::new(left, 2),
            y0: self.below(&staff_rect, staff_rect.y1, up),
            x1: Ratio::new(left + 2 * (alt_width as i128), 2),
            y1: self.below(&staff_rect, staff_rect.y1, up + 18),
        };
        accidental
    }

    /// The ledger lines of a note `diff` lines above the bottom line, from
    /// the lowest up: each a seventh of the container wide and centred in it.
    pub fn ledger_lines(&self, staff_rect: Bounds, diff: LineIndex) -> (lines: Vec<Rect>)
        ensures
            rect_views(lines@) == ledger_rects(self.max_lines(), staff_rect, diff),
            forall|i: int| 0 <= i < lines@.len() ==> (#[trigger] lines@[i]).wf(),
    {
        let mut lines: Vec<Rect> = Vec::new();
        match Self::ledger_range(diff) {
            None => {
                assert(rect_views(lines@) =~= ledger_rects(self.max_lines(), staff_rect, diff));
            },
            Some((first, end)) => {
                let width = Ratio::new(staff_rect.width() as i128, 7);
                let center = Ratio::new(staff_rect.x0 as i128 + staff_rect.x1 as i128, 2);
                proof {
                    assert(frac(staff_rect.spec_width(), 7) == staff_rect.spec_width() as real
                        / 7real);
                    assert(frac(staff_rect.x0 + staff_rect.x1, 2) == staff_rect.center_x());
                }
                let mut i = first;
                while i < end
                    invariant
                        first <= i <= end,
                        -0x4000_0000_0000_0000 <= first,
                        end <= 0x4000_0000_0000_0000,
                        width.small(),
                        center.small(),
                        width@ == staff_rect.spec_width() as real / 7real,
                        center@ == staff_rect.center_x(),
                        lines@.len() == i - first,
                        forall|j: int| 0 <= j < lines@.len() ==> (#[trigger] lines@[j]).wf(),
                        forall|j: int|
                            0 <= j < lines@.len() ==> (#[trigger] lines@[j])@ == line_rect(
                                self.max_lines(),
                                staff_rect,
                                (first + j) as real,
                                Some(staff_rect.spec_width() as real / 7real),
                                Some(staff_rect.center_x()),
                            ),
                    decreases end - i,
                {
                    let line = self.line_coords(
                        staff_rect,
                        LineIndex { halves: 2 * i },
                        Some(width),
                        Some(center),
                    );
                    lines.push(line);
                    i = i + 1;
                }
                assert(rect_views(lines@) =~= ledger_rects(self.max_lines(), staff_rect, diff));
            },
        }
        lines
    }

    /// Lays the staff out in a container: the lines and the clef, and for
    /// the note that the staff shows its head, its accidental and its ledger
    /// lines. `widths` holds what the host measured for the note head and for
    /// the accidental in the boxes of `glyph_boxes`.
    pub fn layout(&self, staff_rect: Bounds, widths: GlyphWidths) -> (out: LayoutResult)
        ensures
            out.wf(),
            out@ == layout_of(
                self.max_lines(),
                self.preference(),
                self.note_number(),
                staff_rect,
                widths,
            ),
    {
        let staff_lines = self.lines_rect(staff_rect);
        let clef = self.clef_box(staff_rect);
        if self.current_note().is_some() {
            let note_line = self.note_line();
            let staff_line = self.staff_line();
            proof {
                use_type_invariant(self);
                let note = self.note()->Some_0;
                note.lemma_midi_range();
                lemma_line_range(note.midi(), self.preference());
            }
            let diff = LineIndex { halves: note_line.halves - staff_line.halves };
            let note_head = self.note_box(staff_rect, diff, widths.note);
            let note_alt = self.note_alt();
            let accidental = match note_alt {
                NoteAlt::White => None,
                _ => Some(
                    Accidental {
                        alt: note_alt,
                        rect: self.alt_box(staff_rect, diff, widths.note, note_alt, widths.accidental),
                    },
                ),
            };
            let ledger_lines = self.ledger_lines(staff_rect, diff);
            LayoutResult {
                bounds: staff_rect,
                staff_lines,
                clef,
                note_head: Some(note_head),
                accidental,
                ledger_lines,
            }
        } else {
            let out = LayoutResult {
                bounds: staff_rect,
                staff_lines,
                clef,
                note_head: None,
                accidental: None,
                ledger_lines: Vec::new(),
            };
            assert(out@.ledger_lines =~= Seq::<RectView>::empty());
            out
        }
    }
}

/// A note's distance from the bottom line of the staff is its line less the
/// line of the note that sits on the bottom line.
pub proof fn lemma_note_diff(midi: int, preferred: NoteAlt)
    requires
        0 <= midi <= 127,
    ensures
        note_diff(midi, preferred)@ == resolved_line(midi, preferred) - reference_line(),
{
    lemma_resolved_halves(midi, preferred);
    lemma_resolved_halves(STAFF_NOTE as int, NoteAlt::Flat);
    lemma_line_range(midi, preferred);
}

/// Twelfths of a line height that stand for the slots over the staff and a
/// fixed part give the sum of the two lengths.
proof fn lemma_from_top(line_h: real, twelfths: int, slots: real, fixed: real)
    requires
        twelfths as real / 12real == slots + fixed,
    ensures
        (twelfths as real / 12real) * line_h == line_h * slots + line_h * fixed,
{
    assert((slots + fixed) * line_h == line_h * slots + line_h * fixed) by (nonlinear_arith);
}

/// Twelfths of a line height that stand for a fixed part less the slots
/// under the staff and a number of lines give the fixed length less the two
/// others.
proof fn lemma_from_bottom(line_h: real, twelfths: int, slots: real, lines: real, fixed: real)
    requires
        twelfths as real / 12real == fixed - slots - lines,
    ensures
        (twelfths as real / 12real) * line_h == line_h * fixed - line_h * slots - line_h * lines,
{
    assert((fixed - slots - lines) * line_h == line_h * fixed - line_h * slots - line_h * lines)
        by (nonlinear_arith);
}

/// A sharp is raised by a quarter of a line height, a flat by two thirds.
proof fn lemma_raise(line_h: real, alt: NoteAlt)
    ensures
        line_h / up_coeff(alt) == if alt == NoteAlt::Flat {
            line_h * (8real / 12real)
        } else {
            line_h * (3real / 12real)
        },
{
    if alt == NoteAlt::Flat {
        assert(line_h / (3real / 2real) == line_h * (8real / 12real)) by (nonlinear_arith);
    } else {
        assert(line_h / 4real == line_h * (3real / 12real)) by (nonlinear_arith);
    }
}

/// The ledger lines of a note are the whole lines that need one: below the
/// staff from the note up to the line under the bottom line, above it from
/// the line over the top line up to the note.
pub proof fn lemma_ledger_line(diff: LineIndex, line: int)
    ensures
        needs_ledger(diff@, line) <==> ledger_first(diff) <= line < ledger_first(diff)
            + ledger_count(diff),
{
}

/// A note below the bottom line has as many ledger lines as the whole part
/// of its distance from that line, which is the distance itself where the
/// note sits on a line; a note from the bottom line to the top line has none;
/// a note above the top line has as many as the whole part of its distance
/// from the top line.
pub proof fn lemma_ledger_count(diff: LineIndex)
    ensures
        diff@ < 0real ==> ledger_count(diff) == -whole_part(diff),
        diff@ < 0real && diff.halves % 2 == 0 ==> ledger_count(diff) as real == -diff@,
        0real <= diff@ <= 4real ==> ledger_count(diff) == 0,
        diff@ > 4real ==> ledger_count(diff) == whole_part(diff) - 4,
{
}

/// Laying out twice with the same staff, the same container and the same
/// widths gives the same layout, coordinate for coordinate.
pub proof fn lemma_layout_twice(
    max_lines: int,
    preferred: NoteAlt,
    note: Option<int>,
    staff_rect: Bounds,
    widths: GlyphWidths,
    first: LayoutResult,
    second: LayoutResult,
)
    requires
        first.wf(),
        second.wf(),
        first@ == layout_of(max_lines, preferred, note, staff_rect, widths),
        second@ == layout_of(max_lines, preferred, note, staff_rect, widths),
    ensures
        first.bounds == second.bounds,
        first.staff_lines == second.staff_lines,
        first.clef == second.clef,
        first.note_head == second.note_head,
        first.accidental == second.accidental,
        first.ledger_lines@ == second.ledger_lines@,
{
    first.staff_lines.lemma_equal_views(second.staff_lines);
    first.clef.lemma_equal_views(second.clef);
    if let Some(rect) = first.note_head {
        rect.lemma_equal_views(second.note_head->Some_0);
    }
    if let Some(accidental) = first.accidental {
        accidental.rect.lemma_equal_views(second.accidental->Some_0.rect);
    }
    assert(first.ledger_lines@.len() == rect_views(first.ledger_lines@).len());
    assert(second.ledger_lines@.len() == rect_views(second.ledger_lines@).len());
    assert forall|i: int| 0 <= i < first.ledger_lines@.len() implies first.ledger_lines@[i]
        == second.ledger_lines@[i] by {
        assert(first.ledger_lines@[i]@ == rect_views(first.ledger_lines@)[i]);
        assert(second.ledger_lines@[i]@ == rect_views(second.ledger_lines@)[i]);
        first.ledger_lines@[i].lemma_equal_views(second.ledger_lines@[i]);
    }
    assert(first.ledger_lines@ =~= second.ledger_lines@);
}

} // verus!
