//! Painting: the ordered list of draw commands for a layout.

use vstd::prelude::*;

use crate::geometry::{Bounds, Rect, RectView};
use crate::glyph::Glyph;
use crate::layout::{LayoutResult, LayoutView};
use crate::note::{LineIndex, NoteAlt};
use crate::ratio::Ratio;
use crate::staff::{line_rect, stroke_width, Glyphs, Staff};

verus! {

/// The two colours of a staff.
#[derive(Clone, Copy, Debug, PartialEq, Eq, Structural)]
pub enum Color {
    White,
    Black,
}

/// One step of painting.
#[derive(Clone, Copy, Debug, PartialEq, Eq, Structural)]
pub enum DrawCommand {
    /// Fill an area with a colour.
    Fill { area: Bounds, color: Color },
    /// Draw a line from the left end of `line` to its right end.
    Stroke { line: Rect, color: Color, width: Ratio },
    /// Draw a symbol into a rectangle.
    Glyph { glyph: Glyph, rect: Rect },
}

/// What a draw command stands for.
pub enum DrawView {
    Fill { area: Bounds, color: Color },
    Stroke { line: RectView, color: Color, width: real },
    Glyph { glyph: Glyph, rect: RectView },
}

impl View for DrawCommand {
    type V = DrawView;

    open spec fn view(&self) -> DrawView {
        match *self {
            DrawCommand::Fill { area, color } => DrawView::Fill { area, color },
            DrawCommand::Stroke { line, color, width } => DrawView::Stroke {
                line: line@,
                color,
                width: width@,
            },
            DrawCommand::Glyph { glyph, rect } => DrawView::Glyph { glyph, rect: rect@ },
        }
    }
}

/// What a list of draw commands stands for.
pub open spec fn draw_views(commands: Seq<DrawCommand>) -> Seq<DrawView> {
    Seq::new(commands.len(), |i: int| commands[i]@)
}

/// The strokes of the five lines of the staff, from the bottom one up.
pub open spec fn staff_strokes(max_lines: int, bounds: Bounds) -> Seq<DrawView> {
    Seq::new(
        5,
        |i: int|
            DrawView::Stroke {
                line: line_rect(max_lines, bounds, i as real, None, None),
                color: Color::Black,
                width: stroke_width(bounds.spec_height()),
            },
    )
}

/// The strokes of ledger lines.
pub open spec fn ledger_strokes(bounds: Bounds, ledger_lines: Seq<RectView>) -> Seq<DrawView> {
    Seq::new(
        ledger_lines.len(),
        |i: int|
            DrawView::Stroke {
                line: ledger_lines[i],
                color: Color::Black,
                width: stroke_width(bounds.spec_height()),
            },
    )
}

/// The command that draws an accidental, if there is one to draw.
pub open spec fn accidental_commands(
    glyphs: Glyphs,
    accidental: Option<(NoteAlt, RectView)>,
) -> Seq<DrawView> {
    match accidental {
        Some((alt, rect)) => match glyphs.accidental(alt) {
            Some(glyph) => seq![DrawView::Glyph { glyph, rect }],
            None => Seq::empty(),
        },
        None => Seq::empty(),
    }
}

/// What is painted for the note of a layout: the note head, then its ledger
/// lines, then its accidental; nothing where the layout shows no note.
pub open spec fn note_commands(glyphs: Glyphs, layout: LayoutView) -> Seq<DrawView> {
    match layout.note_head {
        None => Seq::empty(),
        Some(rect) => seq![DrawView::Glyph { glyph: glyphs.note, rect }] + ledger_strokes(
            layout.bounds,
            layout.ledger_lines,
        ) + accidental_commands(glyphs, layout.accidental),
    }
}

/// What is painted for a layout, in order: the background, the five lines,
/// the clef, and then what belongs to the note.
pub open spec fn paint_of(max_lines: int, glyphs: Glyphs, layout: LayoutView) -> Seq<DrawView> {
    seq![DrawView::Fill { area: layout.bounds, color: Color::White }] + staff_strokes(
        max_lines,
        layout.bounds,
    ) + seq![DrawView::Glyph { glyph: glyphs.clef, rect: layout.clef }] + note_commands(
        glyphs,
        layout,
    )
}

impl Staff {
    /// What is to be painted for a layout, in order: the white background,
    /// the five lines, the clef, and for a note its head, its ledger lines
    /// and its accidental.
    pub fn paint(&self, layout: &LayoutResult) -> (commands: Vec<DrawCommand>)
        ensures
            draw_views(commands@) == paint_of(self.max_lines(), self.glyphs(), layout@),
    {
        let bounds = layout.bounds;
        let glyphs = self.glyph_handles();
        let stroke = Self::line_w(bounds.height());
        let mut commands: Vec<DrawCommand> = Vec::new();
        commands.push(DrawCommand::Fill { area: bounds, color: Color::White });
        let mut i: i32 = 0;
        while i < 5
            invariant
                0 <= i <= 5,
                bounds == layout.bounds,
                stroke@ == stroke_width(bounds.spec_height()),
                commands@.len() == 1 + i,
                commands@[0]@ == (DrawView::Fill { area: bounds, color: Color::White }),
                forall|j: int|
                    0 <= j < i ==> (#[trigger] commands@[1 + j])@ == staff_strokes(
                        self.max_lines(),
                        bounds,
                    )[j],
            decreases 5 - i,
        {
            let line = self.line_coords(bounds, LineIndex::whole(i), None, None);
            commands.push(DrawCommand::Stroke { line, color: Color::Black, width: stroke });
            i = i + 1;
        }
        commands.push(DrawCommand::Glyph { glyph: glyphs.clef, rect: layout.clef });
        let ghost head = draw_views(commands@);
        proof {
            let lead = seq![DrawView::Fill { area: bounds, color: Color::White }] + staff_strokes(
                self.max_lines(),
                bounds,
            ) + seq![DrawView::Glyph { glyph: self.glyphs().clef, rect: layout@.clef }];
            assert(head.len() == lead.len());
            assert forall|j: int| 0 <= j < head.len() implies head[j] == lead[j] by {
                if 1 <= j <= 5 {
                    assert(commands@[1 + (j - 1)]@ == staff_strokes(self.max_lines(), bounds)[j - 1]);
                }
            }
            assert(head =~= lead);
        }
        match layout.note_head {
            None => {
                assert(draw_views(commands@) =~= head + note_commands(self.glyphs(), layout@));
            },
            Some(rect) => {
                commands.push(DrawCommand::Glyph { glyph: glyphs.note, rect });
                let mut k: usize = 0;
                while k < layout.ledger_lines.len()
                    invariant
                        0 <= k <= layout.ledger_lines@.len(),
                        bounds == layout.bounds,
                        stroke@ == stroke_width(bounds.spec_height()),
                        commands@.len() == head.len() + 1 + k,
                        forall|j: int| 0 <= j < head.len() ==> (#[trigger] commands@[j])@ == head[j],
                        commands@[head.len() as int]@ == (DrawView::Glyph {
                            glyph: self.glyphs().note,
                            rect: rect@,
                        }),
                        forall|j: int|
                            0 <= j < k ==> (#[trigger] commands@[head.len() + 1 + j])@
                                == ledger_strokes(bounds, layout@.ledger_lines)[j],
                    decreases layout.ledger_lines@.len() - k,
                {
                    let line = layout.ledger_lines[k];
                    commands.push(DrawCommand::Stroke { line, color: Color::Black, width: stroke });
                    k = k + 1;
                }
                let ghost body = draw_views(commands@);
                proof {
                    let strokes = ledger_strokes(bounds, layout@.ledger_lines);
                    let so_far = head + seq![
                        DrawView::Glyph { glyph: self.glyphs().note, rect: rect@ },
                    ] + strokes;
                    assert(body.len() == so_far.len());
                    assert forall|j: int| 0 <= j < body.len() implies body[j] == so_far[j] by {
                        if j < head.len() {
                            assert(commands@[j]@ == head[j]);
                        } else if j > head.len() {
                            let at = j - head.len() - 1;
                            assert(commands@[head.len() + 1 + at]@ == strokes[at]);
                        }
                    }
                    assert(body =~= so_far);
                }
                match layout.accidental {
                    None => {},
                    Some(accidental) => match accidental.alt {
                        NoteAlt::Sharp => {
                            commands.push(
                                DrawCommand::Glyph { glyph: glyphs.sharp, rect: accidental.rect },
                            );
                        },
                        NoteAlt::Flat => {
                            commands.push(
                                DrawCommand::Glyph { glyph: glyphs.flat, rect: accidental.rect },
                            );
                        },
                        NoteAlt::White => {},
                    },
                }
                proof {
                    assert(draw_views(commands@) =~= body + accidental_commands(
                        self.glyphs(),
                        layout@.accidental,
                    ));
                    assert(note_commands(self.glyphs(), layout@) =~= seq![
                        DrawView::Glyph { glyph: self.glyphs().note, rect: rect@ },
                    ] + ledger_strokes(bounds, layout@.ledger_lines) + accidental_commands(
                        self.glyphs(),
                        layout@.accidental,
                    ));
                    assert(draw_views(commands@) =~= head + note_commands(self.glyphs(), layout@));
                }
            },
        }
        commands
    }
}

} // verus!
