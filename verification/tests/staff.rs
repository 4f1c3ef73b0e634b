use midi_staff::error::StaffError;
use midi_staff::geometry::{Bounds, Rect};
use midi_staff::glyph::{Assets, Glyph, GlyphKind};
use midi_staff::layout::{Element, GlyphWidths, LayoutResult};
use midi_staff::note::{LineIndex, Note, NoteAlt};
use midi_staff::paint::{Color, DrawCommand};
use midi_staff::ratio::Ratio;
use midi_staff::staff::{ClefType, Staff, StaffConfig, StaffState, MAX_LINES};

fn value(r: Ratio) -> f64 {
    r.numer() as f64 / r.denom() as f64
}

fn is(r: Ratio, num: i128, den: i128) -> bool {
    r.numer() * den == num * r.denom()
}

fn corners(rect: Rect) -> [f64; 4] {
    [value(rect.x0), value(rect.y0), value(rect.x1), value(rect.y1)]
}

fn container() -> Bounds {
    Bounds::new(0, 0, 700, 1000)
}

fn widths() -> GlyphWidths {
    GlyphWidths { note: 100, accidental: 50 }
}

fn staff_with(midi_nr: u8, alteration: NoteAlt) -> Staff {
    let config = StaffConfig { max_lines: 11, clef: ClefType::Treble, alteration };
    let mut staff = Staff::with_config(config, &Assets::all()).unwrap();
    staff.set_note(Some(midi_nr)).unwrap();
    staff
}

fn layout_of(midi_nr: u8, alteration: NoteAlt) -> LayoutResult {
    staff_with(midi_nr, alteration).layout(container(), widths())
}

fn staff_of(max_lines: i32) -> Staff {
    let config = StaffConfig { max_lines, clef: ClefType::Treble, alteration: NoteAlt::Sharp };
    Staff::with_config(config, &Assets::all()).unwrap()
}

#[test]
fn a_new_staff_is_empty_and_has_eleven_slots() {
    let staff = Staff::new(&Assets::all());
    assert_eq!(staff.state(), StaffState::Empty);
    assert!(staff.current_note().is_none());
    assert_eq!(MAX_LINES, 11);
    assert!(is(staff.line_h(1000), 100, 1));
    let glyphs = staff.glyph_handles();
    assert_eq!(glyphs.clef, Glyph::Asset(GlyphKind::TrebleClef));
    assert_eq!(glyphs.note, Glyph::Asset(GlyphKind::NoteHead));
    assert_eq!(glyphs.sharp, Glyph::Asset(GlyphKind::Sharp));
    assert_eq!(glyphs.flat, Glyph::Asset(GlyphKind::Flat));
}

#[test]
fn a_staff_from_a_note_shows_it() {
    let staff = Staff::from_note(Note::new(73).unwrap(), &Assets::all());
    assert_eq!(staff.state(), StaffState::NoteActive);
    assert_eq!(staff.current_note().map(|n| n.midi_nr()), Some(73));
    assert_eq!(staff.note_alt(), NoteAlt::Sharp);
    assert_eq!(staff.note_line().halves, 42);
}

#[test]
fn the_default_setup() {
    let config = StaffConfig::default();
    assert_eq!(config.max_lines, 11);
    assert_eq!(config.clef, ClefType::Treble);
    assert_eq!(config.alteration, NoteAlt::Sharp);
}

#[test]
fn a_staff_needs_an_odd_number_of_slots_from_five() {
    for max_lines in [i32::MIN, -11, -1, 0, 1, 3, 4, 6, 10, 12, i32::MAX - 1] {
        let config = StaffConfig { max_lines, clef: ClefType::Treble, alteration: NoteAlt::Sharp };
        let made = Staff::with_config(config, &Assets::all());
        assert_eq!(made.err(), Some(StaffError::DegenerateConfig), "{}", max_lines);
    }
    for max_lines in [5, 7, 11, 13, i32::MAX] {
        let config = StaffConfig { max_lines, clef: ClefType::Bass, alteration: NoteAlt::Flat };
        assert!(Staff::with_config(config, &Assets::all()).is_ok(), "{}", max_lines);
    }
}

#[test]
fn set_note_moves_between_the_two_states() {
    let mut staff = Staff::new(&Assets::all());
    assert_eq!(staff.set_note(Some(60)), Ok(()));
    assert_eq!(staff.state(), StaffState::NoteActive);
    assert_eq!(staff.set_note(Some(61)), Ok(()));
    assert_eq!(staff.current_note().map(|n| n.midi_nr()), Some(61));
    assert_eq!(staff.set_note(None), Ok(()));
    assert_eq!(staff.state(), StaffState::Empty);
}

#[test]
fn a_refused_note_leaves_the_staff_as_it_was() {
    let mut staff = Staff::new(&Assets::all());
    assert_eq!(staff.set_note(Some(128)), Err(StaffError::InvalidPitch));
    assert_eq!(staff.state(), StaffState::Empty);
    staff.set_note(Some(60)).unwrap();
    assert_eq!(staff.set_note(Some(200)), Err(StaffError::InvalidPitch));
    assert_eq!(staff.current_note().map(|n| n.midi_nr()), Some(60));
}

#[test]
fn missing_symbols_are_blank() {
    let assets =
        Assets { treble_clef: false, bass_clef: true, note_head: true, sharp: false, flat: true };
    assert_eq!(assets.lookup(GlyphKind::TrebleClef), Err(StaffError::AssetMissing));
    assert_eq!(assets.lookup(GlyphKind::Sharp), Err(StaffError::AssetMissing));
    assert_eq!(assets.lookup(GlyphKind::Flat), Ok(Glyph::Asset(GlyphKind::Flat)));
    let glyphs = Staff::new(&assets).glyph_handles();
    assert_eq!(glyphs.clef, Glyph::Blank);
    assert_eq!(glyphs.note, Glyph::Asset(GlyphKind::NoteHead));
    assert_eq!(glyphs.sharp, Glyph::Blank);
    assert_eq!(glyphs.flat, Glyph::Asset(GlyphKind::Flat));
    assert_eq!(Staff::make_svg(Err(StaffError::AssetMissing)), Glyph::Blank);
    assert_eq!(
        Staff::make_svg(Ok(Glyph::Asset(GlyphKind::NoteHead))),
        Glyph::Asset(GlyphKind::NoteHead)
    );
}

#[test]
fn symbols_of_clefs() {
    let all = Assets::all();
    assert_eq!(ClefType::Treble.svgdata(&all), Glyph::Asset(GlyphKind::TrebleClef));
    assert_eq!(ClefType::Auto.svgdata(&all), Glyph::Asset(GlyphKind::TrebleClef));
    assert_eq!(ClefType::Bass.svgdata(&all), Glyph::Asset(GlyphKind::BassClef));
    let none = Assets { treble_clef: false, bass_clef: false, ..all };
    assert_eq!(ClefType::Treble.svgdata(&none), Glyph::Blank);
    assert_eq!(ClefType::Bass.svgdata(&none), Glyph::Blank);
}

#[test]
fn a_staff_set_up_with_a_bass_clef_draws_the_treble_clef() {
    let config = StaffConfig { max_lines: 11, clef: ClefType::Bass, alteration: NoteAlt::Sharp };
    let staff = Staff::with_config(config, &Assets::all()).unwrap();
    assert_eq!(staff.glyph_handles().clef, Glyph::Asset(GlyphKind::TrebleClef));
}

#[test]
fn line_height_divides_the_height_among_the_slots() {
    assert!(is(staff_of(11).line_h(1000), 100, 1));
    assert!(is(staff_of(11).line_h(7), 7, 10));
    assert!(is(staff_of(5).line_h(1000), 250, 1));
    assert!(is(staff_of(7).line_h(1000), 500, 3));
    assert!(is(staff_of(11).line_h(0), 0, 1));
    assert!(is(staff_of(11).line_h(-30), -3, 1));
}

#[test]
fn lines_are_a_two_hundredth_of_the_height_but_at_least_two_wide() {
    assert!(is(Staff::line_w(1000), 5, 1));
    assert!(is(Staff::line_w(401), 401, 200));
    assert!(is(Staff::line_w(400), 2, 1));
    assert!(is(Staff::line_w(399), 2, 1));
    assert!(is(Staff::line_w(0), 2, 1));
    assert!(is(Staff::line_w(-5000), 2, 1));
}

#[test]
fn the_five_lines_span_four_line_heights() {
    for max_lines in [5, 7, 9, 11, 13, 101, i32::MAX] {
        for bounds in [container(), Bounds::new(-3, 17, 40, 1018), Bounds::new(0, 0, 1, 1)] {
            let staff = staff_of(max_lines);
            let lines = staff.lines_rect(bounds);
            let height = lines.y1.sub(&lines.y0);
            let line_h = staff.line_h(bounds.height());
            assert!(is(height, 4 * line_h.numer(), line_h.denom()), "{} {:?}", max_lines, bounds);
            assert!(is(lines.x0, bounds.x0 as i128, 1));
            assert!(is(lines.x1, bounds.x1 as i128, 1));
        }
    }
}

#[test]
fn the_lines_leave_the_slots_above_and_below_free() {
    assert_eq!(corners(staff_of(11).lines_rect(container())), [0.0, 300.0, 700.0, 700.0]);
    assert_eq!(corners(staff_of(5).lines_rect(container())), [0.0, 0.0, 700.0, 1000.0]);
    let seven = staff_of(7).lines_rect(container());
    assert!(is(seven.y0, 500, 3));
    assert!(is(seven.y1, 2500, 3));
}

#[test]
fn lines_are_counted_upward_from_the_bottom_line() {
    let staff = staff_of(11);
    let line = |halves: i64| corners(staff.line_coords(container(), LineIndex { halves }, None, None));
    assert_eq!(line(0), [0.0, 700.0, 700.0, 700.0]);
    assert_eq!(line(8), [0.0, 300.0, 700.0, 300.0]);
    assert_eq!(line(1), [0.0, 650.0, 700.0, 650.0]);
    assert_eq!(line(-2), [0.0, 800.0, 700.0, 800.0]);
    assert_eq!(line(10), [0.0, 200.0, 700.0, 200.0]);
}

#[test]
fn a_line_takes_a_given_width_and_centre() {
    let staff = staff_of(11);
    let bounds = Bounds::new(100, 0, 800, 1000);
    let line = staff.line_coords(
        bounds,
        LineIndex::whole(2),
        Some(Ratio::new(100, 1)),
        Some(Ratio::new(250, 1)),
    );
    assert_eq!(corners(line), [200.0, 500.0, 300.0, 500.0]);
    let line = staff.line_coords(bounds, LineIndex::whole(2), Some(Ratio::new(1, 3)), None);
    assert!(is(line.x0, 2699, 6));
    assert!(is(line.x1, 2701, 6));
    let line = staff.line_coords(bounds, LineIndex::whole(2), None, Some(Ratio::from_int(0)));
    assert_eq!(corners(line), [-350.0, 500.0, 350.0, 500.0]);
}

#[test]
fn the_bottom_line_is_the_line_of_note_64() {
    let staff = Staff::new(&Assets::all());
    assert_eq!(staff.staff_line().halves, 37);
    assert_eq!(staff.staff_line(), Note::new(64).unwrap().line(NoteAlt::Flat));
}

#[test]
fn boxes_offered_to_the_symbols() {
    let boxes = staff_of(11).glyph_boxes(container());
    assert_eq!((value(boxes.clef.width), value(boxes.clef.height)), (700.0, 600.0));
    assert_eq!((value(boxes.note.width), value(boxes.note.height)), (700.0, 100.0));
    assert_eq!((value(boxes.accidental.width), value(boxes.accidental.height)), (700.0, 150.0));
}

#[test]
fn layout_of_an_empty_staff() {
    let out = Staff::new(&Assets::all()).layout(container(), widths());
    assert_eq!(out.bounds, container());
    assert_eq!(corners(out.staff_lines), [0.0, 300.0, 700.0, 700.0]);
    assert_eq!(corners(out.clef), [0.0, 200.0, 700.0, 800.0]);
    assert!(out.note_head.is_none());
    assert!(out.accidental.is_none());
    assert!(out.ledger_lines.is_empty());
}

#[test]
fn layout_of_a_natural_below_the_staff() {
    let out = layout_of(60, NoteAlt::Sharp);
    assert_eq!(corners(out.staff_lines), [0.0, 300.0, 700.0, 700.0]);
    assert_eq!(corners(out.clef), [0.0, 200.0, 700.0, 800.0]);
    assert_eq!(corners(out.note_head.unwrap()), [300.0, 750.0, 400.0, 850.0]);
    assert!(out.accidental.is_none());
    assert_eq!(out.ledger_lines.len(), 1);
    assert_eq!(corners(out.ledger_lines[0]), [300.0, 800.0, 400.0, 800.0]);
}

#[test]
fn layout_of_a_sharp() {
    let out = layout_of(61, NoteAlt::Sharp);
    assert_eq!(corners(out.note_head.unwrap()), [300.0, 750.0, 400.0, 850.0]);
    let accidental = out.accidental.unwrap();
    assert_eq!(accidental.alt, NoteAlt::Sharp);
    assert_eq!(corners(accidental.rect), [200.0, 725.0, 250.0, 875.0]);
}

#[test]
fn layout_of_a_flat() {
    let out = layout_of(66, NoteAlt::Flat);
    assert_eq!(corners(out.note_head.unwrap()), [300.0, 550.0, 400.0, 650.0]);
    let accidental = out.accidental.unwrap();
    assert_eq!(accidental.alt, NoteAlt::Flat);
    assert!(is(accidental.rect.x0, 200, 1));
    assert!(is(accidental.rect.x1, 250, 1));
    assert!(is(accidental.rect.y0, 1450, 3));
    assert!(is(accidental.rect.y1, 1900, 3));
    assert!(out.ledger_lines.is_empty());
}

#[test]
fn layout_in_a_container_away_from_the_origin() {
    let staff = staff_with(64, NoteAlt::Sharp);
    let out = staff.layout(Bounds::new(20, 20, 720, 1020), GlyphWidths { note: 70, accidental: 30 });
    assert_eq!(corners(out.staff_lines), [20.0, 320.0, 720.0, 720.0]);
    assert_eq!(corners(out.clef), [20.0, 220.0, 720.0, 820.0]);
    assert_eq!(corners(out.note_head.unwrap()), [335.0, 670.0, 405.0, 770.0]);
    assert!(out.ledger_lines.is_empty());
}

#[test]
fn ledger_lines_below_the_staff() {
    for (midi_nr, count) in [(64u8, 0usize), (62, 0), (60, 1), (59, 1), (57, 2), (40, 7), (0, 18)] {
        let out = layout_of(midi_nr, NoteAlt::Sharp);
        assert_eq!(out.ledger_lines.len(), count, "{}", midi_nr);
    }
    let out = layout_of(57, NoteAlt::Sharp);
    assert_eq!(corners(out.ledger_lines[0]), [300.0, 900.0, 400.0, 900.0]);
    assert_eq!(corners(out.ledger_lines[1]), [300.0, 800.0, 400.0, 800.0]);
}

#[test]
fn no_ledger_lines_on_the_staff() {
    for midi_nr in 64u8..=79 {
        for alteration in [NoteAlt::Sharp, NoteAlt::Flat] {
            let out = layout_of(midi_nr, alteration);
            assert!(out.ledger_lines.is_empty(), "{}", midi_nr);
        }
    }
}

#[test]
fn ledger_lines_above_the_staff() {
    for (midi_nr, count) in [(77u8, 0usize), (79, 0), (81, 1), (83, 1), (84, 2), (127, 14)] {
        let out = layout_of(midi_nr, NoteAlt::Sharp);
        assert_eq!(out.ledger_lines.len(), count, "{}", midi_nr);
    }
    let out = layout_of(84, NoteAlt::Sharp);
    assert_eq!(corners(out.ledger_lines[0]), [300.0, 200.0, 400.0, 200.0]);
    assert_eq!(corners(out.ledger_lines[1]), [300.0, 100.0, 400.0, 100.0]);
}

#[test]
fn the_range_of_ledger_lines() {
    let range = |halves: i64| Staff::ledger_range(LineIndex { halves });
    assert_eq!(range(0), None);
    assert_eq!(range(-1), None);
    assert_eq!(range(-2), Some((-1, 0)));
    assert_eq!(range(-3), Some((-1, 0)));
    assert_eq!(range(-14), Some((-7, 0)));
    assert_eq!(range(8), None);
    assert_eq!(range(9), None);
    assert_eq!(range(10), Some((5, 6)));
    assert_eq!(range(11), Some((5, 6)));
    assert_eq!(range(12), Some((5, 7)));
    assert_eq!(range(i64::MIN), Some((-(1 << 62), 0)));
    assert_eq!(range(i64::MAX), Some((5, 1 << 62)));
}

#[test]
fn ledger_lines_are_a_seventh_of_the_container_wide() {
    let lines = staff_of(11).ledger_lines(Bounds::new(0, 0, 100, 1000), LineIndex::whole(6));
    assert_eq!(lines.len(), 2);
    assert!(is(lines[0].x0, 300, 7));
    assert!(is(lines[0].x1, 400, 7));
    assert!(is(lines[0].y0, 200, 1));
    assert!(is(lines[1].y0, 100, 1));
}

#[test]
fn layout_twice_is_the_same() {
    for midi_nr in [0u8, 40, 60, 61, 66, 81, 127] {
        for alteration in [NoteAlt::Sharp, NoteAlt::Flat] {
            let staff = staff_with(midi_nr, alteration);
            let a = staff.layout(container(), widths());
            let b = staff.layout(container(), widths());
            assert_eq!(a, b);
            assert_eq!(staff.paint(&a), staff.paint(&b));
        }
    }
    let staff = Staff::new(&Assets::all());
    assert_eq!(staff.layout(container(), widths()), staff.layout(container(), widths()));
}

#[test]
fn ratios_are_held_in_lowest_terms() {
    let out = layout_of(66, NoteAlt::Flat);
    let accidental = out.accidental.unwrap().rect;
    assert_eq!((accidental.y0.numer(), accidental.y0.denom()), (1450, 3));
    assert_eq!((accidental.x0.numer(), accidental.x0.denom()), (200, 1));
    assert_eq!(staff_of(11).line_h(1000), Ratio::new(100, 1));
    assert_eq!(staff_of(7).line_h(1000), Ratio::new(1000, 6));
}

#[test]
fn an_empty_staff_paints_background_lines_and_clef() {
    let staff = Staff::new(&Assets::all());
    let commands = staff.paint(&staff.layout(container(), widths()));
    assert_eq!(commands.len(), 7);
    match commands[0] {
        DrawCommand::Fill { area, color } => {
            assert_eq!(area, container());
            assert_eq!(color, Color::White);
        },
        _ => panic!("the background comes first"),
    }
    for (i, y) in [700.0, 600.0, 500.0, 400.0, 300.0].into_iter().enumerate() {
        match commands[1 + i] {
            DrawCommand::Stroke { line, color, width } => {
                assert_eq!(corners(line), [0.0, y, 700.0, y]);
                assert_eq!(color, Color::Black);
                assert_eq!(value(width), 5.0);
            },
            _ => panic!("the five lines follow the background"),
        }
    }
    match commands[6] {
        DrawCommand::Glyph { glyph, rect } => {
            assert_eq!(glyph, Glyph::Asset(GlyphKind::TrebleClef));
            assert_eq!(corners(rect), [0.0, 200.0, 700.0, 800.0]);
        },
        _ => panic!("the clef follows the lines"),
    }
}

#[test]
fn a_note_is_painted_before_its_ledger_lines_and_its_accidental() {
    let staff = staff_with(56, NoteAlt::Flat);
    let commands = staff.paint(&staff.layout(container(), widths()));
    assert_eq!(commands.len(), 11);
    match commands[7] {
        DrawCommand::Glyph { glyph, rect } => {
            assert_eq!(glyph, Glyph::Asset(GlyphKind::NoteHead));
            assert_eq!(corners(rect), [300.0, 850.0, 400.0, 950.0]);
        },
        _ => panic!("the note head follows the clef"),
    }
    for (i, y) in [800.0, 900.0].into_iter().rev().enumerate() {
        match commands[8 + i] {
            DrawCommand::Stroke { line, color, width } => {
                assert_eq!(corners(line), [300.0, y, 400.0, y]);
                assert_eq!(color, Color::Black);
                assert_eq!(value(width), 5.0);
            },
            _ => panic!("the ledger lines follow the note head"),
        }
    }
    match commands[10] {
        DrawCommand::Glyph { glyph, rect } => {
            assert_eq!(glyph, Glyph::Asset(GlyphKind::Flat));
            assert!(is(rect.y0, 2350, 3));
        },
        _ => panic!("the accidental comes last"),
    }
}

#[test]
fn a_sharp_is_painted_with_the_sharp() {
    let staff = staff_with(66, NoteAlt::Sharp);
    let commands = staff.paint(&staff.layout(container(), widths()));
    assert_eq!(commands.len(), 9);
    match commands[8] {
        DrawCommand::Glyph { glyph, rect } => {
            assert_eq!(glyph, Glyph::Asset(GlyphKind::Sharp));
            assert_eq!(corners(rect), [200.0, 575.0, 250.0, 725.0]);
        },
        _ => panic!("the accidental comes last"),
    }
}

#[test]
fn painting_follows_the_layout_it_is_given() {
    let mut staff = staff_with(60, NoteAlt::Sharp);
    let layout = staff.layout(container(), widths());
    staff.set_note(None).unwrap();
    assert_eq!(staff.paint(&layout).len(), 9);
    assert_eq!(staff.paint(&staff.layout(container(), widths())).len(), 7);
}

#[test]
fn a_layout_maps_elements_to_rectangles() {
    let out = layout_of(57, NoteAlt::Sharp);
    assert_eq!(out.rect_of(Element::StaffLines), Some(out.staff_lines));
    assert_eq!(out.rect_of(Element::Clef), Some(out.clef));
    assert_eq!(out.rect_of(Element::NoteHead), out.note_head);
    assert_eq!(out.rect_of(Element::Accidental), None);
    assert_eq!(out.rect_of(Element::LedgerLine(0)), Some(out.ledger_lines[0]));
    assert_eq!(out.rect_of(Element::LedgerLine(1)), Some(out.ledger_lines[1]));
    assert_eq!(out.rect_of(Element::LedgerLine(2)), None);
    let out = layout_of(61, NoteAlt::Flat);
    assert_eq!(out.rect_of(Element::Accidental), out.accidental.map(|a| a.rect));
    assert!(out.rect_of(Element::Accidental).is_some());
    let empty = Staff::new(&Assets::all()).layout(container(), widths());
    assert_eq!(empty.rect_of(Element::NoteHead), None);
    assert_eq!(empty.rect_of(Element::LedgerLine(0)), None);
}
