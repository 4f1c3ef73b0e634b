use midi_staff::error::StaffError;
use midi_staff::glyph::{Assets, Glyph, GlyphKind};
use midi_staff::note::{LineIndex, Note, NoteAlt, NoteLine};

fn lines(index: LineIndex) -> f32 {
    index.halves as f32 / 2.0
}

fn spelled(step: usize, alteration: NoteAlt) -> (f32, NoteAlt) {
    let (line, alt) = NoteLine::step(step).from_alteration(alteration);
    (lines(line), alt)
}

fn note(midi_nr: u8) -> Note {
    Note::new(midi_nr).unwrap()
}

/// Reads a name back: the letter's first place in the table of names, a
/// semitone up for a sharp and down for a flat, twelve semitones an octave.
fn parse(name: &str) -> i32 {
    const NAMES: [char; 12] = ['C', 'C', 'D', 'D', 'E', 'F', 'F', 'G', 'G', 'A', 'A', 'B'];
    let mut chars = name.chars();
    let letter = chars.next().unwrap();
    let mut semitone = NAMES.iter().position(|&c| c == letter).unwrap() as i32;
    let rest: String = chars.collect();
    let octave: i32 = if let Some(text) = rest.strip_prefix('#') {
        semitone += 1;
        text.parse().unwrap()
    } else if let Some(text) = rest.strip_prefix('b') {
        semitone -= 1;
        text.parse().unwrap()
    } else {
        rest.parse().unwrap()
    };
    (octave + 2) * 12 + semitone
}

#[test]
fn test_note_line() {
    assert_eq!(spelled(0, NoteAlt::Sharp), (0.0, NoteAlt::White));
    assert_eq!(spelled(1, NoteAlt::Sharp), (0.0, NoteAlt::Sharp));
    assert_eq!(spelled(1, NoteAlt::Flat), (0.5, NoteAlt::Flat));
    assert_eq!(spelled(23, NoteAlt::Flat), (6.5, NoteAlt::White));
    assert_eq!(spelled(22, NoteAlt::Flat), (6.5, NoteAlt::Flat));
}

#[test]
fn test_note() {
    let c3 = note(60);
    assert_eq!(c3.name(NoteAlt::Sharp), String::from("C3"));
    assert_eq!(c3.alteration(NoteAlt::Sharp), NoteAlt::White);
    assert_eq!(lines(c3.line(NoteAlt::Sharp)), 17.5);

    let fis3 = note(66);
    assert_eq!(fis3.name(NoteAlt::Sharp), String::from("F#3"));
    assert_eq!(fis3.alteration(NoteAlt::Sharp), NoteAlt::Sharp);
    assert_eq!(lines(fis3.line(NoteAlt::Sharp)), 19.0);
    assert_eq!(fis3.name(NoteAlt::Flat), String::from("Gb3"));
    assert_eq!(fis3.alteration(NoteAlt::Flat), NoteAlt::Flat);
    assert_eq!(lines(fis3.line(NoteAlt::Flat)), 19.5);
}

#[test]
fn spec_gives_line_accidental_and_name_together() {
    let (line, alt, name) = note(60).spec(NoteAlt::Sharp);
    assert_eq!((lines(line), alt, name.as_str()), (17.5, NoteAlt::White, "C3"));
    let (line, alt, name) = note(66).spec(NoteAlt::Sharp);
    assert_eq!((lines(line), alt, name.as_str()), (19.0, NoteAlt::Sharp, "F#3"));
    let (line, alt, name) = note(66).spec(NoteAlt::Flat);
    assert_eq!((lines(line), alt, name.as_str()), (19.5, NoteAlt::Flat, "Gb3"));
}

#[test]
fn white_keys_ignore_the_preference() {
    for step in [0usize, 2, 4, 5, 7, 9, 11, 12, 14, 16, 17, 19, 21, 23] {
        let sharp = spelled(step, NoteAlt::Sharp);
        assert_eq!(sharp.1, NoteAlt::White);
        assert_eq!(spelled(step, NoteAlt::Flat), sharp);
        assert_eq!(spelled(step, NoteAlt::White), sharp);
    }
}

#[test]
fn no_preference_spells_black_keys_as_sharps() {
    for step in [1usize, 3, 6, 8, 10, 13, 15, 18, 20, 22] {
        assert_eq!(spelled(step, NoteAlt::White), spelled(step, NoteAlt::Sharp));
        assert_eq!(spelled(step, NoteAlt::Sharp).1, NoteAlt::Sharp);
        assert_eq!(spelled(step, NoteAlt::Flat).1, NoteAlt::Flat);
        assert_eq!(spelled(step, NoteAlt::Flat).0, spelled(step, NoteAlt::Sharp).0 + 0.5);
    }
}

#[test]
fn a_step_made_by_hand_behaves_like_one_of_the_table() {
    let step = NoteLine::new(3, true);
    let (line, alt) = step.from_alteration(NoteAlt::Flat);
    assert_eq!((lines(line), alt), (2.0, NoteAlt::Flat));
    let (line, alt) = step.from_alteration(NoteAlt::Sharp);
    assert_eq!((lines(line), alt), (1.5, NoteAlt::Sharp));
}

#[test]
fn lines_never_fall_as_notes_rise() {
    for preferred in [NoteAlt::Sharp, NoteAlt::Flat] {
        for midi_nr in 0u8..127 {
            let low = note(midi_nr).line(preferred);
            let high = note(midi_nr + 1).line(preferred);
            assert!(low.halves <= high.halves, "{} {:?}", midi_nr, preferred);
        }
    }
}

#[test]
fn two_octaves_are_seven_lines() {
    for preferred in [NoteAlt::Sharp, NoteAlt::Flat] {
        for midi_nr in 0u8..=103 {
            let low = lines(note(midi_nr).line(preferred));
            let high = lines(note(midi_nr + 24).line(preferred));
            assert_eq!(high, low + 7.0);
        }
    }
}

#[test]
fn lowest_and_highest_note() {
    assert_eq!(note(0).name(NoteAlt::Sharp), "C-2");
    assert_eq!(lines(note(0).line(NoteAlt::Sharp)), 0.0);
    assert_eq!(note(12).name(NoteAlt::Flat), "C-1");
    assert_eq!(note(25).name(NoteAlt::Flat), "Db0");
    assert_eq!(note(127).name(NoteAlt::Sharp), "G8");
    assert_eq!(lines(note(127).line(NoteAlt::Flat)), 37.0);
    assert_eq!(note(127).midi_nr(), 127);
}

#[test]
fn note_numbers_above_127_are_refused() {
    assert_eq!(Note::new(128).err(), Some(StaffError::InvalidPitch));
    assert_eq!(Note::new(255).err(), Some(StaffError::InvalidPitch));
    assert!(Note::new(127).is_ok());
}

#[test]
fn names_read_back_give_the_note() {
    for preferred in [NoteAlt::Sharp, NoteAlt::Flat, NoteAlt::White] {
        for midi_nr in 0u8..=127 {
            let name = note(midi_nr).name(preferred);
            let read = parse(&name);
            assert_eq!(read, midi_nr as i32, "{}", name);
            assert_eq!(read % 24, midi_nr as i32 % 24);
        }
    }
}

#[test]
fn whole_lines_count_two_halves() {
    assert_eq!(LineIndex::whole(3).halves, 6);
    assert_eq!(lines(LineIndex::whole(-2)), -2.0);
}

#[test]
fn signs_of_accidentals() {
    assert_eq!(NoteAlt::White.symbol(), "");
    assert_eq!(NoteAlt::Sharp.symbol(), "#");
    assert_eq!(NoteAlt::Flat.symbol(), "b");
}

#[test]
fn symbols_of_accidentals() {
    let all = Assets::all();
    assert_eq!(NoteAlt::White.svgdata(&all), None);
    assert_eq!(NoteAlt::Sharp.svgdata(&all), Some(Glyph::Asset(GlyphKind::Sharp)));
    assert_eq!(NoteAlt::Flat.svgdata(&all), Some(Glyph::Asset(GlyphKind::Flat)));
    let none = Assets { sharp: false, flat: false, ..all };
    assert_eq!(NoteAlt::White.svgdata(&none), None);
    assert_eq!(NoteAlt::Sharp.svgdata(&none), Some(Glyph::Blank));
    assert_eq!(NoteAlt::Flat.svgdata(&none), Some(Glyph::Blank));
}
