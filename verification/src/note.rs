//! Pitches: from a note number to a staff line, an accidental and a name.
//!
//! Staff lines are counted upward, one unit per line, so that the spaces
//! between lines fall on the halves. A note number is looked up in a table of
//! 24 chromatic steps, two octaves, which rise by seven lines.

use vstd::prelude::*;

use crate::error::StaffError;
use crate::glyph::{glyph_or_blank, Assets, Glyph, GlyphKind};

verus! {

/// The number of chromatic steps in the table: two octaves.
pub const LINES_AMOUNT: usize = 24;

/// The highest note number.
pub const MAX_MIDI: u8 = 127;

/// For each chromatic step, the line of its natural spelling, in half lines.
pub const NOTE_ROOTS: [i64; 24] = [
    0, 0, 1, 1, 2, 3, 3, 4, 4, 5, 5, 6,
    7, 7, 8, 8, 9, 10, 10, 11, 11, 12, 12, 13,
];

/// For each chromatic step, whether it is a black key.
pub const NOTE_ALTERATED: [bool; 24] = [
    false, true, false, true, false, false, true, false, true, false, true, false,
    false, true, false, true, false, false, true, false, true, false, true, false,
];

/// For each semitone of an octave, the letter of the natural at or below it.
pub const NOTE_NAMES: [char; 12] = ['C', 'C', 'D', 'D', 'E', 'F', 'F', 'G', 'G', 'A', 'A', 'B'];

/// A position on the staff, in half lines: an even count is a line, an odd
/// one the space above it. Its view is the position in lines.
#[derive(Clone, Copy, Debug, PartialEq, Eq, Structural)]
pub struct LineIndex {
    pub halves: i64,
}

impl View for LineIndex {
    type V = real;

    open spec fn view(&self) -> real {
        self.halves as real / 2real
    }
}

impl LineIndex {
    /// The position of a whole line.
    pub fn whole(line: i32) -> (index: LineIndex)
        ensures
            index@ == line as real,
            index.halves == 2 * line,
    {
        LineIndex { halves: 2 * (line as i64) }
    }
}

/// An accidental: how a pitch is spelled. `White` is the natural, which has no sign.
#[derive(Clone, Copy, Debug, PartialEq, Eq, Structural)]
pub enum NoteAlt {
    White,
    Sharp,
    Flat,
}

impl NoteAlt {
    /// The sign as it is written in a name.
    pub open spec fn sign(self) -> Seq<char> {
        match self {
            NoteAlt::White => Seq::empty(),
            NoteAlt::Sharp => seq!['#'],
            NoteAlt::Flat => seq!['b'],
        }
    }

    /// The kind of symbol that draws the accidental, if it has one.
    pub open spec fn glyph_kind(self) -> Option<GlyphKind> {
        match self {
            NoteAlt::White => None,
            NoteAlt::Sharp => Some(GlyphKind::Sharp),
            NoteAlt::Flat => Some(GlyphKind::Flat),
        }
    }

    /// The sign as it is written in a name: nothing, `#` or `b`.
    pub fn symbol(&self) -> (s: &'static str)
        ensures
            s@ == self.sign(),
    {
        proof {
            reveal_strlit("");
            reveal_strlit("#");
            reveal_strlit("b");
        }
        let s = match self {
            NoteAlt::White => "",
            NoteAlt::Sharp => "#",
            NoteAlt::Flat => "b",
        };
        assert(s@ =~= self.sign());
        s
    }

    /// The symbol that draws the accidental: none for a natural, else the
    /// loaded sharp or flat, or the blank symbol where that is missing.
    pub fn svgdata(&self, assets: &Assets) -> (glyph: Option<Glyph>)
        ensures
            glyph == match self.glyph_kind() {
                None => None,
                Some(kind) => Some(glyph_or_blank(assets.found(kind))),
            },
    {
        let file: Result<Glyph, StaffError>;
        match *self {
            NoteAlt::White => return None,
            NoteAlt::Sharp => file = assets.lookup(GlyphKind::Sharp),
            NoteAlt::Flat => file = assets.lookup(GlyphKind::Flat),
        }
        match file {
            Ok(svg) => Some(svg),
            Err(_) => Some(Glyph::Blank),
        }
    }
}

/// The line of the natural spelling of chromatic step `index`.
pub open spec fn step_root(index: int) -> real {
    NOTE_ROOTS[index] as real / 2real
}

/// Whether chromatic step `index` is a black key.
pub open spec fn step_alterated(index: int) -> bool {
    NOTE_ALTERATED[index]
}

/// The accidental that a step on `alterated` ground is spelled with: none on
/// a white key, else the preferred one, a sharp where there is no preference.
pub open spec fn spelled(alterated: bool, preferred: NoteAlt) -> NoteAlt {
    if !alterated {
        NoteAlt::White
    } else if preferred == NoteAlt::Flat {
        NoteAlt::Flat
    } else {
        NoteAlt::Sharp
    }
}

/// The line of a step with natural line `root`: a flat sits half a line
/// above it, everything else on it.
pub open spec fn spelled_line(root: real, alterated: bool, preferred: NoteAlt) -> real {
    if spelled(alterated, preferred) == NoteAlt::Flat {
        root + 1real / 2real
    } else {
        root
    }
}

/// The accidental that note `midi` is spelled with.
pub open spec fn resolved_alteration(midi: int, preferred: NoteAlt) -> NoteAlt {
    spelled(step_alterated(midi % 24), preferred)
}

/// The staff line of note `midi`: that of its chromatic step, seven lines
/// higher for each block of 24 semitones below it.
pub open spec fn resolved_line(midi: int, preferred: NoteAlt) -> real {
    spelled_line(step_root(midi % 24), step_alterated(midi % 24), preferred)
        + ((midi / 24) * 7) as real
}

/// The staff line of note `midi` in half lines.
pub open spec fn resolved_halves(midi: int, preferred: NoteAlt) -> int {
    NOTE_ROOTS[midi % 24] + (if resolved_alteration(midi, preferred) == NoteAlt::Flat {
        1int
    } else {
        0int
    }) + (midi / 24) * 14
}

/// The octave that note `midi` is named in.
pub open spec fn octave_of(midi: int) -> int {
    midi / 12 - 2
}

/// The letter that note `midi` is named with: that of its semitone, or of
/// the next semitone where it is spelled as a flat.
pub open spec fn letter_of(midi: int, preferred: NoteAlt) -> char {
    if resolved_alteration(midi, preferred) == NoteAlt::Flat {
        NOTE_NAMES[midi % 12 + 1]
    } else {
        NOTE_NAMES[midi % 12]
    }
}

/// The decimal digit for `d`.
pub open spec fn digit(d: int) -> char {
    if d == 0 {
        '0'
    } else if d == 1 {
        '1'
    } else if d == 2 {
        '2'
    } else if d == 3 {
        '3'
    } else if d == 4 {
        '4'
    } else if d == 5 {
        '5'
    } else if d == 6 {
        '6'
    } else if d == 7 {
        '7'
    } else if d == 8 {
        '8'
    } else {
        '9'
    }
}

/// An octave number between -9 and 9 in decimal.
pub open spec fn octave_text(octave: int) -> Seq<char> {
    if octave < 0 {
        seq!['-', digit(-octave)]
    } else {
        seq![digit(octave)]
    }
}

/// The name of note `midi`: letter, sign and octave.
pub open spec fn display_name(midi: int, preferred: NoteAlt) -> Seq<char> {
    seq![letter_of(midi, preferred)] + resolved_alteration(midi, preferred).sign() + octave_text(
        octave_of(midi),
    )
}

/// The first place from `from` on at which the table of note names holds
/// `letter`, or 12 if it holds it nowhere from there.
pub open spec fn name_index_from(letter: char, from: int) -> int
    decreases 12 - from,
{
    if from < 0 || from >= 12 {
        12
    } else if NOTE_NAMES[from] == letter {
        from
    } else {
        name_index_from(letter, from + 1)
    }
}

/// The number that a decimal digit stands for.
pub open spec fn digit_value(c: char) -> Option<int> {
    if exists|d: int| 0 <= d <= 9 && digit(d) == c {
        Some(choose|d: int| 0 <= d <= 9 && digit(d) == c)
    } else {
        None
    }
}

/// The octave that a text of one digit, with or without a minus before it, stands for.
pub open spec fn parse_octave(text: Seq<char>) -> Option<int> {
    if text.len() == 1 {
        digit_value(text[0])
    } else if text.len() == 2 && text[0] == '-' {
        match digit_value(text[1]) {
            Some(d) => Some(-d),
            None => None,
        }
    } else {
        None
    }
}

/// The note number that a name stands for: the letter is looked up in the
/// table of note names, a sharp raises and a flat lowers it by a semitone,
/// and each octave counts twelve semitones from octave -2.
pub open spec fn parse_name(name: Seq<char>) -> Option<int> {
    if name.len() < 2 {
        None
    } else {
        let semitone = name_index_from(name[0], 0);
        let shift: int = if name[1] == '#' {
            1
        } else if name[1] == 'b' {
            -1
        } else {
            0
        };
        let octave = parse_octave(name.subrange(if shift == 0 { 1int } else { 2int }, name.len() as int));
        if semitone < 12 && octave is Some {
            Some((octave->Some_0 + 2) * 12 + semitone + shift)
        } else {
            None
        }
    }
}

/// The line of a note is half its count of half lines.
pub proof fn lemma_resolved_halves(midi: int, preferred: NoteAlt)
    ensures
        resolved_line(midi, preferred) == resolved_halves(midi, preferred) as real / 2real,
{
}

/// A note never sits on a lower line than the note a semitone below it.
proof fn lemma_line_step(midi: int, preferred: NoteAlt)
    requires
        0 <= midi < 127,
    ensures
        resolved_line(midi, preferred) <= resolved_line(midi + 1, preferred),
{
    if midi % 24 == 23 {
        assert((midi + 1) % 24 == 0);
        assert((midi + 1) / 24 == midi / 24 + 1);
    } else {
        assert((midi + 1) % 24 == midi % 24 + 1);
        assert((midi + 1) / 24 == midi / 24);
    }
}

/// As the note number rises, the staff line never falls: within one block of
/// 24 semitones, and from each block to the next.
pub proof fn lemma_line_monotonic(low: int, high: int, preferred: NoteAlt)
    requires
        0 <= low <= high <= 127,
    ensures
        resolved_line(low, preferred) <= resolved_line(high, preferred),
    decreases high - low,
{
    if low < high {
        lemma_line_monotonic(low, high - 1, preferred);
        lemma_line_step(high - 1, preferred);
    }
}

/// The note 24 semitones above another sits exactly seven lines above it.
pub proof fn lemma_line_two_octaves(midi: int, preferred: NoteAlt)
    requires
        0 <= midi,
        midi + 24 <= 127,
    ensures
        resolved_line(midi + 24, preferred) == resolved_line(midi, preferred) + 7real,
{
    assert((midi + 24) % 24 == midi % 24);
    assert((midi + 24) / 24 == midi / 24 + 1);
}

/// Every note lies between line 0 and line 37.
pub proof fn lemma_line_range(midi: int, preferred: NoteAlt)
    requires
        0 <= midi <= 127,
    ensures
        0real <= resolved_line(midi, preferred) <= 37real,
{
    lemma_line_monotonic(0, midi, preferred);
    lemma_line_monotonic(midi, 127, preferred);
}

/// A name read back gives the note that it was made for, and with it the
/// chromatic step from which the line was taken.
pub proof fn lemma_name_round_trip(midi: int, preferred: NoteAlt)
    requires
        0 <= midi <= 127,
    ensures
        parse_name(display_name(midi, preferred)) == Some(midi),
        parse_name(display_name(midi, preferred))->Some_0 % 24 == midi % 24,
{
    let alt = resolved_alteration(midi, preferred);
    let letter = letter_of(midi, preferred);
    let octave = octave_of(midi);
    let text = octave_text(octave);
    let name = display_name(midi, preferred);
    let semitone = midi % 12;
    assert(midi == (octave + 2) * 12 + semitone);
    assert(-2 <= octave <= 8);
    let magnitude = if octave < 0 { -octave } else { octave };
    assert(digit_value(digit(magnitude)) == Some(magnitude)) by {
        assert(0 <= magnitude <= 9 && digit(magnitude) == digit(magnitude));
        let d = choose|d: int| 0 <= d <= 9 && digit(d) == digit(magnitude);
        assert(d == magnitude);
    }
    assert(parse_octave(text) == Some(octave));
    assert(step_alterated(midi % 24) == step_alterated(semitone)) by {
        assert(midi % 24 == semitone || midi % 24 == semitone + 12);
    }
    reveal_with_fuel(name_index_from, 13);
    let shift: int = match alt {
        NoteAlt::White => 0,
        NoteAlt::Sharp => 1,
        NoteAlt::Flat => -1,
    };
    assert(name_index_from(letter, 0) + shift == semitone);
    assert(name[0] == letter);
    assert(name.len() == 1 + alt.sign().len() + text.len());
    match alt {
        NoteAlt::White => {
            assert(name[1] == text[0]);
            assert(name.subrange(1, name.len() as int) =~= text);
        },
        NoteAlt::Sharp => {
            assert(name[1] == '#');
            assert(name.subrange(2, name.len() as int) =~= text);
        },
        NoteAlt::Flat => {
            assert(name[1] == 'b');
            assert(name.subrange(2, name.len() as int) =~= text);
        },
    }
}

/// One chromatic step: the line of its natural spelling, and whether it is a
/// black key, reached from a natural only through an accidental.
#[derive(Clone, Copy, Debug)]
pub struct NoteLine {
    root: LineIndex,
    alterated: bool,
}

impl NoteLine {
    /// The natural line lies within the two octaves of the table.
    #[verifier::type_invariant]
    pub closed spec fn wf(self) -> bool {
        0 <= self.root.halves <= 13
    }

    /// The line of the natural spelling.
    pub closed spec fn root(self) -> LineIndex {
        self.root
    }

    /// Whether the step is a black key.
    pub closed spec fn alterated(self) -> bool {
        self.alterated
    }

    /// A step whose natural spelling lies `root` half lines up.
    pub fn new(root: u8, alterated: bool) -> (step: NoteLine)
        requires
            root <= 13,
        ensures
            step.root().halves == root,
            step.alterated() == alterated,
    {
        NoteLine { root: LineIndex { halves: root as i64 }, alterated: alterated }
    }

    /// The entry of the chromatic table for step `index`.
    pub fn step(index: usize) -> (step: NoteLine)
        requires
            index < 24,
        ensures
            step.root()@ == step_root(index as int),
            step.alterated() == step_alterated(index as int),
    {
        NoteLine { root: LineIndex { halves: NOTE_ROOTS[index] }, alterated: NOTE_ALTERATED[index] }
    }

    /// Line and accidental of the step under a preference: a white key keeps
    /// its line and takes no accidental; a black key is a sharp on its line
    /// or, if flats are preferred, a flat half a line higher.
    pub fn from_alteration(&self, alteration: NoteAlt) -> (spelling: (LineIndex, NoteAlt))
        ensures
            spelling.1 == spelled(self.alterated(), alteration),
            spelling.0@ == spelled_line(self.root()@, self.alterated(), alteration),
    {
        proof {
            use_type_invariant(self);
        }
        if self.alterated == false {
            return (self.root, NoteAlt::White);
        } else if alteration == NoteAlt::Flat {
            return (LineIndex { halves: self.root.halves + 1 }, NoteAlt::Flat);
        } else {
            return (self.root, NoteAlt::Sharp);
        }
    }
}

/// A pitch: a note number from 0 to 127.
#[derive(Clone, Copy, Debug, PartialEq, Eq, Structural)]
pub struct Note {
    midi_nr: u8,
}

impl Note {
    /// The note number is at most 127.
    #[verifier::type_invariant]
    pub closed spec fn wf(self) -> bool {
        self.midi_nr <= MAX_MIDI
    }

    /// The note number.
    pub closed spec fn midi(self) -> int {
        self.midi_nr as int
    }

    /// The number of a pitch lies between 0 and 127.
    pub proof fn lemma_midi_range(self)
        requires
            self.wf(),
        ensures
            0 <= self.midi() <= 127,
    {
    }

    /// The pitch with this note number; numbers above 127 are no pitch.
    pub fn new(midi_nr: u8) -> (note: Result<Note, StaffError>)
        ensures
            midi_nr <= 127 ==> note is Ok && note->Ok_0.midi() == midi_nr && note->Ok_0.wf(),
            midi_nr > 127 ==> note == Err::<Note, StaffError>(StaffError::InvalidPitch),
    {
        if midi_nr <= MAX_MIDI {
            Ok(Note { midi_nr })
        } else {
            Err(StaffError::InvalidPitch)
        }
    }

    /// The note number.
    pub fn midi_nr(&self) -> (midi_nr: u8)
        ensures
            midi_nr == self.midi(),
            midi_nr <= 127,
    {
        proof {
            use_type_invariant(self);
        }
        self.midi_nr
    }

    /// Staff line, accidental and name of the pitch, spelled with the
    /// preferred accidental where it lies on a black key.
    pub fn spec(&self, alteration: NoteAlt) -> (resolved: (LineIndex, NoteAlt, String))
        ensures
            resolved.0@ == resolved_line(self.midi(), alteration),
            resolved.0.halves == resolved_halves(self.midi(), alteration),
            resolved.1 == resolved_alteration(self.midi(), alteration),
            resolved.2@ == display_name(self.midi(), alteration),
    {
        proof {
            use_type_invariant(self);
        }
        let midi_nr = self.midi_nr as usize;
        let modulo = midi_nr / LINES_AMOUNT;
        let remainder = midi_nr % LINES_AMOUNT;
        let (line, alt) = NoteLine::step(remainder).from_alteration(alteration);
        let line_full = LineIndex { halves: line.halves + (modulo as i64) * 14 };
        let octave: i8 = (midi_nr / 12) as i8 - 2;
        let letter: char;
        if alt == NoteAlt::Sharp || alt == NoteAlt::White {
            letter = NOTE_NAMES[midi_nr % 12];
        } else {
            letter = NOTE_NAMES[(midi_nr % 12) + 1];
        }
        let mut name = String::from_str(letter_str(letter));
        name.append(alt.symbol());
        let magnitude: u8 = if octave < 0 { (-octave) as u8 } else { octave as u8 };
        name.append(sign_str(octave < 0));
        name.append(digit_str(magnitude));
        proof {
            assert(name@ =~= display_name(self.midi(), alteration));
        }
        (line_full, alt, name)
    }

    /// The staff line of the pitch.
    pub fn line(&self, alteration: NoteAlt) -> (line: LineIndex)
        ensures
            line@ == resolved_line(self.midi(), alteration),
            line.halves == resolved_halves(self.midi(), alteration),
    {
        let (line, _alt, _name) = self.spec(alteration);
        line
    }

    /// The accidental that the pitch is spelled with.
    pub fn alteration(&self, alteration: NoteAlt) -> (alt: NoteAlt)
        ensures
            alt == resolved_alteration(self.midi(), alteration),
    {
        let (_line, alt, _name) = self.spec(alteration);
        alt
    }

    /// The name of the pitch: letter, sign and octave.
    pub fn name(&self, alteration: NoteAlt) -> (name: String)
        ensures
            name@ == display_name(self.midi(), alteration),
    {
        let (_line, _alt, name) = self.spec(alteration);
        return name;
    }
}

/// A note letter as text.
fn letter_str(letter: char) -> (s: &'static str)
    requires
        'A' <= letter <= 'G',
    ensures
        s@ == seq![letter],
{
    proof {
        reveal_strlit("A");
        reveal_strlit("B");
        reveal_strlit("C");
        reveal_strlit("D");
        reveal_strlit("E");
        reveal_strlit("F");
        reveal_strlit("G");
    }
    let s = match letter {
        'A' => "A",
        'B' => "B",
        'C' => "C",
        'D' => "D",
        'E' => "E",
        'F' => "F",
        _ => "G",
    };
    assert(s@ =~= seq![letter]);
    s
}

/// The sign of a number as text: a minus or nothing.
fn sign_str(negative: bool) -> (s: &'static str)
    ensures
        s@ == if negative { seq!['-'] } else { Seq::<char>::empty() },
{
    proof {
        reveal_strlit("-");
        reveal_strlit("");
    }
    let s = if negative { "-" } else { "" };
    assert(s@ =~= if negative { seq!['-'] } else { Seq::<char>::empty() });
    s
}

/// A decimal digit as text.
fn digit_str(d: u8) -> (s: &'static str)
    requires
        d <= 9,
    ensures
        s@ == seq![digit(d as int)],
{
    proof {
        reveal_strlit("0");
        reveal_strlit("1");
        reveal_strlit("2");
        reveal_strlit("3");
        reveal_strlit("4");
        reveal_strlit("5");
        reveal_strlit("6");
        reveal_strlit("7");
        reveal_strlit("8");
        reveal_strlit("9");
    }
    let s = match d {
        0 => "0",
        1 => "1",
        2 => "2",
        3 => "3",
        4 => "4",
        5 => "5",
        6 => "6",
        7 => "7",
        8 => "8",
        _ => "9",
    };
    assert(s@ =~= seq![digit(d as int)]);
    s
}

} // verus!
