//! Scale modes and the mapping from keys to notes and chords.
//!
//! Letters play melody (the top row in the home key, the rows below a fifth
//! and two fifths lower), numbers play high accents, punctuation plays short
//! gestures, and enter, space, backspace and tab play chords and drones that
//! are the same in every mode.
use vstd::prelude::*;
use crate::text::{eq_ignore_ascii_case, eq_ignoring_case};

verus! {

/// The scale that letters and numbers play.
#[derive(Clone, Copy, Debug, PartialEq, Eq, Structural)]
pub enum ScaleMode {
    /// C D E G A
    Pentatonic,
    /// C D E F# G A B
    Lydian,
}

/// The mode that the name `s` selects on the command line, if any. Names
/// are compared after folding ASCII capitals; full Unicode lowercasing gives
/// the same answer, as no character outside `A`-`Z` lowercases to a letter
/// of these names.
pub open spec fn mode_from_name(s: Seq<char>) -> Option<ScaleMode> {
    if eq_ignoring_case(s, seq!['p', 'e', 'n', 't', 'a', 't', 'o', 'n', 'i', 'c'])
        || eq_ignoring_case(s, seq!['p', 'e', 'n', 't', 'a'])
        || eq_ignoring_case(s, seq!['p']) {
        Some(ScaleMode::Pentatonic)
    } else if eq_ignoring_case(s, seq!['l', 'y', 'd', 'i', 'a', 'n'])
        || eq_ignoring_case(s, seq!['l', 'y', 'd'])
        || eq_ignoring_case(s, seq!['l']) {
        Some(ScaleMode::Lydian)
    } else {
        None
    }
}

impl ScaleMode {
    /// Reads a mode name: "pentatonic", "penta" or "p" for pentatonic,
    /// "lydian", "lyd" or "l" for lydian, in any letter case; anything else
    /// is `None`.
    pub fn from_str(s: &str) -> (m: Option<Self>)
        ensures
            m == mode_from_name(s@),
    {
        if eq_ignore_ascii_case(s, &['p', 'e', 'n', 't', 'a', 't', 'o', 'n', 'i', 'c'])
            || eq_ignore_ascii_case(s, &['p', 'e', 'n', 't', 'a'])
            || eq_ignore_ascii_case(s, &['p']) {
            Some(ScaleMode::Pentatonic)
        } else if eq_ignore_ascii_case(s, &['l', 'y', 'd', 'i', 'a', 'n'])
            || eq_ignore_ascii_case(s, &['l', 'y', 'd'])
            || eq_ignore_ascii_case(s, &['l']) {
            Some(ScaleMode::Lydian)
        } else {
            None
        }
    }
}

/// A key of the keyboard, named by its position on a US layout. Keys that
/// play nothing in any mode are `Other`.
#[derive(Clone, Copy, Debug, PartialEq, Eq, Structural)]
pub enum Key {
    Enter,
    Space,
    Backspace,
    Tab,
    Q,
    W,
    E,
    R,
    T,
    Y,
    U,
    I,
    O,
    P,
    A,
    S,
    D,
    F,
    G,
    H,
    J,
    K,
    L,
    Z,
    X,
    C,
    V,
    B,
    N,
    M,
    Key1,
    Key2,
    Key3,
    Key4,
    Key5,
    Key6,
    Key7,
    Key8,
    Key9,
    Key0,
    Dot,
    Comma,
    Semicolon,
    Slash,
    BackSlash,
    LeftBracket,
    RightBracket,
    Minus,
    Equal,
    Grave,
    Apostrophe,
    Other,
}

/// What a key plays: nothing, one MIDI note, or several notes at once.
#[derive(Clone, Copy, Debug, PartialEq, Eq)]
pub enum KeyMapping {
    Silent,
    Note(u8),
    Chord(&'static [u8]),
}

/// What a key plays, as a value of the specification.
pub enum Sound {
    Silent,
    Note(u8),
    Chord(Seq<u8>),
}

impl View for KeyMapping {
    type V = Sound;

    open spec fn view(&self) -> Sound {
        match self {
            KeyMapping::Silent => Sound::Silent,
            KeyMapping::Note(n) => Sound::Note(*n),
            KeyMapping::Chord(ns) => Sound::Chord(ns@),
        }
    }
}

/// The keys that play the same in every mode: enter a cadence (C3 E3 G3
/// D4), space a drone (C2 G2), backspace a falling third (E4 C4), tab a
/// harmonic shift (G4 D4).
pub open spec fn special_sound(key: Key) -> Option<Sound> {
    match key {
        Key::Enter => Some(Sound::Chord(seq![48u8, 52, 55, 62])),
        Key::Space => Some(Sound::Chord(seq![36u8, 43])),
        Key::Backspace => Some(Sound::Chord(seq![64u8, 60])),
        Key::Tab => Some(Sound::Chord(seq![67u8, 62])),
        _ => None,
    }
}

/// What a key plays in pentatonic mode, unless it is one of the keys of `special_sound`.
pub open spec fn pentatonic_sound(key: Key) -> Sound {
    match key {
        Key::Q => Sound::Note(60),
        Key::W => Sound::Note(62),
        Key::E => Sound::Note(64),
        Key::R => Sound::Note(67),
        Key::T => Sound::Note(69),
        Key::Y => Sound::Note(72),
        Key::U => Sound::Note(74),
        Key::I => Sound::Note(76),
        Key::O => Sound::Note(79),
        Key::P => Sound::Note(81),
        Key::A => Sound::Note(55),
        Key::S => Sound::Note(57),
        Key::D => Sound::Note(59),
        Key::F => Sound::Note(62),
        Key::G => Sound::Note(64),
        Key::H => Sound::Note(67),
        Key::J => Sound::Note(69),
        Key::K => Sound::Note(71),
        Key::L => Sound::Note(74),
        Key::Z => Sound::Note(50),
        Key::X => Sound::Note(52),
        Key::C => Sound::Note(54),
        Key::V => Sound::Note(57),
        Key::B => Sound::Note(59),
        Key::N => Sound::Note(62),
        Key::M => Sound::Note(64),
        Key::Key1 => Sound::Note(72),
        Key::Key2 => Sound::Note(74),
        Key::Key3 => Sound::Note(76),
        Key::Key4 => Sound::Note(79),
        Key::Key5 => Sound::Note(81),
        Key::Key6 => Sound::Note(84),
        Key::Key7 => Sound::Note(86),
        Key::Key8 => Sound::Note(88),
        Key::Key9 => Sound::Note(91),
        Key::Key0 => Sound::Note(93),
        Key::Dot => Sound::Chord(seq![67u8, 69]),
        Key::Comma => Sound::Chord(seq![69u8, 67]),
        Key::Semicolon => Sound::Chord(seq![64u8, 69]),
        Key::Slash => Sound::Chord(seq![69u8, 67, 64]),
        Key::BackSlash => Sound::Chord(seq![60u8, 62, 64]),
        Key::LeftBracket => Sound::Chord(seq![60u8, 67]),
        Key::RightBracket => Sound::Chord(seq![64u8, 69]),
        Key::Minus => Sound::Note(48),
        Key::Equal => Sound::Note(84),
        Key::Grave => Sound::Note(36),
        Key::Apostrophe => Sound::Chord(seq![60u8, 64]),
        _ => Sound::Silent,
    }
}

/// What a key plays in lydian mode, unless it is one of the keys of `special_sound`.
pub open spec fn lydian_sound(key: Key) -> Sound {
    match key {
        Key::Q => Sound::Note(60),
        Key::W => Sound::Note(62),
        Key::E => Sound::Note(64),
        Key::R => Sound::Note(66),
        Key::T => Sound::Note(67),
        Key::Y => Sound::Note(69),
        Key::U => Sound::Note(71),
        Key::I => Sound::Note(72),
        Key::O => Sound::Note(74),
        Key::P => Sound::Note(76),
        Key::A => Sound::Note(55),
        Key::S => Sound::Note(57),
        Key::D => Sound::Note(59),
        Key::F => Sound::Note(60),
        Key::G => Sound::Note(61),
        Key::H => Sound::Note(62),
        Key::J => Sound::Note(64),
        Key::K => Sound::Note(66),
        Key::L => Sound::Note(67),
        Key::Z => Sound::Note(50),
        Key::X => Sound::Note(52),
        Key::C => Sound::Note(54),
        Key::V => Sound::Note(55),
        Key::B => Sound::Note(56),
        Key::N => Sound::Note(57),
        Key::M => Sound::Note(59),
        Key::Key1 => Sound::Note(72),
        Key::Key2 => Sound::Note(74),
        Key::Key3 => Sound::Note(76),
        Key::Key4 => Sound::Note(78),
        Key::Key5 => Sound::Note(79),
        Key::Key6 => Sound::Note(81),
        Key::Key7 => Sound::Note(83),
        Key::Key8 => Sound::Note(84),
        Key::Key9 => Sound::Note(86),
        Key::Key0 => Sound::Note(88),
        Key::Dot => Sound::Chord(seq![66u8, 69]),
        Key::Comma => Sound::Chord(seq![69u8, 66]),
        Key::Semicolon => Sound::Chord(seq![64u8, 66]),
        Key::Slash => Sound::Chord(seq![71u8, 69, 67]),
        Key::BackSlash => Sound::Chord(seq![60u8, 62, 66]),
        Key::LeftBracket => Sound::Chord(seq![60u8, 66]),
        Key::RightBracket => Sound::Chord(seq![64u8, 71]),
        Key::Minus => Sound::Note(48),
        Key::Equal => Sound::Note(84),
        Key::Grave => Sound::Note(36),
        Key::Apostrophe => Sound::Chord(seq![60u8, 66]),
        _ => Sound::Silent,
    }
}

/// What `key` plays in `mode`.
pub open spec fn key_sound(mode: ScaleMode, key: Key) -> Sound {
    match special_sound(key) {
        Some(s) => s,
        None => match mode {
            ScaleMode::Pentatonic => pentatonic_sound(key),
            ScaleMode::Lydian => lydian_sound(key),
        },
    }
}

/// Maps keys to notes in one scale mode.
pub struct KeyMapper {
    mode: ScaleMode,
}

impl KeyMapper {
    /// The mode the mapper plays.
    pub closed spec fn mode(&self) -> ScaleMode {
        self.mode
    }

    pub fn new(mode: ScaleMode) -> (m: Self)
        ensures
            m.mode() == mode,
    {
        Self { mode }
    }

    /// What `key` plays in this mapper's mode.
    pub fn map(&self, key: Key) -> (m: KeyMapping)
        ensures
            m@ == key_sound(self.mode(), key),
    {
        // special keys, the same in every mode
        match key {
            Key::Enter => return KeyMapping::Chord(&[48, 52, 55, 62]),  // C3 E3 G3 D4
            Key::Space => return KeyMapping::Chord(&[36, 43]),  // C2 G2
            Key::Backspace => return KeyMapping::Chord(&[64, 60]),  // E4 C4
            Key::Tab => return KeyMapping::Chord(&[67, 62]),  // G4 D4
            _ => {},
        }
        match self.mode {
            ScaleMode::Pentatonic => self.map_pentatonic(key),
            ScaleMode::Lydian => self.map_lydian(key),
        }
    }

    /// Pentatonic: letters are melody, numbers high accents, punctuation gestures.
    fn map_pentatonic(&self, key: Key) -> (m: KeyMapping)
        ensures
            m@ == pentatonic_sound(key),
    {
        match key {
            Key::Q => KeyMapping::Note(60),  // C4
            Key::W => KeyMapping::Note(62),  // D4
            Key::E => KeyMapping::Note(64),  // E4
            Key::R => KeyMapping::Note(67),  // G4
            Key::T => KeyMapping::Note(69),  // A4
            Key::Y => KeyMapping::Note(72),  // C5
            Key::U => KeyMapping::Note(74),  // D5
            Key::I => KeyMapping::Note(76),  // E5
            Key::O => KeyMapping::Note(79),  // G5
            Key::P => KeyMapping::Note(81),  // A5
            Key::A => KeyMapping::Note(55),  // G3
            Key::S => KeyMapping::Note(57),  // A3
            Key::D => KeyMapping::Note(59),  // B3
            Key::F => KeyMapping::Note(62),  // D4
            Key::G => KeyMapping::Note(64),  // E4
            Key::H => KeyMapping::Note(67),  // G4
            Key::J => KeyMapping::Note(69),  // A4
            Key::K => KeyMapping::Note(71),  // B4
            Key::L => KeyMapping::Note(74),  // D5
            Key::Z => KeyMapping::Note(50),  // D3
            Key::X => KeyMapping::Note(52),  // E3
            Key::C => KeyMapping::Note(54),  // F#3
            Key::V => KeyMapping::Note(57),  // A3
            Key::B => KeyMapping::Note(59),  // B3
            Key::N => KeyMapping::Note(62),  // D4
            Key::M => KeyMapping::Note(64),  // E4
            Key::Key1 => KeyMapping::Note(72),  // C5
            Key::Key2 => KeyMapping::Note(74),  // D5
            Key::Key3 => KeyMapping::Note(76),  // E5
            Key::Key4 => KeyMapping::Note(79),  // G5
            Key::Key5 => KeyMapping::Note(81),  // A5
            Key::Key6 => KeyMapping::Note(84),  // C6
            Key::Key7 => KeyMapping::Note(86),  // D6
            Key::Key8 => KeyMapping::Note(88),  // E6
            Key::Key9 => KeyMapping::Note(91),  // G6
            Key::Key0 => KeyMapping::Note(93),  // A6
            Key::Dot => KeyMapping::Chord(&[67, 69]),  // G4 A4
            Key::Comma => KeyMapping::Chord(&[69, 67]),  // A4 G4
            Key::Semicolon => KeyMapping::Chord(&[64, 69]),  // E4 A4
            Key::Slash => KeyMapping::Chord(&[69, 67, 64]),  // A4 G4 E4
            Key::BackSlash => KeyMapping::Chord(&[60, 62, 64]),  // C4 D4 E4
            Key::LeftBracket => KeyMapping::Chord(&[60, 67]),  // C4 G4
            Key::RightBracket => KeyMapping::Chord(&[64, 69]),  // E4 A4
            Key::Minus => KeyMapping::Note(48),  // C3
            Key::Equal => KeyMapping::Note(84),  // C6
            Key::Grave => KeyMapping::Note(36),  // C2
            Key::Apostrophe => KeyMapping::Chord(&[60, 64]),  // C4 E4
            _ => KeyMapping::Silent,
        }
    }

    /// Lydian: C D E F# G A B, bright and cinematic.
    fn map_lydian(&self, key: Key) -> (m: KeyMapping)
        ensures
            m@ == lydian_sound(key),
    {
        match key {
            Key::Q => KeyMapping::Note(60),  // C4
            Key::W => KeyMapping::Note(62),  // D4
            Key::E => KeyMapping::Note(64),  // E4
            Key::R => KeyMapping::Note(66),  // F#4
            Key::T => KeyMapping::Note(67),  // G4
            Key::Y => KeyMapping::Note(69),  // A4
            Key::U => KeyMapping::Note(71),  // B4
            Key::I => KeyMapping::Note(72),  // C5
            Key::O => KeyMapping::Note(74),  // D5
            Key::P => KeyMapping::Note(76),  // E5
            Key::A => KeyMapping::Note(55),  // G3
            Key::S => KeyMapping::Note(57),  // A3
            Key::D => KeyMapping::Note(59),  // B3
            Key::F => KeyMapping::Note(60),  // C4
            Key::G => KeyMapping::Note(61),  // C#4
            Key::H => KeyMapping::Note(62),  // D4
            Key::J => KeyMapping::Note(64),  // E4
            Key::K => KeyMapping::Note(66),  // F#4
            Key::L => KeyMapping::Note(67),  // G4
            Key::Z => KeyMapping::Note(50),  // D3
            Key::X => KeyMapping::Note(52),  // E3
            Key::C => KeyMapping::Note(54),  // F#3
            Key::V => KeyMapping::Note(55),  // G3
            Key::B => KeyMapping::Note(56),  // G#3
            Key::N => KeyMapping::Note(57),  // A3
            Key::M => KeyMapping::Note(59),  // B3
            Key::Key1 => KeyMapping::Note(72),  // C5
            Key::Key2 => KeyMapping::Note(74),  // D5
            Key::Key3 => KeyMapping::Note(76),  // E5
            Key::Key4 => KeyMapping::Note(78),  // F#5
            Key::Key5 => KeyMapping::Note(79),  // G5
            Key::Key6 => KeyMapping::Note(81),  // A5
            Key::Key7 => KeyMapping::Note(83),  // B5
            Key::Key8 => KeyMapping::Note(84),  // C6
            Key::Key9 => KeyMapping::Note(86),  // D6
            Key::Key0 => KeyMapping::Note(88),  // E6
            Key::Dot => KeyMapping::Chord(&[66, 69]),  // F#4 A4 (lydian color)
            Key::Comma => KeyMapping::Chord(&[69, 66]),  // A4 F#4
            Key::Semicolon => KeyMapping::Chord(&[64, 66]),  // E4 F#4
            Key::Slash => KeyMapping::Chord(&[71, 69, 67]),  // B4 A4 G4
            Key::BackSlash => KeyMapping::Chord(&[60, 62, 66]),  // C4 D4 F#4
            Key::LeftBracket => KeyMapping::Chord(&[60, 66]),  // C4 F#4 (tritone)
            Key::RightBracket => KeyMapping::Chord(&[64, 71]),  // E4 B4
            Key::Minus => KeyMapping::Note(48),  // C3
            Key::Equal => KeyMapping::Note(84),  // C6
            Key::Grave => KeyMapping::Note(36),  // C2
            Key::Apostrophe => KeyMapping::Chord(&[60, 66]),  // C4 F#4
            _ => KeyMapping::Silent,
        }
    }
}

/// The letter keys of the top row, left to right.
pub open spec fn top_row() -> Seq<Key> {
    seq![Key::Q, Key::W, Key::E, Key::R, Key::T, Key::Y, Key::U, Key::I, Key::O, Key::P]
}

/// The letter keys of the home row, left to right.
pub open spec fn home_row() -> Seq<Key> {
    seq![Key::A, Key::S, Key::D, Key::F, Key::G, Key::H, Key::J, Key::K, Key::L]
}

/// The letter keys of the bottom row, left to right.
pub open spec fn bottom_row() -> Seq<Key> {
    seq![Key::Z, Key::X, Key::C, Key::V, Key::B, Key::N, Key::M]
}

/// The number keys, left to right.
pub open spec fn number_row() -> Seq<Key> {
    seq![
        Key::Key1,
        Key::Key2,
        Key::Key3,
        Key::Key4,
        Key::Key5,
        Key::Key6,
        Key::Key7,
        Key::Key8,
        Key::Key9,
        Key::Key0,
    ]
}

/// The note of a single-note sound.
pub open spec fn note_of(s: Sound) -> int {
    match s {
        Sound::Note(n) => n as int,
        _ => -1,
    }
}

/// The notes a sound plays.
pub open spec fn notes_of(s: Sound) -> Seq<u8> {
    match s {
        Sound::Silent => seq![],
        Sound::Note(n) => seq![n],
        Sound::Chord(ns) => ns,
    }
}

/// The notes that the keys of `row` play in `mode`, one per key.
pub open spec fn row_notes(mode: ScaleMode, row: Seq<Key>) -> Seq<int> {
    row.map_values(|k: Key| note_of(key_sound(mode, k)))
}

/// Each entry is higher than the one before it.
pub open spec fn ascending(s: Seq<int>) -> bool {
    forall|i: int, j: int| 0 <= i < j < s.len() ==> s[i] < s[j]
}

/// Enter, space, backspace and tab play the same in every mode, and keys
/// outside the map play nothing.
pub proof fn special_keys_ignore_mode(key: Key, mode: ScaleMode)
    ensures
        special_sound(key) matches Some(s) ==> key_sound(mode, key) == s,
        key_sound(mode, Key::Other) == Sound::Silent,
{
}

/// Every letter and number key plays a single note.
pub proof fn letters_and_numbers_play_notes(mode: ScaleMode, key: Key)
    requires
        top_row().contains(key) || home_row().contains(key) || bottom_row().contains(key)
            || number_row().contains(key),
    ensures
        key_sound(mode, key) is Note,
{
    if top_row().contains(key) {
        let i = choose|i: int| 0 <= i < top_row().len() && top_row()[i] == key;
    } else if home_row().contains(key) {
        let i = choose|i: int| 0 <= i < home_row().len() && home_row()[i] == key;
    } else if bottom_row().contains(key) {
        let i = choose|i: int| 0 <= i < bottom_row().len() && bottom_row()[i] == key;
    } else {
        let i = choose|i: int| 0 <= i < number_row().len() && number_row()[i] == key;
    }
}

/// Each number key plays the top-row letter above it one octave higher.
pub proof fn numbers_double_top_row(mode: ScaleMode)
    ensures
        forall|i: int|
            0 <= i < 10 ==> #[trigger] row_notes(mode, number_row())[i] == row_notes(mode, top_row())[i]
                + 12,
{
}

/// Each letter row plays an ascending line, left to right.
pub proof fn letter_rows_ascend(mode: ScaleMode)
    ensures
        ascending(row_notes(mode, top_row())),
        ascending(row_notes(mode, home_row())),
        ascending(row_notes(mode, bottom_row())),
{
}

/// The comma plays the dot's gesture backwards.
pub proof fn comma_reverses_dot(mode: ScaleMode)
    ensures
        notes_of(key_sound(mode, Key::Comma)) == notes_of(key_sound(mode, Key::Dot)).reverse(),
{
}

/// Every note any key plays is a MIDI note (at most 127), so the voice
/// pool never ignores one.
pub proof fn keys_play_midi_notes(mode: ScaleMode, key: Key)
    ensures
        forall|i: int|
            0 <= i < notes_of(key_sound(mode, key)).len() ==> #[trigger] notes_of(
                key_sound(mode, key),
            )[i] <= 127,
{
}

/// Note `n` belongs to the major pentatonic scale on pitch class `root`.
pub open spec fn in_major_pentatonic(n: int, root: int) -> bool {
    let pc = (n - root) % 12;
    pc == 0 || pc == 2 || pc == 4 || pc == 7 || pc == 9
}

/// Note `n` belongs to the lydian scale on pitch class `root`.
pub open spec fn in_lydian(n: int, root: int) -> bool {
    let pc = (n - root) % 12;
    pc == 0 || pc == 2 || pc == 4 || pc == 6 || pc == 7 || pc == 9 || pc == 11
}

/// The punctuation keys, which play short gestures and single notes.
pub open spec fn punctuation_keys() -> Seq<Key> {
    seq![
        Key::Dot,
        Key::Comma,
        Key::Semicolon,
        Key::Slash,
        Key::BackSlash,
        Key::LeftBracket,
        Key::RightBracket,
        Key::Minus,
        Key::Equal,
        Key::Grave,
        Key::Apostrophe,
    ]
}

/// Pentatonic mode plays C pentatonic on the top row, each lower row the
/// row above it a fifth lower (G pentatonic, then D pentatonic), and
/// punctuation within C pentatonic. Neighbouring letters of the top row
/// are a pentatonic step (two or three semitones) apart, and each top-row
/// letter is an octave below the letter five to its right.
pub proof fn pentatonic_rows_step_down_by_fifths()
    ensures
        forall|i: int|
            0 <= i < 10 ==> in_major_pentatonic(
                #[trigger] row_notes(ScaleMode::Pentatonic, top_row())[i],
                0,
            ),
        forall|i: int|
            0 <= i < 9 ==> #[trigger] row_notes(ScaleMode::Pentatonic, top_row())[i + 1]
                - row_notes(ScaleMode::Pentatonic, top_row())[i] == 2 || row_notes(
                ScaleMode::Pentatonic,
                top_row(),
            )[i + 1] - row_notes(ScaleMode::Pentatonic, top_row())[i] == 3,
        forall|i: int|
            0 <= i < 5 ==> #[trigger] row_notes(ScaleMode::Pentatonic, top_row())[i + 5]
                == row_notes(ScaleMode::Pentatonic, top_row())[i] + 12,
        forall|i: int|
            0 <= i < 9 ==> #[trigger] row_notes(ScaleMode::Pentatonic, home_row())[i]
                == row_notes(ScaleMode::Pentatonic, top_row())[i] - 5,
        forall|i: int|
            0 <= i < 7 ==> #[trigger] row_notes(ScaleMode::Pentatonic, bottom_row())[i]
                == row_notes(ScaleMode::Pentatonic, home_row())[i] - 5,
        forall|k: int, i: int|
            0 <= k < 11 && 0 <= i < notes_of(key_sound(ScaleMode::Pentatonic, punctuation_keys()[k])).len()
                ==> in_major_pentatonic(
                #[trigger] notes_of(key_sound(ScaleMode::Pentatonic, punctuation_keys()[k]))[i] as int,
                0,
            ),
{
}

/// Lydian mode plays C lydian on the top row, one step (a semitone or a
/// tone) between neighbouring letters, each top-row letter an octave below
/// the letter seven to its right, and punctuation within C lydian. The
/// lower rows also move by semitones and tones.
pub proof fn lydian_top_row_is_the_scale()
    ensures
        forall|i: int|
            0 <= i < 10 ==> in_lydian(#[trigger] row_notes(ScaleMode::Lydian, top_row())[i], 0),
        forall|i: int|
            0 <= i < 9 ==> #[trigger] row_notes(ScaleMode::Lydian, top_row())[i + 1] - row_notes(
                ScaleMode::Lydian,
                top_row(),
            )[i] == 1 || row_notes(ScaleMode::Lydian, top_row())[i + 1] - row_notes(
                ScaleMode::Lydian,
                top_row(),
            )[i] == 2,
        forall|i: int|
            0 <= i < 3 ==> #[trigger] row_notes(ScaleMode::Lydian, top_row())[i + 7] == row_notes(
                ScaleMode::Lydian,
                top_row(),
            )[i] + 12,
        forall|i: int|
            0 <= i < 8 ==> #[trigger] row_notes(ScaleMode::Lydian, home_row())[i + 1] - row_notes(
                ScaleMode::Lydian,
                home_row(),
            )[i] == 1 || row_notes(ScaleMode::Lydian, home_row())[i + 1] - row_notes(
                ScaleMode::Lydian,
                home_row(),
            )[i] == 2,
        forall|i: int|
            0 <= i < 6 ==> #[trigger] row_notes(ScaleMode::Lydian, bottom_row())[i + 1] - row_notes(
                ScaleMode::Lydian,
                bottom_row(),
            )[i] == 1 || row_notes(ScaleMode::Lydian, bottom_row())[i + 1] - row_notes(
                ScaleMode::Lydian,
                bottom_row(),
            )[i] == 2,
        forall|k: int, i: int|
            0 <= k < 11 && 0 <= i < notes_of(key_sound(ScaleMode::Lydian, punctuation_keys()[k])).len()
                ==> in_lydian(
                #[trigger] notes_of(key_sound(ScaleMode::Lydian, punctuation_keys()[k]))[i] as int,
                0,
            ),
{
}

} // verus!
