use keystream::mapping::{Key, KeyMapper, KeyMapping, ScaleMode};

fn pent() -> KeyMapper {
    KeyMapper::new(ScaleMode::Pentatonic)
}

fn lyd() -> KeyMapper {
    KeyMapper::new(ScaleMode::Lydian)
}

#[test]
fn from_str_accepts_names_and_abbreviations() {
    for s in ["pentatonic", "penta", "p", "PENTATONIC", "Penta", "P"] {
        assert_eq!(ScaleMode::from_str(s), Some(ScaleMode::Pentatonic), "{}", s);
    }
    for s in ["lydian", "lyd", "l", "LYDIAN", "Lyd", "L"] {
        assert_eq!(ScaleMode::from_str(s), Some(ScaleMode::Lydian), "{}", s);
    }
}

#[test]
fn from_str_rejects_other_text() {
    for s in ["", "pent", "lydia", "dorian", " p", "p ", "pentatonicx", "ly d", "x", "\u{212a}"] {
        assert_eq!(ScaleMode::from_str(s), None, "{:?}", s);
    }
}

#[test]
fn special_keys_play_the_same_chords_in_both_modes() {
    for m in [pent(), lyd()] {
        assert_eq!(m.map(Key::Enter), KeyMapping::Chord(&[48, 52, 55, 62]));
        assert_eq!(m.map(Key::Space), KeyMapping::Chord(&[36, 43]));
        assert_eq!(m.map(Key::Backspace), KeyMapping::Chord(&[64, 60]));
        assert_eq!(m.map(Key::Tab), KeyMapping::Chord(&[67, 62]));
        assert_eq!(m.map(Key::Other), KeyMapping::Silent);
    }
}

#[test]
fn pentatonic_rows() {
    let m = pent();
    let top = [Key::Q, Key::W, Key::E, Key::R, Key::T, Key::Y, Key::U, Key::I, Key::O, Key::P];
    let top_notes = [60, 62, 64, 67, 69, 72, 74, 76, 79, 81];
    for (k, n) in top.iter().zip(top_notes.iter()) {
        assert_eq!(m.map(*k), KeyMapping::Note(*n));
    }
    let home = [Key::A, Key::S, Key::D, Key::F, Key::G, Key::H, Key::J, Key::K, Key::L];
    let home_notes = [55, 57, 59, 62, 64, 67, 69, 71, 74];
    for (k, n) in home.iter().zip(home_notes.iter()) {
        assert_eq!(m.map(*k), KeyMapping::Note(*n));
    }
    let bottom = [Key::Z, Key::X, Key::C, Key::V, Key::B, Key::N, Key::M];
    let bottom_notes = [50, 52, 54, 57, 59, 62, 64];
    for (k, n) in bottom.iter().zip(bottom_notes.iter()) {
        assert_eq!(m.map(*k), KeyMapping::Note(*n));
    }
    let numbers = [
        Key::Key1, Key::Key2, Key::Key3, Key::Key4, Key::Key5, Key::Key6, Key::Key7, Key::Key8,
        Key::Key9, Key::Key0,
    ];
    let number_notes = [72, 74, 76, 79, 81, 84, 86, 88, 91, 93];
    for (k, n) in numbers.iter().zip(number_notes.iter()) {
        assert_eq!(m.map(*k), KeyMapping::Note(*n));
    }
}

#[test]
fn pentatonic_punctuation() {
    let m = pent();
    assert_eq!(m.map(Key::Dot), KeyMapping::Chord(&[67, 69]));
    assert_eq!(m.map(Key::Comma), KeyMapping::Chord(&[69, 67]));
    assert_eq!(m.map(Key::Semicolon), KeyMapping::Chord(&[64, 69]));
    assert_eq!(m.map(Key::Slash), KeyMapping::Chord(&[69, 67, 64]));
    assert_eq!(m.map(Key::BackSlash), KeyMapping::Chord(&[60, 62, 64]));
    assert_eq!(m.map(Key::LeftBracket), KeyMapping::Chord(&[60, 67]));
    assert_eq!(m.map(Key::RightBracket), KeyMapping::Chord(&[64, 69]));
    assert_eq!(m.map(Key::Minus), KeyMapping::Note(48));
    assert_eq!(m.map(Key::Equal), KeyMapping::Note(84));
    assert_eq!(m.map(Key::Grave), KeyMapping::Note(36));
    assert_eq!(m.map(Key::Apostrophe), KeyMapping::Chord(&[60, 64]));
}

#[test]
fn lydian_rows() {
    let m = lyd();
    let top = [Key::Q, Key::W, Key::E, Key::R, Key::T, Key::Y, Key::U, Key::I, Key::O, Key::P];
    let top_notes = [60, 62, 64, 66, 67, 69, 71, 72, 74, 76];
    for (k, n) in top.iter().zip(top_notes.iter()) {
        assert_eq!(m.map(*k), KeyMapping::Note(*n));
    }
    let home = [Key::A, Key::S, Key::D, Key::F, Key::G, Key::H, Key::J, Key::K, Key::L];
    let home_notes = [55, 57, 59, 60, 61, 62, 64, 66, 67];
    for (k, n) in home.iter().zip(home_notes.iter()) {
        assert_eq!(m.map(*k), KeyMapping::Note(*n));
    }
    let bottom = [Key::Z, Key::X, Key::C, Key::V, Key::B, Key::N, Key::M];
    let bottom_notes = [50, 52, 54, 55, 56, 57, 59];
    for (k, n) in bottom.iter().zip(bottom_notes.iter()) {
        assert_eq!(m.map(*k), KeyMapping::Note(*n));
    }
    let numbers = [
        Key::Key1, Key::Key2, Key::Key3, Key::Key4, Key::Key5, Key::Key6, Key::Key7, Key::Key8,
        Key::Key9, Key::Key0,
    ];
    let number_notes = [72, 74, 76, 78, 79, 81, 83, 84, 86, 88];
    for (k, n) in numbers.iter().zip(number_notes.iter()) {
        assert_eq!(m.map(*k), KeyMapping::Note(*n));
    }
}

#[test]
fn lydian_punctuation() {
    let m = lyd();
    assert_eq!(m.map(Key::Dot), KeyMapping::Chord(&[66, 69]));
    assert_eq!(m.map(Key::Comma), KeyMapping::Chord(&[69, 66]));
    assert_eq!(m.map(Key::Semicolon), KeyMapping::Chord(&[64, 66]));
    assert_eq!(m.map(Key::Slash), KeyMapping::Chord(&[71, 69, 67]));
    assert_eq!(m.map(Key::BackSlash), KeyMapping::Chord(&[60, 62, 66]));
    assert_eq!(m.map(Key::LeftBracket), KeyMapping::Chord(&[60, 66]));
    assert_eq!(m.map(Key::RightBracket), KeyMapping::Chord(&[64, 71]));
    assert_eq!(m.map(Key::Minus), KeyMapping::Note(48));
    assert_eq!(m.map(Key::Equal), KeyMapping::Note(84));
    assert_eq!(m.map(Key::Grave), KeyMapping::Note(36));
    assert_eq!(m.map(Key::Apostrophe), KeyMapping::Chord(&[60, 66]));
}

#[test]
fn numbers_are_top_row_an_octave_up() {
    let top = [Key::Q, Key::W, Key::E, Key::R, Key::T, Key::Y, Key::U, Key::I, Key::O, Key::P];
    let numbers = [
        Key::Key1, Key::Key2, Key::Key3, Key::Key4, Key::Key5, Key::Key6, Key::Key7, Key::Key8,
        Key::Key9, Key::Key0,
    ];
    for m in [pent(), lyd()] {
        for (t, n) in top.iter().zip(numbers.iter()) {
            match (m.map(*t), m.map(*n)) {
                (KeyMapping::Note(a), KeyMapping::Note(b)) => assert_eq!(a + 12, b),
                other => panic!("unexpected {:?}", other),
            }
        }
    }
}

#[test]
fn comma_reverses_dot_in_both_modes() {
    for m in [pent(), lyd()] {
        match (m.map(Key::Dot), m.map(Key::Comma)) {
            (KeyMapping::Chord(d), KeyMapping::Chord(c)) => {
                let mut r = d.to_vec();
                r.reverse();
                assert_eq!(r, c.to_vec());
            }
            other => panic!("unexpected {:?}", other),
        }
    }
}
