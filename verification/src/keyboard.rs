//! Key presses and releases, turned into note events for the synthesiser.
use vstd::prelude::*;
use crate::mapping::{Key, KeyMapper, KeyMapping, Sound, key_sound, notes_of};

verus! {

/// A note starts (`Down`) or stops (`Up`).
#[derive(Clone, Copy, Debug, PartialEq, Eq, Structural)]
pub enum KeyEvent {
    Down(u8),
    Up(u8),
}

/// The event for `note` when its key goes down (`pressed`) or up.
pub open spec fn event_for(note: u8, pressed: bool) -> KeyEvent {
    if pressed {
        KeyEvent::Down(note)
    } else {
        KeyEvent::Up(note)
    }
}

/// The events a key that plays `s` sends when pressed or released: one per
/// note, in the order of the chord.
pub open spec fn events_of(s: Sound, pressed: bool) -> Seq<KeyEvent> {
    notes_of(s).map_values(|n: u8| event_for(n, pressed))
}

/// The events for a key whose mapping is `mapping`.
pub fn key_events(mapping: &KeyMapping, pressed: bool) -> (v: Vec<KeyEvent>)
    ensures
        v@ == events_of(mapping@, pressed),
{
    let mut v: Vec<KeyEvent> = Vec::new();
    match mapping {
        KeyMapping::Silent => {},
        KeyMapping::Note(n) => {
            v.push(if pressed {
                KeyEvent::Down(*n)
            } else {
                KeyEvent::Up(*n)
            });
        },
        KeyMapping::Chord(ns) => {
            let len = ns.len();
            let mut i: usize = 0;
            while i < len
                invariant
                    len == ns@.len(),
                    i <= len,
                    v@ =~= ns@.subrange(0, i as int).map_values(|n: u8| event_for(n, pressed)),
                decreases len - i,
            {
                let n = ns[i];
                v.push(if pressed {
                    KeyEvent::Down(n)
                } else {
                    KeyEvent::Up(n)
                });
                i = i + 1;
            }
            assert(ns@.subrange(0, len as int) =~= ns@);
        },
    }
    assert(v@ =~= events_of(mapping@, pressed));
    v
}

/// The events that pressing (`pressed`) or releasing `key` sends, in the
/// mapper's mode.
pub fn key_events_for(mapper: &KeyMapper, key: Key, pressed: bool) -> (v: Vec<KeyEvent>)
    ensures
        v@ == events_of(key_sound(mapper.mode(), key), pressed),
{
    let m = mapper.map(key);
    key_events(&m, pressed)
}

/// A key's release sends an `Up` for each note that its press sent a
/// `Down` for, in the same order.
pub proof fn release_mirrors_press(s: Sound)
    ensures
        events_of(s, true).len() == notes_of(s).len(),
        events_of(s, false).len() == notes_of(s).len(),
        forall|i: int|
            0 <= i < notes_of(s).len() ==> #[trigger] events_of(s, true)[i] == KeyEvent::Down(
                notes_of(s)[i],
            ) && events_of(s, false)[i] == KeyEvent::Up(notes_of(s)[i]),
{
}

/// A chord sends one event per note of its own list, in order: `Down`
/// when pressed, `Up` when released. A single note sends one event, and a
/// silent key none.
pub proof fn events_follow_the_notes(ns: Seq<u8>, n: u8, pressed: bool)
    ensures
        events_of(Sound::Chord(ns), pressed).len() == ns.len(),
        forall|i: int|
            0 <= i < ns.len() ==> #[trigger] events_of(Sound::Chord(ns), pressed)[i] == (if pressed {
                KeyEvent::Down(ns[i])
            } else {
                KeyEvent::Up(ns[i])
            }),
        events_of(Sound::Note(n), pressed) == seq![
            if pressed {
                KeyEvent::Down(n)
            } else {
                KeyEvent::Up(n)
            },
        ],
        events_of(Sound::Silent, pressed).len() == 0,
{
    assert(events_of(Sound::Note(n), pressed) =~= seq![
        if pressed {
            KeyEvent::Down(n)
        } else {
            KeyEvent::Up(n)
        },
    ]);
}

} // verus!
