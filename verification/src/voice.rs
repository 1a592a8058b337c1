//! The voice pool: which of the synthesiser's voices sounds which note.
//!
//! The oscillators and envelopes themselves are floating-point signal
//! processing and live with the audio output; this module keeps each
//! voice's envelope stage, its note and its start time, and decides which
//! voice a new note takes.
use vstd::prelude::*;
use crate::keyboard::KeyEvent;

verus! {

/// Number of voices that can sound at once.
pub const MAX_VOICES: usize = 32;

/// Highest MIDI note number; higher numbers are ignored.
pub const MAX_NOTE: u8 = 127;

/// Envelope stage of one voice.
#[derive(Clone, Copy, Debug, PartialEq, Eq, Structural)]
pub enum VoiceState {
    Off,
    Attack,
    Sustain,
    Release,
}

/// What the pool knows of one voice.
#[derive(Clone, Copy, Debug, PartialEq, Eq, Structural)]
pub struct VoiceSlot {
    pub state: VoiceState,
    pub note_id: u8,
    /// Value of the pool's clock when the voice was last started.
    pub age: u64,
}

/// A voice in its attack or sustain stage: a key still holds it.
pub open spec fn sounding(s: VoiceSlot) -> bool {
    s.state == VoiceState::Attack || s.state == VoiceState::Sustain
}

/// Some voice of `slots` is in stage `st`.
pub open spec fn has_state(slots: Seq<VoiceSlot>, st: VoiceState) -> bool {
    exists|j: int| 0 <= j < slots.len() && #[trigger] slots[j].state == st
}

/// `i` is the voice a new note takes: the first free voice; failing that,
/// the first of the releasing voices whose envelope is lowest; failing that,
/// the first of the voices started longest ago. `loudness[j]` orders the
/// voices by envelope level.
pub open spec fn is_allocated_voice(slots: Seq<VoiceSlot>, loudness: Seq<u32>, i: int) -> bool {
    &&& 0 <= i < slots.len()
    &&& if has_state(slots, VoiceState::Off) {
        &&& slots[i].state == VoiceState::Off
        &&& forall|j: int| 0 <= j < i ==> #[trigger] slots[j].state != VoiceState::Off
    } else if has_state(slots, VoiceState::Release) {
        &&& slots[i].state == VoiceState::Release
        &&& forall|j: int|
            0 <= j < slots.len() && #[trigger] slots[j].state == VoiceState::Release
                ==> loudness[i] <= loudness[j]
        &&& forall|j: int|
            0 <= j < i && #[trigger] slots[j].state == VoiceState::Release
                ==> loudness[i] < loudness[j]
    } else {
        &&& forall|j: int| 0 <= j < slots.len() ==> slots[i].age <= #[trigger] slots[j].age
        &&& forall|j: int| 0 <= j < i ==> slots[i].age < #[trigger] slots[j].age
    }
}

/// A voice after a note-off for `note`: released if it sounds that note.
pub open spec fn released_by(s: VoiceSlot, note: u8) -> VoiceSlot {
    if s.note_id == note && sounding(s) {
        VoiceSlot { state: VoiceState::Release, note_id: s.note_id, age: s.age }
    } else {
        s
    }
}

/// The voices after a note-off for `note`.
pub open spec fn release_note(slots: Seq<VoiceSlot>, note: u8) -> Seq<VoiceSlot> {
    slots.map_values(|s: VoiceSlot| released_by(s, note))
}

/// A voice after its envelope has reached the end of its attack (the top)
/// or of its release (silence), when `reached` holds.
pub open spec fn after_envelope(s: VoiceSlot, reached: bool) -> VoiceSlot {
    if reached && s.state == VoiceState::Attack {
        VoiceSlot { state: VoiceState::Sustain, note_id: s.note_id, age: s.age }
    } else if reached && s.state == VoiceState::Release {
        VoiceSlot { state: VoiceState::Off, note_id: s.note_id, age: s.age }
    } else {
        s
    }
}

/// The pool of voices and the clock that stamps each started note.
pub struct VoiceManager {
    slots: Vec<VoiceSlot>,
    time: u64,
}

impl VoiceManager {
    /// The voices, in order.
    pub closed spec fn slots(&self) -> Seq<VoiceSlot> {
        self.slots@
    }

    /// The number of notes started so far.
    pub closed spec fn clock(&self) -> u64 {
        self.time
    }

    /// The pool has its full set of voices, none started after the clock.
    pub closed spec fn wf(&self) -> bool {
        &&& self.slots@.len() == MAX_VOICES
        &&& forall|i: int| 0 <= i < self.slots@.len() ==> #[trigger] self.slots@[i].age <= self.time
    }

    /// A well-formed pool has its full set of voices, none of them started
    /// after the clock.
    pub proof fn lemma_wf(&self)
        requires
            self.wf(),
        ensures
            self.slots().len() == MAX_VOICES,
            forall|i: int| 0 <= i < self.slots().len() ==> #[trigger] self.slots()[i].age <= self.clock(),
    {
    }

    /// A pool whose voices are all off.
    pub fn new() -> (vm: Self)
        ensures
            vm.wf(),
            vm.clock() == 0,
            vm.slots().len() == MAX_VOICES,
            forall|i: int|
                0 <= i < MAX_VOICES ==> #[trigger] vm.slots()[i] == (VoiceSlot {
                    state: VoiceState::Off,
                    note_id: 0,
                    age: 0,
                }),
    {
        let mut slots: Vec<VoiceSlot> = Vec::new();
        let mut k: usize = 0;
        while k < MAX_VOICES
            invariant
                k <= MAX_VOICES,
                slots@.len() == k,
                forall|i: int|
                    0 <= i < k ==> #[trigger] slots@[i] == (VoiceSlot {
                        state: VoiceState::Off,
                        note_id: 0,
                        age: 0,
                    }),
            decreases MAX_VOICES - k,
        {
            slots.push(VoiceSlot { state: VoiceState::Off, note_id: 0, age: 0 });
            k = k + 1;
        }
        VoiceManager { slots, time: 0 }
    }

    /// The clock.
    pub fn time(&self) -> (t: u64)
        ensures
            t == self.clock(),
    {
        self.time
    }

    /// Voice `i`.
    pub fn voice(&self, i: usize) -> (s: VoiceSlot)
        requires
            self.wf(),
            i < MAX_VOICES,
        ensures
            s == self.slots()[i as int],
    {
        self.slots[i]
    }

    /// Index of the voice a new note takes.
    fn allocate_voice(&self, loudness: &Vec<u32>) -> (idx: usize)
        requires
            self.wf(),
            loudness@.len() == MAX_VOICES,
        ensures
            is_allocated_voice(self.slots@, loudness@, idx as int),
    {
        let n = self.slots.len();
        let mut i: usize = 0;
        while i < n
            invariant
                n == self.slots@.len(),
                i <= n,
                forall|j: int| 0 <= j < i ==> #[trigger] self.slots@[j].state != VoiceState::Off,
            decreases n - i,
        {
            if self.slots[i].state == VoiceState::Off {
                return i;
            }
            i = i + 1;
        }
        assert(!has_state(self.slots@, VoiceState::Off));
        // the releasing voice nearest to silence, the first among equals
        let mut best: usize = n;
        let mut j: usize = 0;
        while j < n
            invariant
                n == self.slots@.len(),
                n == loudness@.len(),
                j <= n,
                best == n ==> forall|k: int|
                    0 <= k < j ==> #[trigger] self.slots@[k].state != VoiceState::Release,
                best != n ==> {
                    &&& best < j
                    &&& self.slots@[best as int].state == VoiceState::Release
                    &&& forall|k: int|
                        0 <= k < j && #[trigger] self.slots@[k].state == VoiceState::Release
                            ==> loudness@[best as int] <= loudness@[k]
                    &&& forall|k: int|
                        0 <= k < best && #[trigger] self.slots@[k].state == VoiceState::Release
                            ==> loudness@[best as int] < loudness@[k]
                },
            decreases n - j,
        {
            if self.slots[j].state == VoiceState::Release && (best == n || loudness[j]
                < loudness[best]) {
                best = j;
            }
            j = j + 1;
        }
        if best != n {
            return best;
        }
        assert(!has_state(self.slots@, VoiceState::Release));
        // no releasing voice: the one that has played longest, the first among equals
        let mut oldest: usize = 0;
        let mut k: usize = 1;
        while k < n
            invariant
                n == self.slots@.len(),
                n == MAX_VOICES,
                1 <= k <= n,
                oldest < k,
                forall|m: int| 0 <= m < k ==> self.slots@[oldest as int].age <= #[trigger] self.slots@[m].age,
                forall|m: int| 0 <= m < oldest ==> self.slots@[oldest as int].age < #[trigger] self.slots@[m].age,
            decreases n - k,
        {
            if self.slots[k].age < self.slots[oldest].age {
                oldest = k;
            }
            k = k + 1;
        }
        oldest
    }

    /// Starts `note` on the voice that `is_allocated_voice` names, stamped
    /// with the next clock value, and returns that voice's index. Notes above
    /// 127 are ignored. `loudness[j]` must order the voices by their current
    /// envelope level.
    pub fn note_on(&mut self, note: u8, loudness: &Vec<u32>) -> (started: Option<usize>)
        requires
            old(self).wf(),
            loudness@.len() == MAX_VOICES,
            note <= MAX_NOTE ==> old(self).clock() < u64::MAX,
        ensures
            final(self).wf(),
            note > MAX_NOTE ==> started is None && final(self).slots() == old(self).slots()
                && final(self).clock() == old(self).clock(),
            note <= MAX_NOTE ==> (started matches Some(i) && {
                &&& is_allocated_voice(old(self).slots(), loudness@, i as int)
                &&& final(self).clock() == old(self).clock() + 1
                &&& final(self).slots() == old(self).slots().update(
                    i as int,
                    VoiceSlot { state: VoiceState::Attack, note_id: note, age: final(self).clock() },
                )
            }),
    {
        if note > MAX_NOTE {
            return None;
        }
        self.time = self.time + 1;
        let idx = self.allocate_voice(loudness);
        let t = self.time;
        self.slots.set(idx, VoiceSlot { state: VoiceState::Attack, note_id: note, age: t });
        Some(idx)
    }

    /// Moves every voice that sounds `note` to its release stage. Notes
    /// above 127 are ignored.
    pub fn note_off(&mut self, note: u8)
        requires
            old(self).wf(),
        ensures
            final(self).wf(),
            final(self).clock() == old(self).clock(),
            note > MAX_NOTE ==> final(self).slots() == old(self).slots(),
            note <= MAX_NOTE ==> final(self).slots() == release_note(old(self).slots(), note),
    {
        if note > MAX_NOTE {
            return;
        }
        let ghost start = self.slots@;
        let n = self.slots.len();
        let mut i: usize = 0;
        while i < n
            invariant
                n == self.slots@.len(),
                n == start.len(),
                start == old(self).slots@,
                old(self).wf(),
                self.time == old(self).time,
                i <= n,
                forall|k: int| 0 <= k < i ==> #[trigger] self.slots@[k] == released_by(start[k], note),
                forall|k: int| i <= k < n ==> #[trigger] self.slots@[k] == start[k],
            decreases n - i,
        {
            let s = self.slots[i];
            if s.note_id == note && (s.state == VoiceState::Attack || s.state
                == VoiceState::Sustain) {
                self.slots.set(i, VoiceSlot { state: VoiceState::Release, note_id: s.note_id, age: s.age });
            }
            i = i + 1;
        }
        assert(self.slots@ =~= release_note(start, note));
    }

    /// Records that voice `idx`'s envelope has (`limit_reached`) or has not
    /// reached the end of its current stage: the top of the attack, which
    /// moves it to sustain, or silence at the end of the release, which
    /// turns it off.
    pub fn envelope_step(&mut self, idx: usize, limit_reached: bool)
        requires
            old(self).wf(),
            idx < MAX_VOICES,
        ensures
            final(self).wf(),
            final(self).clock() == old(self).clock(),
            final(self).slots() == old(self).slots().update(
                idx as int,
                after_envelope(old(self).slots()[idx as int], limit_reached),
            ),
    {
        let s = self.slots[idx];
        if limit_reached && s.state == VoiceState::Attack {
            self.slots.set(idx, VoiceSlot { state: VoiceState::Sustain, note_id: s.note_id, age: s.age });
        } else if limit_reached && s.state == VoiceState::Release {
            self.slots.set(idx, VoiceSlot { state: VoiceState::Off, note_id: s.note_id, age: s.age });
        }
        assert(self.slots@ =~= old(self).slots@.update(idx as int, after_envelope(old(self).slots@[idx as int], limit_reached)));
    }

    /// Applies one key event: `Down` starts its note as `note_on` does and
    /// returns the voice, `Up` releases its note as `note_off` does.
    pub fn handle(&mut self, event: KeyEvent, loudness: &Vec<u32>) -> (started: Option<usize>)
        requires
            old(self).wf(),
            loudness@.len() == MAX_VOICES,
            event matches KeyEvent::Down(n) && n <= MAX_NOTE ==> old(self).clock() < u64::MAX,
        ensures
            final(self).wf(),
            match event {
                KeyEvent::Down(note) => {
                    &&& note > MAX_NOTE ==> started is None && final(self).slots() == old(self).slots()
                        && final(self).clock() == old(self).clock()
                    &&& note <= MAX_NOTE ==> (started matches Some(i) && {
                        &&& is_allocated_voice(old(self).slots(), loudness@, i as int)
                        &&& final(self).clock() == old(self).clock() + 1
                        &&& final(self).slots() == old(self).slots().update(
                            i as int,
                            VoiceSlot { state: VoiceState::Attack, note_id: note, age: final(self).clock() },
                        )
                    })
                },
                KeyEvent::Up(note) => {
                    &&& started is None
                    &&& final(self).clock() == old(self).clock()
                    &&& note > MAX_NOTE ==> final(self).slots() == old(self).slots()
                    &&& note <= MAX_NOTE ==> final(self).slots() == release_note(old(self).slots(), note)
                },
            },
    {
        match event {
            KeyEvent::Down(note) => self.note_on(note, loudness),
            KeyEvent::Up(note) => {
                self.note_off(note);
                None
            },
        }
    }
}

/// The voices after note-offs for each of `notes` in turn.
pub open spec fn release_notes(slots: Seq<VoiceSlot>, notes: Seq<u8>) -> Seq<VoiceSlot>
    decreases notes.len(),
{
    if notes.len() == 0 {
        slots
    } else {
        release_notes(release_note(slots, notes[0]), notes.drop_first())
    }
}

/// The allocation rule names exactly one voice.
pub proof fn allocation_is_unique(slots: Seq<VoiceSlot>, loudness: Seq<u32>, i: int, j: int)
    requires
        is_allocated_voice(slots, loudness, i),
        is_allocated_voice(slots, loudness, j),
    ensures
        i == j,
{
    if i != j {
        let (a, b) = if i < j { (i, j) } else { (j, i) };
        assert(is_allocated_voice(slots, loudness, a) && is_allocated_voice(slots, loudness, b));
        if has_state(slots, VoiceState::Off) {
            assert(slots[a].state == VoiceState::Off);
            assert(slots[b].state != VoiceState::Off);
        } else if has_state(slots, VoiceState::Release) {
            assert(slots[a].state == VoiceState::Release);
            assert(loudness[b] < loudness[a]);
            assert(loudness[a] <= loudness[b]);
        } else {
            assert(slots[b].age < slots[a].age);
            assert(slots[a].age <= slots[b].age);
        }
    }
}

/// While a voice is free, a new note takes the first free voice and cuts
/// off nothing that sounds or fades.
pub proof fn free_voice_taken_first(slots: Seq<VoiceSlot>, loudness: Seq<u32>, i: int, f: int)
    requires
        0 <= f < slots.len(),
        slots[f].state == VoiceState::Off,
        is_allocated_voice(slots, loudness, i),
    ensures
        slots[i].state == VoiceState::Off,
        i <= f,
        forall|j: int| 0 <= j < i ==> #[trigger] slots[j].state != VoiceState::Off,
{
    assert(has_state(slots, VoiceState::Off));
}

/// A voice is stolen from a sounding note only when every voice sounds,
/// and then it is the one started longest ago.
pub proof fn oldest_voice_stolen_last(slots: Seq<VoiceSlot>, loudness: Seq<u32>, i: int)
    requires
        is_allocated_voice(slots, loudness, i),
        sounding(slots[i]),
    ensures
        forall|j: int| 0 <= j < slots.len() ==> sounding(#[trigger] slots[j]),
        forall|j: int| 0 <= j < slots.len() ==> slots[i].age <= #[trigger] slots[j].age,
        forall|j: int| 0 <= j < i ==> slots[i].age < #[trigger] slots[j].age,
{
    assert forall|j: int| 0 <= j < slots.len() implies sounding(#[trigger] slots[j]) by {
        if slots[j].state == VoiceState::Off {
            assert(has_state(slots, VoiceState::Off));
        } else if slots[j].state == VoiceState::Release {
            assert(has_state(slots, VoiceState::Release));
        }
    }
}

/// After a note-off, no voice sounds that note, and the voices of other
/// notes are untouched.
pub proof fn note_off_silences_note(slots: Seq<VoiceSlot>, note: u8)
    ensures
        forall|i: int|
            0 <= i < slots.len() ==> {
                let after = #[trigger] release_note(slots, note)[i];
                &&& !(after.note_id == note && sounding(after))
                &&& slots[i].note_id != note ==> after == slots[i]
                &&& after.note_id == slots[i].note_id
                &&& after.age == slots[i].age
            },
{
}

proof fn lemma_release_notes_keeps(slots: Seq<VoiceSlot>, notes: Seq<u8>)
    ensures
        release_notes(slots, notes).len() == slots.len(),
        forall|i: int|
            0 <= i < slots.len() ==> (#[trigger] release_notes(slots, notes)[i]).note_id
                == slots[i].note_id,
        forall|i: int|
            0 <= i < slots.len() && !sounding(slots[i]) ==> !sounding(
                #[trigger] release_notes(slots, notes)[i],
            ),
    decreases notes.len(),
{
    if notes.len() > 0 {
        let next = release_note(slots, notes[0]);
        lemma_release_notes_keeps(next, notes.drop_first());
        assert forall|i: int| 0 <= i < slots.len() implies (#[trigger] release_notes(slots, notes)[i]).note_id
                == slots[i].note_id by {
            assert(next[i].note_id == slots[i].note_id);
        }
        assert forall|i: int|
            0 <= i < slots.len() && !sounding(slots[i]) implies !sounding(
                #[trigger] release_notes(slots, notes)[i],
            ) by {
            assert(!sounding(next[i]));
        }
    }
}

/// Releasing a key, which sends a note-off for each note its press
/// started, leaves no voice sounding any of those notes.
pub proof fn key_release_silences_key(slots: Seq<VoiceSlot>, notes: Seq<u8>)
    ensures
        forall|i: int, k: int|
            0 <= i < slots.len() && 0 <= k < notes.len() ==> !(#[trigger] release_notes(slots, notes)[i].note_id
                == #[trigger] notes[k] && sounding(release_notes(slots, notes)[i])),
    decreases notes.len(),
{
    if notes.len() > 0 {
        let next = release_note(slots, notes[0]);
        let rest = notes.drop_first();
        key_release_silences_key(next, rest);
        lemma_release_notes_keeps(next, rest);
        assert forall|i: int, k: int|
            0 <= i < slots.len() && 0 <= k < notes.len() implies !(#[trigger] release_notes(slots, notes)[i].note_id
                == #[trigger] notes[k] && sounding(release_notes(slots, notes)[i])) by {
            if k > 0 {
                assert(notes[k] == rest[k - 1]);
            } else {
                assert(!(next[i].note_id == notes[0] && sounding(next[i])));
            }
        }
    }
}

/// A note-off for `note` moves each voice that plays `note` in its attack
/// or sustain to its release, keeping its note and start time, and leaves
/// every other voice exactly as it was; in particular a voice that is
/// already fading out keeps fading.
pub proof fn note_off_releases_only_held_voices(slots: Seq<VoiceSlot>, note: u8)
    ensures
        release_note(slots, note).len() == slots.len(),
        forall|i: int|
            0 <= i < slots.len() ==> {
                let before = slots[i];
                let after = #[trigger] release_note(slots, note)[i];
                if before.note_id == note && (before.state == VoiceState::Attack || before.state
                    == VoiceState::Sustain) {
                    after == VoiceSlot {
                        state: VoiceState::Release,
                        note_id: before.note_id,
                        age: before.age,
                    }
                } else {
                    after == before
                }
            },
{
}

/// The end of an envelope stage moves an attacking voice to sustain and a
/// releasing voice to off; nothing else changes a voice.
pub proof fn envelope_step_moves_one_stage(s: VoiceSlot, reached: bool)
    ensures
        after_envelope(s, reached).note_id == s.note_id,
        after_envelope(s, reached).age == s.age,
        !reached ==> after_envelope(s, reached) == s,
        s.state == VoiceState::Off || s.state == VoiceState::Sustain ==> after_envelope(s, reached)
            == s,
        reached && s.state == VoiceState::Attack ==> after_envelope(s, reached).state
            == VoiceState::Sustain,
        reached && s.state == VoiceState::Release ==> after_envelope(s, reached).state
            == VoiceState::Off,
{
}

/// With no voice free and some voice fading out, a new note takes a fading
/// voice: one with the lowest envelope level, the first of those.
pub proof fn quietest_fading_voice_taken(slots: Seq<VoiceSlot>, loudness: Seq<u32>, i: int)
    requires
        is_allocated_voice(slots, loudness, i),
        forall|j: int| 0 <= j < slots.len() ==> #[trigger] slots[j].state != VoiceState::Off,
        exists|j: int| 0 <= j < slots.len() && #[trigger] slots[j].state == VoiceState::Release,
    ensures
        slots[i].state == VoiceState::Release,
        forall|j: int|
            0 <= j < slots.len() && #[trigger] slots[j].state == VoiceState::Release
                ==> loudness[i] <= loudness[j],
        forall|j: int|
            0 <= j < i && #[trigger] slots[j].state == VoiceState::Release ==> loudness[i]
                < loudness[j],
{
    let w = choose|j: int| 0 <= j < slots.len() && #[trigger] slots[j].state == VoiceState::Release;
    assert(has_state(slots, VoiceState::Release));
    if has_state(slots, VoiceState::Off) {
        let k = choose|j: int| 0 <= j < slots.len() && #[trigger] slots[j].state == VoiceState::Off;
        assert(slots[k].state != VoiceState::Off);
    }
}

} // verus!
