use keystream::keyboard::KeyEvent;
use keystream::voice::{VoiceManager, VoiceSlot, VoiceState, MAX_VOICES};

const TEST_SAMPLE_RATE: f32 = 44100.0;

/// The envelope levels of the voices, advanced one sample at a time the way
/// the synthesiser advances them, reporting to the pool when a stage ends.
struct Envelopes {
    level: Vec<f32>,
    attack_step: f32,
    release_step: f32,
}

impl Envelopes {
    fn new(attack_step: f32, release_step: f32) -> Self {
        Envelopes { level: vec![0.0; MAX_VOICES], attack_step, release_step }
    }

    fn at_sample_rate(sample_rate: f32) -> Self {
        Self::new(1.0 / (0.005 * sample_rate), 1.0 / (0.2 * sample_rate))
    }

    fn loudness(&self) -> Vec<u32> {
        self.level.iter().map(|l| l.to_bits()).collect()
    }

    fn note_on(&mut self, vm: &mut VoiceManager, note: u8) -> Option<usize> {
        let started = vm.note_on(note, &self.loudness());
        if let Some(i) = started {
            self.level[i] = 0.0;
        }
        started
    }

    fn process(&mut self, vm: &mut VoiceManager) {
        for i in 0..MAX_VOICES {
            let reached = match vm.voice(i).state {
                VoiceState::Attack => {
                    self.level[i] += self.attack_step;
                    if self.level[i] >= 1.0 {
                        self.level[i] = 1.0;
                        true
                    } else {
                        false
                    }
                }
                VoiceState::Release => {
                    self.level[i] -= self.release_step;
                    if self.level[i] <= 0.0 {
                        self.level[i] = 0.0;
                        true
                    } else {
                        false
                    }
                }
                _ => false,
            };
            vm.envelope_step(i, reached);
        }
    }
}

#[test]
fn new_pool_is_silent() {
    let vm = VoiceManager::new();
    assert_eq!(vm.time(), 0);
    for i in 0..MAX_VOICES {
        assert_eq!(vm.voice(i), VoiceSlot { state: VoiceState::Off, note_id: 0, age: 0 });
    }
}

#[test]
fn envelope_attack_sustain_release() {
    let mut vm = VoiceManager::new();
    let mut env = Envelopes::new(1.0 / 220.0, 1.0 / 8820.0);

    assert_eq!(vm.voice(0).state, VoiceState::Off);

    assert_eq!(env.note_on(&mut vm, 60), Some(0));
    assert_eq!(vm.voice(0).state, VoiceState::Attack);

    //run through attack
    for _ in 0..250 {
        env.process(&mut vm);
    }
    assert_eq!(vm.voice(0).state, VoiceState::Sustain);
    assert!((env.level[0] - 1.0).abs() < f32::EPSILON);

    //sustain holds
    for _ in 0..1000 {
        env.process(&mut vm);
    }
    assert_eq!(vm.voice(0).state, VoiceState::Sustain);

    //release
    vm.note_off(60);
    assert_eq!(vm.voice(0).state, VoiceState::Release);

    for _ in 0..9000 {
        env.process(&mut vm);
    }
    assert_eq!(vm.voice(0).state, VoiceState::Off);
    assert!(env.level[0] == 0.0);
}

#[test]
fn voice_allocation_uses_free_voices_first() {
    let mut vm = VoiceManager::new();
    let mut env = Envelopes::at_sample_rate(TEST_SAMPLE_RATE);

    env.note_on(&mut vm, 60);
    env.note_on(&mut vm, 64);
    env.note_on(&mut vm, 67);

    //first three voices should be used, rest should be off
    for i in 0..3 {
        assert_ne!(vm.voice(i).state, VoiceState::Off);
    }
    for i in 3..MAX_VOICES {
        assert_eq!(vm.voice(i).state, VoiceState::Off);
    }
}

#[test]
fn voice_stealing_prefers_releasing_voices() {
    let mut vm = VoiceManager::new();
    let mut env = Envelopes::at_sample_rate(TEST_SAMPLE_RATE);

    //fill all voices
    for i in 0..MAX_VOICES {
        env.note_on(&mut vm, 40 + i as u8);
    }

    //release voice 0
    vm.note_off(40);
    assert_eq!(vm.voice(0).state, VoiceState::Release);

    //run a few samples so the releasing voice's envelope drops
    for _ in 0..100 {
        env.process(&mut vm);
    }

    //next note should steal the releasing voice (index 0)
    env.note_on(&mut vm, 80);
    assert_eq!(vm.voice(0).note_id, 80);
}

#[test]
fn voice_stealing_takes_oldest_when_none_releasing() {
    let mut vm = VoiceManager::new();
    let mut env = Envelopes::at_sample_rate(TEST_SAMPLE_RATE);

    //fill all voices; voice 0 gets the oldest timestamp
    for i in 0..MAX_VOICES {
        env.note_on(&mut vm, 40 + i as u8);
    }

    //all sustaining, none releasing — should steal voice 0 (oldest)
    //run samples so all voices reach sustain
    for _ in 0..300 {
        env.process(&mut vm);
    }

    env.note_on(&mut vm, 80);
    assert_eq!(vm.voice(0).note_id, 80);
}

#[test]
fn note_off_releases_correct_voice() {
    let mut vm = VoiceManager::new();
    let mut env = Envelopes::at_sample_rate(TEST_SAMPLE_RATE);

    env.note_on(&mut vm, 60);
    env.note_on(&mut vm, 64);
    env.note_on(&mut vm, 67);

    //run through attack
    for _ in 0..300 {
        env.process(&mut vm);
    }

    vm.note_off(64);

    //voice 0 (note 60) should still sustain
    assert_eq!(vm.voice(0).state, VoiceState::Sustain);
    //voice 1 (note 64) should be releasing
    assert_eq!(vm.voice(1).state, VoiceState::Release);
    //voice 2 (note 67) should still sustain
    assert_eq!(vm.voice(2).state, VoiceState::Sustain);
}

#[test]
fn invalid_note_ignored() {
    let mut vm = VoiceManager::new();
    let loud = vec![0u32; MAX_VOICES];

    assert_eq!(vm.note_on(128, &loud), None);
    assert_eq!(vm.note_on(255, &loud), None);

    //no voices should have been allocated
    for i in 0..MAX_VOICES {
        assert_eq!(vm.voice(i).state, VoiceState::Off);
    }
    assert_eq!(vm.time(), 0);
}

#[test]
fn quietest_releasing_voice_is_stolen() {
    let mut vm = VoiceManager::new();
    let mut loud = vec![0u32; MAX_VOICES];
    for i in 0..MAX_VOICES {
        vm.note_on(40 + i as u8, &loud);
    }
    vm.note_off(45);
    vm.note_off(50);
    vm.note_off(55);
    loud[5] = 0.5f32.to_bits();
    loud[10] = 0.25f32.to_bits();
    loud[15] = 0.25f32.to_bits();
    // the lower envelope wins; of equal ones, the first
    assert_eq!(vm.note_on(90, &loud), Some(10));
    assert_eq!(vm.voice(10), VoiceSlot { state: VoiceState::Attack, note_id: 90, age: 33 });
}

#[test]
fn oldest_voice_is_stolen_when_all_sound() {
    let mut vm = VoiceManager::new();
    let loud = vec![0u32; MAX_VOICES];
    for i in 0..MAX_VOICES {
        vm.note_on(40 + i as u8, &loud);
    }
    assert_eq!(vm.note_on(90, &loud), Some(0));
    assert_eq!(vm.note_on(91, &loud), Some(1));
    assert_eq!(vm.voice(0).age, 33);
    assert_eq!(vm.voice(1).age, 34);
    assert_eq!(vm.time(), 34);
}

#[test]
fn note_off_releases_every_voice_of_the_note() {
    let mut vm = VoiceManager::new();
    let loud = vec![0u32; MAX_VOICES];
    vm.note_on(60, &loud);
    vm.note_on(62, &loud);
    vm.note_on(60, &loud);
    vm.note_off(60);
    assert_eq!(vm.voice(0).state, VoiceState::Release);
    assert_eq!(vm.voice(1).state, VoiceState::Attack);
    assert_eq!(vm.voice(2).state, VoiceState::Release);
    // a note that no voice plays changes nothing
    vm.note_off(61);
    assert_eq!(vm.voice(1).state, VoiceState::Attack);
    // an off voice stays off
    vm.note_off(0);
    assert_eq!(vm.voice(3).state, VoiceState::Off);
}

#[test]
fn envelope_step_moves_stages() {
    let mut vm = VoiceManager::new();
    let loud = vec![0u32; MAX_VOICES];
    vm.note_on(60, &loud);
    vm.envelope_step(0, false);
    assert_eq!(vm.voice(0).state, VoiceState::Attack);
    vm.envelope_step(0, true);
    assert_eq!(vm.voice(0).state, VoiceState::Sustain);
    vm.envelope_step(0, true);
    assert_eq!(vm.voice(0).state, VoiceState::Sustain);
    vm.note_off(60);
    vm.envelope_step(0, false);
    assert_eq!(vm.voice(0).state, VoiceState::Release);
    vm.envelope_step(0, true);
    assert_eq!(vm.voice(0).state, VoiceState::Off);
    vm.envelope_step(0, true);
    assert_eq!(vm.voice(0).state, VoiceState::Off);
    assert_eq!(vm.voice(0).note_id, 60);
}

#[test]
fn handle_applies_key_events() {
    let mut vm = VoiceManager::new();
    let loud = vec![0u32; MAX_VOICES];
    assert_eq!(vm.handle(KeyEvent::Down(64), &loud), Some(0));
    assert_eq!(vm.handle(KeyEvent::Down(67), &loud), Some(1));
    assert_eq!(vm.handle(KeyEvent::Up(64), &loud), None);
    assert_eq!(vm.voice(0).state, VoiceState::Release);
    assert_eq!(vm.voice(1).state, VoiceState::Attack);
    assert_eq!(vm.handle(KeyEvent::Down(200), &loud), None);
    assert_eq!(vm.time(), 2);
}
