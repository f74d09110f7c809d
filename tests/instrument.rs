use instrument::instrument::samples_from_ms;
use instrument::mode::{self, MonoKind};
use instrument::note_freq::{Dynamic, DynamicGenerator, FreqOut, Pitch};
use instrument::voice::{Amp, Gain, NoteState, Voice};
use instrument::{ConfigError, Instrument};

fn exact(hz: u64, cents: i64) -> Pitch {
    let hz = (hz as i64 + cents) as u64;
    Pitch { hz, mel: (hz / 10) as u32 }
}

fn full() -> Amp {
    Amp { num: 1, den: 1 }
}

fn poly(n: usize) -> Instrument {
    Instrument::new(mode::Dynamic::poly(), DynamicGenerator::Constant).num_voices(n)
}

#[test]
fn new_instrument_has_one_silent_voice() {
    let inst = Instrument::new(mode::Dynamic::poly(), DynamicGenerator::Constant);
    assert_eq!(inst.voices, vec![Voice::new()]);
    assert_eq!(inst.detune, 0);
    assert_eq!(inst.attack_ms, 0);
    assert_eq!(inst.release_ms, 0);
    assert!(!inst.is_active());
}

#[test]
fn set_num_voices_resizes() {
    let mut inst = Instrument::new(mode::Dynamic::poly(), DynamicGenerator::Constant);
    inst.voices[0].playhead = 3;
    for n in [1usize, 4, 2, 7] {
        assert_eq!(inst.set_num_voices(n), Ok(()));
        assert_eq!(inst.voices.len(), n);
    }
    assert!(inst.voices.iter().all(|v| v.playhead == 3));
    assert_eq!(inst.set_num_voices(0), Err(ConfigError::NoVoices));
    assert_eq!(inst.voices.len(), 7);
}

#[test]
fn grown_voices_copy_the_last() {
    let mut inst = poly(2);
    inst.note_on(100_000, 9, &exact);
    inst.note_on(200_000, 9, &exact);
    inst.voices[1].playhead = 12;
    let inst = inst.num_voices(4);
    assert_eq!(inst.voices[2], inst.voices[1]);
    assert_eq!(inst.voices[3], inst.voices[1]);
    assert_ne!(inst.voices[0], inst.voices[1]);
    assert_eq!(inst.num_voices(0).voices.len(), 4);
}

#[test]
fn builders_set_fields() {
    let inst = poly(1).fade(10, 20).detune(30).note_freq_generator(DynamicGenerator::portamento(5), &exact);
    assert_eq!((inst.attack_ms, inst.release_ms, inst.detune), (10, 20, 30));
    assert_eq!(inst.note_freq_gen, DynamicGenerator::portamento(5));
    let inst = inst.attack(1).release(2);
    assert_eq!((inst.attack_ms, inst.release_ms), (1, 2));
}

#[test]
fn samples_from_ms_counts_whole_frames() {
    assert_eq!(samples_from_ms(10, 44_100), 441);
    assert_eq!(samples_from_ms(1, 44_100), 44);
    assert_eq!(samples_from_ms(0, 44_100), 0);
    assert_eq!(samples_from_ms(u64::MAX, u64::MAX), u64::MAX);
    let f = poly(1).fade(10, 20).frames(48_000);
    assert_eq!((f.attack, f.release), (480, 960));
}

fn frame(inst: &mut Instrument) -> Vec<Option<(Gain, FreqOut)>> {
    let mut walk = inst.frame_per_voice(44_100);
    let mut out = Vec::new();
    while let Some(v) = walk.next_voice_vel_hz(&mut inst.voices) {
        out.push(v);
    }
    out
}

fn playing(vel: u32, hz: u64) -> Option<(Gain, FreqOut)> {
    Some((Gain { vel, attack: full(), release: full() }, FreqOut::Hz(hz)))
}

#[test]
fn two_voice_poly_scenario() {
    let mut inst = poly(2);
    inst.note_on(100_000, 1_000_000, &exact);
    assert_eq!(frame(&mut inst), vec![playing(1_000_000, 100_000), None]);
    inst.note_on(200_000, 1_000_000, &exact);
    assert_eq!(frame(&mut inst), vec![playing(1_000_000, 100_000), playing(1_000_000, 200_000)]);
    // With no attack the playheads stay at zero, so the later voice is taken.
    inst.note_on(300_000, 1_000_000, &exact);
    assert_eq!(frame(&mut inst), vec![playing(1_000_000, 100_000), playing(1_000_000, 300_000)]);
}

#[test]
fn poly_steal_prefers_larger_playhead() {
    let mut inst = poly(2).attack(1);
    inst.note_on(100_000, 1_000_000, &exact);
    let _ = frame(&mut inst);
    inst.note_on(200_000, 1_000_000, &exact);
    assert_eq!(inst.voices[0].playhead, 1);
    assert_eq!(inst.voices[1].playhead, 0);
    inst.note_on(300_000, 1_000_000, &exact);
    assert_eq!(inst.voices[0].note.unwrap().hz, 300_000);
    assert_eq!(inst.voices[1].note.unwrap().hz, 200_000);
}

#[test]
fn release_frees_voices() {
    let mut inst = poly(2).fade(0, 1);
    inst.note_on(100_000, 10, &exact);
    inst.note_off(100_000, &exact);
    let f = inst.frames(2_000);
    assert_eq!(f.num_active_voices(&inst.voices), 1);
    let mut walk = f.next_frame_per_voice();
    let first = walk.next_voice_vel_hz(&mut inst.voices).unwrap().unwrap();
    assert_eq!(first.0.release, Amp { num: 2, den: 2 });
    assert_eq!(walk.next_voice_vel_hz(&mut inst.voices), Some(None));
    assert_eq!(walk.next_voice_vel_hz(&mut inst.voices), None);
    let mut walk = f.next_frame_per_voice();
    let second = walk.next_voice_vel_hz(&mut inst.voices).unwrap().unwrap();
    assert_eq!(second.0.release, Amp { num: 1, den: 2 });
    assert!(inst.is_active());
    let mut walk = f.next_frame_per_voice();
    assert_eq!(walk.next_voice_vel_hz(&mut inst.voices), Some(None));
    assert!(!inst.is_active());
    assert_eq!(f.num_active_voices(&inst.voices), 0);
}

#[test]
fn stop_twice_is_stop_once() {
    let mut inst = Instrument::new(mode::Dynamic::retrigger(), DynamicGenerator::Constant).num_voices(3);
    inst.note_on(440_000, 1, &exact);
    inst.note_on(550_000, 1, &exact);
    let _ = frame(&mut inst);
    inst.stop();
    let once = inst.clone();
    inst.stop();
    assert_eq!(inst, once);
    assert!(inst.voices.iter().all(|v| v.note.is_none() && v.playhead == 0));
    assert_eq!(inst.mode, mode::Dynamic::Mono(mode::Mono(MonoKind::Retrigger, vec![])));
    assert!(!inst.is_active());
}

#[test]
fn mono_instrument_falls_back_on_all_voices() {
    let mut inst = Instrument::new(mode::Dynamic::retrigger(), DynamicGenerator::Constant).num_voices(2);
    inst.note_on(440_000, 1, &exact);
    inst.note_on(550_000, 1, &exact);
    inst.note_off(550_000, &exact);
    for v in &inst.voices {
        assert_eq!(v.note.map(|n| (n.hz, n.state)), Some((440_000, NoteState::Playing)));
    }
}

#[test]
fn new_generator_rederives_sounding_notes() {
    let mut inst = poly(3);
    inst.note_on(100_000, 1, &exact);
    inst.note_on(200_000, 1, &exact);
    inst.voices[1].note_off();
    inst.voices[0].playhead = 6;
    let before = inst.clone();
    let inst = inst.note_freq_generator(DynamicGenerator::portamento(8), &exact);
    assert_eq!(inst.note_freq_gen, DynamicGenerator::portamento(8));
    assert_eq!(inst.voices[2], before.voices[2]);
    for i in 0..2 {
        let (a, b) = (before.voices[i].note.unwrap(), inst.voices[i].note.unwrap());
        assert_eq!((a.hz, a.vel, a.state), (b.hz, b.vel, b.state));
        assert_eq!(inst.voices[i].playhead, before.voices[i].playhead);
        assert!(matches!(b.freq, Dynamic::Portamento(_)));
        if let Dynamic::Portamento(p) = b.freq {
            assert_eq!(p.target.hz, a.hz);
        }
    }
    // The held note glides from its own pitch; the released one starts on target.
    assert_eq!(inst.voices[0].note.unwrap().freq.hz(), FreqOut::Mel(10_000));
    assert_eq!(inst.voices[1].note.unwrap().freq.hz(), FreqOut::Mel(20_000));
    let back = inst.note_freq_generator(DynamicGenerator::Constant, &exact);
    assert_eq!(back.voices[0].note.unwrap().freq, Dynamic::Constant(exact(100_000, 0)));
}

#[test]
fn poly_note_on_adds_one_active_voice_until_full() {
    let mut inst = poly(2);
    let f = inst.frames(44_100);
    assert_eq!(f.num_active_voices(&inst.voices), 0);
    inst.note_on(100_000, 1, &exact);
    assert_eq!(f.num_active_voices(&inst.voices), 1);
    inst.note_on(200_000, 1, &exact);
    assert_eq!(f.num_active_voices(&inst.voices), 2);
    inst.note_on(300_000, 1, &exact);
    assert_eq!(f.num_active_voices(&inst.voices), 2);
}
