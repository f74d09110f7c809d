use instrument::mode::{Dynamic, Mono, MonoKind, Poly};
use instrument::note_freq::{DynamicGenerator, FreqOut, Pitch};
use instrument::voice::{NoteState, Voice};

fn exact(hz: u64, cents: i64) -> Pitch {
    let hz = (hz as i64 + cents) as u64;
    Pitch { hz, mel: (hz / 10) as u32 }
}

fn voices(n: usize) -> Vec<Voice> {
    (0..n).map(|_| Voice::new()).collect()
}

fn sounding(v: &Voice) -> Option<(u64, NoteState)> {
    v.note.map(|n| (n.hz, n.state))
}

const GEN: DynamicGenerator = DynamicGenerator::Constant;

#[test]
fn mono_retrigger_stacks_and_falls_back() {
    let mut mode = Mono::retrigger();
    let mut vs = voices(2);
    mode.note_on(440_000, 1_000, 0, &GEN, &mut vs, &exact);
    for v in vs.iter_mut() {
        v.playhead = 5;
    }
    mode.note_on(550_000, 1_000, 0, &GEN, &mut vs, &exact);
    assert_eq!(mode.1, vec![440_000]);
    for v in &vs {
        assert_eq!(sounding(v), Some((550_000, NoteState::Playing)));
        assert_eq!(v.playhead, 0);
    }
    for v in vs.iter_mut() {
        v.playhead = 9;
    }
    mode.note_off(550_000, 0, &GEN, &mut vs, &exact);
    assert!(mode.1.is_empty());
    for v in &vs {
        assert_eq!(sounding(v), Some((440_000, NoteState::Playing)));
        assert_eq!(v.playhead, 0);
        assert_eq!(v.note.unwrap().vel, 1_000);
    }
}

#[test]
fn mono_legato_keeps_playheads() {
    let mut mode = Mono::legato();
    let mut vs = voices(2);
    mode.note_on(440_000, 1_000, 0, &GEN, &mut vs, &exact);
    for v in vs.iter_mut() {
        v.playhead = 5;
    }
    mode.note_on(550_000, 1_000, 0, &GEN, &mut vs, &exact);
    assert_eq!(mode.1, vec![440_000]);
    for v in &vs {
        assert_eq!(sounding(v), Some((550_000, NoteState::Playing)));
        assert_eq!(v.playhead, 5);
    }
    mode.note_off(550_000, 0, &GEN, &mut vs, &exact);
    assert!(mode.1.is_empty());
    for v in &vs {
        assert_eq!(sounding(v), Some((440_000, NoteState::Playing)));
        assert_eq!(v.playhead, 5);
    }
}

#[test]
fn mono_note_off_of_other_pitch_drops_stack_entries() {
    let mut mode = Mono(MonoKind::Retrigger, vec![300_000, 440_100, 500_000, 439_800]);
    let mut vs = voices(1);
    vs[0].note_on(550_000, exact(550_000, 0).into_constant(), 7);
    let before = vs.clone();
    mode.note_off(440_000, 0, &GEN, &mut vs, &exact);
    assert_eq!(vs, before);
    assert_eq!(mode.1, vec![300_000, 500_000]);
    // Exactly 0.25 Hz away is another note.
    let mut mode = Mono(MonoKind::Retrigger, vec![440_250]);
    mode.note_off(440_000, 0, &GEN, &mut vs, &exact);
    assert_eq!(mode.1, vec![440_250]);
}

#[test]
fn mono_note_off_of_last_note_releases() {
    let mut mode = Mono::retrigger();
    let mut vs = voices(3);
    mode.note_on(440_000, 1_000, 0, &GEN, &mut vs, &exact);
    mode.note_off(440_200, 0, &GEN, &mut vs, &exact);
    for v in &vs {
        assert_eq!(sounding(v), Some((440_000, NoteState::Released(0))));
    }
}

#[test]
fn mono_repeated_note_is_not_stacked_twice() {
    let mut mode = Mono::retrigger();
    let mut vs = voices(1);
    mode.note_on(440_000, 1_000, 0, &GEN, &mut vs, &exact);
    mode.note_on(440_000, 1_000, 0, &GEN, &mut vs, &exact);
    assert!(mode.1.is_empty());
    assert_eq!(sounding(&vs[0]), Some((440_000, NoteState::Playing)));
}

#[test]
fn mono_fresh_start_clears_stack() {
    let mut mode = Mono(MonoKind::Legato, vec![100_000]);
    let mut vs = voices(1);
    vs[0].playhead = 4;
    mode.note_on(440_000, 1_000, 0, &GEN, &mut vs, &exact);
    assert!(mode.1.is_empty());
    assert_eq!(vs[0].playhead, 0);
    mode.stop();
    assert!(mode.1.is_empty());
}

#[test]
fn poly_takes_first_free_voice() {
    let mut vs = voices(3);
    vs[0].note_on(100_000, exact(100_000, 0).into_constant(), 1);
    vs[0].playhead = 10;
    vs[2].playhead = 99;
    Poly.note_on(200_000, 5, 0, &GEN, &mut vs, &exact);
    assert_eq!(sounding(&vs[1]), Some((200_000, NoteState::Playing)));
    assert_eq!(vs[1].playhead, 0);
    assert_eq!(sounding(&vs[0]), Some((100_000, NoteState::Playing)));
    assert_eq!(vs[2].note, None);
}

#[test]
fn poly_steals_voice_with_largest_playhead() {
    let mut vs = voices(3);
    for (i, ph) in [4u64, 9, 9].iter().enumerate() {
        let hz = 100_000 * (i as u64 + 1);
        vs[i].note_on(hz, exact(hz, 0).into_constant(), 1);
        vs[i].playhead = *ph;
    }
    Poly.note_on(700_000, 5, 0, &GEN, &mut vs, &exact);
    assert_eq!(sounding(&vs[2]), Some((700_000, NoteState::Playing)));
    assert_eq!(vs[2].playhead, 0);
    assert_eq!(sounding(&vs[1]), Some((200_000, NoteState::Playing)));
    assert_eq!(sounding(&vs[0]), Some((100_000, NoteState::Playing)));
}

#[test]
fn poly_glides_from_newest_voice() {
    let mut vs = voices(3);
    vs[0].note_on(100_000, exact(100_000, 0).into_constant(), 1);
    vs[0].playhead = 8;
    vs[1].note_on(200_000, exact(200_000, 0).into_constant(), 1);
    vs[1].playhead = 3;
    Poly.note_on(400_000, 5, 0, &DynamicGenerator::portamento(10), &mut vs, &exact);
    assert_eq!(vs[2].note.unwrap().freq.hz(), FreqOut::Mel(20_000));
}

#[test]
fn poly_releases_matching_voice_with_largest_playhead() {
    let mut vs = voices(3);
    for (i, ph) in [5u64, 7, 2].iter().enumerate() {
        vs[i].note_on(440_000, exact(440_000, 0).into_constant(), 1);
        vs[i].playhead = *ph;
    }
    vs[1].note_off();
    Poly.note_off(440_100, &mut vs);
    assert_eq!(vs[1].note.unwrap().state, NoteState::Released(0));
    assert_eq!(vs[0].note.unwrap().state, NoteState::Playing);
    assert_eq!(vs[2].note.unwrap().state, NoteState::Playing);
    let before = vs.clone();
    Poly.note_off(500_000, &mut vs);
    assert_eq!(vs, before);
}

#[test]
fn dynamic_mode_dispatches() {
    let mut mode = Dynamic::legato();
    let mut vs = voices(2);
    mode.note_on(440_000, 1, 0, &GEN, &mut vs, &exact);
    assert_eq!(sounding(&vs[1]), Some((440_000, NoteState::Playing)));
    let mut mode = Dynamic::poly();
    let mut vs = voices(2);
    mode.note_on(440_000, 1, 0, &GEN, &mut vs, &exact);
    assert_eq!(vs[1].note, None);
    mode.note_off(440_000, 0, &GEN, &mut vs, &exact);
    assert_eq!(vs[0].note.unwrap().state, NoteState::Released(0));
    let mut mode = Dynamic::retrigger();
    mode.note_on(440_000, 1, 0, &GEN, &mut vs, &exact);
    mode.note_on(550_000, 1, 0, &GEN, &mut vs, &exact);
    mode.stop();
    assert_eq!(mode, Dynamic::Mono(Mono(MonoKind::Retrigger, vec![])));
}

trait IntoConstant {
    fn into_constant(self) -> instrument::note_freq::Dynamic;
}

impl IntoConstant for Pitch {
    fn into_constant(self) -> instrument::note_freq::Dynamic {
        instrument::note_freq::Dynamic::Constant(self)
    }
}
