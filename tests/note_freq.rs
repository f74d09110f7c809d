use instrument::note_freq::{
    detune_offset, generate_constant_freq, offset_from_draw, tune_by, generate_portamento_freq, Dynamic, DynamicGenerator, FreqOut, Pitch,
    Portamento, PortamentoFreq,
};
use instrument::voice::{Note, NoteState, Voice};

fn linear(hz: u64, cents: i64) -> Pitch {
    let hz = (hz as i64 + cents) as u64;
    Pitch { hz, mel: (hz / 10) as u32 }
}

fn glide(current_sample: u64, target_samples: u64, start_mel: u32, target_mel: u32) -> PortamentoFreq {
    PortamentoFreq { current_sample, target_samples, start_mel, target: Pitch { hz: 999, mel: target_mel } }
}

#[test]
fn glide_starts_at_start_and_ends_on_target() {
    let p = glide(0, 4, 1_000, 2_000);
    assert_eq!(p.hz(), FreqOut::Mel(1_000));
    assert_eq!(glide(4, 4, 1_000, 2_000).hz(), FreqOut::Hz(999));
    assert_eq!(glide(9, 4, 1_000, 2_000).hz(), FreqOut::Hz(999));
    assert_eq!(glide(9, 4, 1_000, 2_000).mel(), 2_000);
}

#[test]
fn glide_is_monotonic_upwards() {
    let mut p = glide(0, 4, 1_000, 2_000);
    let mut seen = Vec::new();
    for _ in 0..6 {
        seen.push(p.next_hz());
    }
    assert_eq!(
        seen,
        vec![
            FreqOut::Mel(1_000),
            FreqOut::Mel(1_250),
            FreqOut::Mel(1_500),
            FreqOut::Mel(1_750),
            FreqOut::Hz(999),
            FreqOut::Hz(999)
        ]
    );
    assert_eq!(p.current_sample, 4);
}

#[test]
fn glide_is_monotonic_downwards() {
    let values: Vec<u32> = (0..3).map(|c| glide(c, 3, 3_000, 0).mel()).collect();
    assert_eq!(values, vec![3_000, 2_000, 1_000]);
}

#[test]
fn zero_length_glide_is_at_target() {
    assert_eq!(glide(0, 0, 1_000, 2_000).hz(), FreqOut::Hz(999));
}

#[test]
fn constant_trajectory_does_not_move() {
    let mut d = Dynamic::Constant(Pitch { hz: 440_000, mel: 549_640 });
    assert_eq!(d.next_hz(), FreqOut::Hz(440_000));
    assert_eq!(d.next_hz(), FreqOut::Hz(440_000));
    assert_eq!(d.mel(), 549_640);
}

#[test]
fn detune_stays_in_range() {
    assert_eq!(detune_offset(0), 0);
    for _ in 0..200 {
        let c = detune_offset(30);
        assert!((-30..=30).contains(&c));
    }
}

#[test]
fn constant_freq_applies_detune() {
    assert_eq!(generate_constant_freq(440_000, 0, &linear), Pitch { hz: 440_000, mel: 44_000 });
    for _ in 0..50 {
        let p = generate_constant_freq(440_000, 20, &linear);
        assert!(p.hz >= 439_980 && p.hz <= 440_020);
    }
}

#[test]
fn portamento_freq_glides_from_last_mel() {
    let p = generate_portamento_freq(100, 440_000, 0, Some(10_000), &linear);
    assert_eq!(p, PortamentoFreq { current_sample: 0, target_samples: 100, start_mel: 10_000, target: Pitch { hz: 440_000, mel: 44_000 } });
    let q = generate_portamento_freq(100, 440_000, 0, None, &linear);
    assert_eq!(q.start_mel, 44_000);
}

#[test]
fn portamento_glides_only_from_held_note() {
    let held = Voice {
        note: Some(Note { state: NoteState::Playing, freq: Dynamic::Constant(Pitch { hz: 220_000, mel: 22_000 }), hz: 220_000, vel: 1 }),
        playhead: 0,
    };
    let p = Portamento(50).generate(440_000, 0, Some(held), &linear);
    assert_eq!(p.start_mel, 22_000);
    let mut released = held;
    released.note_off();
    let q = Portamento(50).generate(440_000, 0, Some(released), &linear);
    assert_eq!(q.start_mel, 44_000);
}

#[test]
fn dynamic_generator_picks_variant() {
    assert_eq!(DynamicGenerator::portamento(12), DynamicGenerator::Portamento(Portamento(12)));
    let c = DynamicGenerator::Constant.generate(440_000, 0, None, &linear);
    assert_eq!(c, Dynamic::Constant(Pitch { hz: 440_000, mel: 44_000 }));
    let p = DynamicGenerator::portamento(12).generate(440_000, 0, None, &linear);
    assert_eq!(p.hz(), FreqOut::Mel(44_000));
}

#[test]
fn offset_from_draw_maps_draw_into_range() {
    assert_eq!(offset_from_draw(0, 30), -30);
    assert_eq!(offset_from_draw(30, 30), 0);
    assert_eq!(offset_from_draw(60, 30), 30);
    assert_eq!(offset_from_draw(61, 30), -30);
    assert_eq!(offset_from_draw(u64::MAX, 1), -1);
}

fn shifted(hz: u64, cents: i64) -> Pitch {
    Pitch { hz: hz + 7 + cents as u64, mel: 123 }
}

#[test]
fn zero_offset_keeps_note_hz() {
    assert_eq!(tune_by(440_000, 0, &shifted), Pitch { hz: 440_000, mel: 123 });
    assert_eq!(tune_by(440_000, 5, &shifted), Pitch { hz: 440_012, mel: 123 });
    assert_eq!(generate_constant_freq(440_000, 0, &shifted), Pitch { hz: 440_000, mel: 123 });
}
