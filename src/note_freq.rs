use vstd::prelude::*;
use crate::unit::{Mel, NoteHz};
use crate::voice::{NoteState, Voice};

verus! {

/// A pitch given both as a frequency and as a point on the mel scale.
#[derive(Clone, Copy, Debug, PartialEq, Eq, Structural)]
pub struct Pitch {
    pub hz: NoteHz,
    pub mel: Mel,
}

/// What a pitch trajectory sounds at one frame: an exact frequency, or a point on
/// the mel scale met while gliding between two pitches.
#[derive(Clone, Copy, Debug, PartialEq, Eq, Structural)]
pub enum FreqOut {
    Hz(NoteHz),
    Mel(Mel),
}

/// A generator of gliding trajectories that take the given number of frames to
/// reach their target.
#[derive(Clone, Copy, Debug, PartialEq, Eq, Structural)]
pub struct Portamento(pub u64);

/// A trajectory that moves linearly in mel from a start to a target pitch over a
/// fixed number of frames.
#[derive(Clone, Copy, Debug, PartialEq, Eq, Structural)]
pub struct PortamentoFreq {
    pub current_sample: u64,
    pub target_samples: u64,
    pub start_mel: Mel,
    pub target: Pitch,
}

/// A generator chosen at run time.
#[derive(Clone, Copy, Debug, PartialEq, Eq, Structural)]
pub enum DynamicGenerator {
    Portamento(Portamento),
    Constant,
}

/// A trajectory chosen at run time: a glide, or a constant pitch.
#[derive(Clone, Copy, Debug, PartialEq, Eq, Structural)]
pub enum Dynamic {
    Portamento(PortamentoFreq),
    Constant(Pitch),
}

/// The point `current` frames of `total` along the straight line from `start` to
/// `target` in mel, rounded towards `start`.
pub open spec fn interp_mel(start: Mel, target: Mel, current: u64, total: u64) -> int {
    let (s, t, c, n) = (start as int, target as int, current as int, total as int);
    if s <= t {
        s + (t - s) * c / n
    } else {
        s - (s - t) * c / n
    }
}

proof fn lemma_interp_bounds(start: Mel, target: Mel, current: u64, total: u64)
    requires
        current < total,
    ensures
        start <= target ==> start <= interp_mel(start, target, current, total) <= target,
        target < start ==> target <= interp_mel(start, target, current, total) <= start,
{
    let d: int = if start <= target { target - start } else { start - target };
    let (c, n) = (current as int, total as int);
    assert(d * c <= d * n) by (nonlinear_arith)
        requires
            d >= 0,
            0 <= c < n,
    ;
    assert(0 <= d * c) by (nonlinear_arith)
        requires
            d >= 0,
            0 <= c,
    ;
    vstd::arithmetic::div_mod::lemma_div_is_ordered(d * c, d * n, n);
    vstd::arithmetic::div_mod::lemma_div_multiples_vanish(d, n);
    vstd::arithmetic::div_mod::lemma_div_pos_is_pos(d * c, n);
}

impl PortamentoFreq {
    /// The mel value at the current frame.
    pub open spec fn spec_mel(self) -> Mel {
        if self.current_sample < self.target_samples {
            interp_mel(self.start_mel, self.target.mel, self.current_sample, self.target_samples) as Mel
        } else {
            self.target.mel
        }
    }

    /// What is sounded at the current frame: the interpolated mel while gliding,
    /// the target frequency once the glide is over.
    pub open spec fn spec_hz(self) -> FreqOut {
        if self.current_sample < self.target_samples {
            FreqOut::Mel(self.spec_mel())
        } else {
            FreqOut::Hz(self.target.hz)
        }
    }

    /// The trajectory one frame later.
    pub open spec fn spec_advance(self) -> PortamentoFreq {
        if self.current_sample < self.target_samples {
            PortamentoFreq { current_sample: (self.current_sample + 1) as u64, ..self }
        } else {
            self
        }
    }

    /// The mel value at the current frame.
    pub fn mel(&self) -> (r: Mel)
        ensures
            r == self.spec_mel(),
    {
        if self.current_sample < self.target_samples {
            proof {
                lemma_interp_bounds(self.start_mel, self.target.mel, self.current_sample, self.target_samples);
            }
            let cur = self.current_sample as u128;
            let total = self.target_samples as u128;
            if self.start_mel <= self.target.mel {
                let diff = (self.target.mel - self.start_mel) as u128;
                assert(diff * cur <= 0xffff_ffffu128 * 0xffff_ffff_ffff_ffffu128) by (nonlinear_arith)
                    requires
                        diff <= 0xffff_ffffu128,
                        cur <= 0xffff_ffff_ffff_ffffu128,
                ;
                let step = (diff * cur / total) as u32;
                self.start_mel + step
            } else {
                let diff = (self.start_mel - self.target.mel) as u128;
                assert(diff * cur <= 0xffff_ffffu128 * 0xffff_ffff_ffff_ffffu128) by (nonlinear_arith)
                    requires
                        diff <= 0xffff_ffffu128,
                        cur <= 0xffff_ffff_ffff_ffffu128,
                ;
                let step = (diff * cur / total) as u32;
                self.start_mel - step
            }
        } else {
            self.target.mel
        }
    }

    /// What is sounded at the current frame.
    pub fn hz(&self) -> (r: FreqOut)
        ensures
            r == self.spec_hz(),
    {
        if self.current_sample < self.target_samples {
            FreqOut::Mel(self.mel())
        } else {
            FreqOut::Hz(self.target.hz)
        }
    }

    /// Returns what is sounded at the current frame, then steps one frame on.
    pub fn next_hz(&mut self) -> (r: FreqOut)
        ensures
            r == old(self).spec_hz(),
            *final(self) == old(self).spec_advance(),
    {
        let r = self.hz();
        if self.current_sample < self.target_samples {
            self.current_sample = self.current_sample + 1;
        }
        r
    }
}

impl Dynamic {
    /// The mel value at the current frame.
    pub open spec fn spec_mel(self) -> Mel {
        match self {
            Dynamic::Portamento(p) => p.spec_mel(),
            Dynamic::Constant(p) => p.mel,
        }
    }

    /// What is sounded at the current frame.
    pub open spec fn spec_hz(self) -> FreqOut {
        match self {
            Dynamic::Portamento(p) => p.spec_hz(),
            Dynamic::Constant(p) => FreqOut::Hz(p.hz),
        }
    }

    /// The trajectory one frame later; a constant pitch stays as it is.
    pub open spec fn spec_advance(self) -> Dynamic {
        match self {
            Dynamic::Portamento(p) => Dynamic::Portamento(p.spec_advance()),
            Dynamic::Constant(p) => Dynamic::Constant(p),
        }
    }

    /// The mel value at the current frame.
    pub fn mel(&self) -> (r: Mel)
        ensures
            r == self.spec_mel(),
    {
        match self {
            Dynamic::Portamento(p) => p.mel(),
            Dynamic::Constant(p) => p.mel,
        }
    }

    /// What is sounded at the current frame.
    pub fn hz(&self) -> (r: FreqOut)
        ensures
            r == self.spec_hz(),
    {
        match self {
            Dynamic::Portamento(p) => p.hz(),
            Dynamic::Constant(p) => FreqOut::Hz(p.hz),
        }
    }

    /// Returns what is sounded at the current frame, then steps one frame on.
    pub fn next_hz(&mut self) -> (r: FreqOut)
        ensures
            r == old(self).spec_hz(),
            *final(self) == old(self).spec_advance(),
    {
        match self {
            Dynamic::Portamento(p) => {
                let mut q = *p;
                let r = q.next_hz();
                *self = Dynamic::Portamento(q);
                r
            },
            Dynamic::Constant(p) => FreqOut::Hz(p.hz),
        }
    }
}

/// Relies on rand::random: a `u64` drawn from the thread-local generator, of
/// which nothing is known.
#[verifier::external_body]
fn random_u64() -> (r: u64) {
    rand::random::<u64>()
}

/// The offset in cents that a draw `k` gives for a detune of `detune` cents:
/// `k` taken modulo `2 * detune + 1`, less `detune`.
pub open spec fn spec_offset_from_draw(k: u64, detune: u32) -> int {
    (k % (2 * detune as u64 + 1) as u64) as int - detune as int
}

/// The offset in cents that the draw `k` gives for a detune of `detune` cents.
pub fn offset_from_draw(k: u64, detune: u32) -> (r: i64)
    requires
        detune > 0,
    ensures
        r == spec_offset_from_draw(k, detune),
        -(detune as int) <= r <= detune as int,
{
    let span: u64 = 2 * (detune as u64) + 1;
    let m = k % span;
    m as i64 - detune as i64
}

/// A random detune offset in cents, within `[-detune, detune]`, made from one
/// draw by `offset_from_draw`; zero, with no draw, when `detune` is zero.
pub fn detune_offset(detune: u32) -> (r: i64)
    ensures
        -(detune as int) <= r <= detune as int,
        detune == 0 ==> r == 0,
        detune > 0 ==> exists|k: u64| r == spec_offset_from_draw(k, detune),
{
    if detune == 0 {
        0
    } else {
        let k = random_u64();
        offset_from_draw(k, detune)
    }
}

/// `tuning` can be asked for any frequency and offset.
pub open spec fn can_tune<F: Fn(NoteHz, i64) -> Pitch>(tuning: F) -> bool {
    forall|hz: NoteHz, cents: i64| call_requires(tuning, (hz, cents))
}

/// The pitch of `note_hz` moved by `cents`, where `q` is what `tuning` gave for
/// that: an offset of zero keeps `note_hz` itself and takes only the mel value.
pub open spec fn tuned_pitch(note_hz: NoteHz, cents: i64, q: Pitch) -> Pitch {
    if cents == 0 {
        Pitch { hz: note_hz, mel: q.mel }
    } else {
        q
    }
}

/// `p` is the pitch of `note_hz` moved by some offset within
/// `[-detune, detune]` cents, as `tuning` converts it (see `tuned_pitch`).
pub open spec fn is_tuned<F: Fn(NoteHz, i64) -> Pitch>(tuning: F, note_hz: NoteHz, detune: u32, p: Pitch) -> bool {
    exists|cents: i64, q: Pitch|
        -(detune as int) <= cents <= detune as int && call_ensures(tuning, (note_hz, cents), q) && p
            == tuned_pitch(note_hz, cents, q)
}

/// The pitch of `note_hz` moved by `cents` cents, as `tuning` converts it; an
/// offset of zero keeps `note_hz` itself.
pub fn tune_by<F: Fn(NoteHz, i64) -> Pitch>(note_hz: NoteHz, cents: i64, tuning: &F) -> (r: Pitch)
    requires
        can_tune(*tuning),
    ensures
        exists|q: Pitch| call_ensures(*tuning, (note_hz, cents), q) && r == tuned_pitch(note_hz, cents, q),
        cents == 0 ==> r.hz == note_hz,
{
    let q = tuning(note_hz, cents);
    let r = if cents == 0 {
        Pitch { hz: note_hz, mel: q.mel }
    } else {
        q
    };
    assert(call_ensures(*tuning, (note_hz, cents), q) && r == tuned_pitch(note_hz, cents, q));
    r
}

/// The pitch of a constant note: `note_hz` moved by a random offset within
/// `[-detune, detune]` cents, as `tuning` converts it; `note_hz` itself when
/// `detune` is zero.
pub fn generate_constant_freq<F: Fn(NoteHz, i64) -> Pitch>(note_hz: NoteHz, detune: u32, tuning: &F) -> (r: Pitch)
    requires
        can_tune(*tuning),
    ensures
        is_tuned(*tuning, note_hz, detune, r),
        detune == 0 ==> r.hz == note_hz,
{
    let cents = detune_offset(detune);
    tune_by(note_hz, cents, tuning)
}

/// The mel value a glide starts from when `voice` is its reference: the
/// current pitch of a held note; none otherwise.
pub open spec fn glide_start(voice: Option<Voice>) -> Option<Mel> {
    match voice {
        Some(v) => if v.is_playing() {
            Some(v.note.unwrap().freq.spec_mel())
        } else {
            None
        },
        None => None,
    }
}

/// A glide of `samples` frames to `target`, starting from `start` if given,
/// else from the target itself.
pub open spec fn portamento_from(samples: u64, start: Option<Mel>, target: Pitch) -> PortamentoFreq {
    PortamentoFreq {
        current_sample: 0,
        target_samples: samples,
        start_mel: match start {
            Some(m) => m,
            None => target.mel,
        },
        target,
    }
}

/// A glide of `samples` frames from `maybe_last_mel`, if given, to a detuned
/// `note_hz`.
pub fn generate_portamento_freq<F: Fn(NoteHz, i64) -> Pitch>(
    samples: u64,
    note_hz: NoteHz,
    detune: u32,
    maybe_last_mel: Option<Mel>,
    tuning: &F,
) -> (r: PortamentoFreq)
    requires
        can_tune(*tuning),
    ensures
        is_tuned(*tuning, note_hz, detune, r.target),
        detune == 0 ==> r.target.hz == note_hz,
        r == portamento_from(samples, maybe_last_mel, r.target),
{
    let target = generate_constant_freq(note_hz, detune, tuning);
    let start_mel = match maybe_last_mel {
        Some(m) => m,
        None => target.mel,
    };
    PortamentoFreq { current_sample: 0, target_samples: samples, start_mel, target }
}

/// The current mel value of `voice` if it holds a note that is not released.
pub fn playing_mel(voice: Option<Voice>) -> (r: Option<Mel>)
    ensures
        r == glide_start(voice),
{
    match voice {
        Some(v) => match v.note {
            Some(n) => match n.state {
                NoteState::Playing => Some(n.freq.mel()),
                NoteState::Released(_) => None,
            },
            None => None,
        },
        None => None,
    }
}

impl Portamento {
    /// A glide to a detuned `note_hz`, from the current pitch of `voice` if it
    /// holds a note that is not released.
    pub fn generate<F: Fn(NoteHz, i64) -> Pitch>(&self, note_hz: NoteHz, detune: u32, voice: Option<Voice>, tuning: &F) -> (r: PortamentoFreq)
        requires
            can_tune(*tuning),
        ensures
            is_tuned(*tuning, note_hz, detune, r.target),
            detune == 0 ==> r.target.hz == note_hz,
            r == portamento_from(self.0, glide_start(voice), r.target),
    {
        generate_portamento_freq(self.0, note_hz, detune, playing_mel(voice), tuning)
    }
}

impl Dynamic {
    /// The pitch the trajectory ends on.
    pub open spec fn spec_target(self) -> Pitch {
        match self {
            Dynamic::Portamento(p) => p.target,
            Dynamic::Constant(p) => p,
        }
    }
}

impl DynamicGenerator {
    /// A generator of glides of `samples` frames.
    pub fn portamento(samples: u64) -> (r: DynamicGenerator)
        ensures
            r == DynamicGenerator::Portamento(Portamento(samples)),
    {
        DynamicGenerator::Portamento(Portamento(samples))
    }

    /// The trajectory to `target` that this generator makes with `reference` as
    /// the voice to glide from.
    pub open spec fn spec_trajectory(self, reference: Option<Voice>, target: Pitch) -> Dynamic {
        match self {
            DynamicGenerator::Portamento(Portamento(n)) => Dynamic::Portamento(portamento_from(n, glide_start(reference), target)),
            DynamicGenerator::Constant => Dynamic::Constant(target),
        }
    }

    /// `freq` is a trajectory this generator may make for `note_hz`, `detune` and
    /// `reference`: its target is a detuned `note_hz`.
    pub open spec fn generates<F: Fn(NoteHz, i64) -> Pitch>(
        self,
        tuning: F,
        note_hz: NoteHz,
        detune: u32,
        reference: Option<Voice>,
        freq: Dynamic,
    ) -> bool {
        &&& is_tuned(tuning, note_hz, detune, freq.spec_target())
        &&& freq == self.spec_trajectory(reference, freq.spec_target())
    }

    /// A trajectory for `note_hz`: a constant detuned pitch, or a glide to it from
    /// the current pitch of `voice`.
    pub fn generate<F: Fn(NoteHz, i64) -> Pitch>(&self, note_hz: NoteHz, detune: u32, voice: Option<Voice>, tuning: &F) -> (r: Dynamic)
        requires
            can_tune(*tuning),
        ensures
            self.generates(*tuning, note_hz, detune, voice, r),
            detune == 0 ==> r.spec_target().hz == note_hz,
    {
        match self {
            DynamicGenerator::Portamento(p) => Dynamic::Portamento(p.generate(note_hz, detune, voice, tuning)),
            DynamicGenerator::Constant => Dynamic::Constant(generate_constant_freq(note_hz, detune, tuning)),
        }
    }
}

/// A glide that lasts frames sounds its start mel at its first frame; from frame
/// `target_samples` on it sounds its target frequency exactly; between, its mel
/// value moves monotonically from the start towards the target and stays
/// between the two.
pub proof fn portamento_trajectory(p: PortamentoFreq, c1: u64, c2: u64)
    requires
        c1 <= c2,
    ensures
        p.target_samples > 0 ==> (PortamentoFreq { current_sample: 0, ..p }).spec_hz() == FreqOut::Mel(p.start_mel),
        c1 >= p.target_samples ==> (PortamentoFreq { current_sample: c1, ..p }).spec_hz() == FreqOut::Hz(p.target.hz),
        p.start_mel <= p.target.mel ==> {
            &&& p.start_mel <= (PortamentoFreq { current_sample: c1, ..p }).spec_mel()
            &&& (PortamentoFreq { current_sample: c1, ..p }).spec_mel() <= (PortamentoFreq { current_sample: c2, ..p }).spec_mel()
            &&& (PortamentoFreq { current_sample: c2, ..p }).spec_mel() <= p.target.mel
        },
        p.target.mel < p.start_mel ==> {
            &&& p.start_mel >= (PortamentoFreq { current_sample: c1, ..p }).spec_mel()
            &&& (PortamentoFreq { current_sample: c1, ..p }).spec_mel() >= (PortamentoFreq { current_sample: c2, ..p }).spec_mel()
            &&& (PortamentoFreq { current_sample: c2, ..p }).spec_mel() >= p.target.mel
        },
{
    let n = p.target_samples;
    if p.target_samples > 0 {
        assert(interp_mel(p.start_mel, p.target.mel, 0, n) == p.start_mel as int) by {
            vstd::arithmetic::div_mod::lemma_div_basics_2(n as int);
        }
    }
    if c1 < n {
        lemma_interp_bounds(p.start_mel, p.target.mel, c1, n);
    }
    if c2 < n {
        lemma_interp_bounds(p.start_mel, p.target.mel, c2, n);
        let d: int = if p.start_mel <= p.target.mel { p.target.mel - p.start_mel } else { p.start_mel - p.target.mel };
        assert(d * c1 <= d * c2) by (nonlinear_arith)
            requires
                d >= 0,
                c1 <= c2,
        ;
        vstd::arithmetic::div_mod::lemma_div_is_ordered(d * c1, d * c2, n as int);
    }
}

} // verus!
