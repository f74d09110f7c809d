use vstd::prelude::*;
use crate::mode;
use crate::note_freq::{can_tune, DynamicGenerator, FreqOut, Pitch};
use crate::unit::{NoteHz, NoteVelocity};
use crate::voice::{count_active, Gain, Note, Voice};

verus! {

/// Milliseconds in a second.
pub const SECOND_IN_MS: u64 = 1000;

/// The whole number of frames in `ms` milliseconds at `sample_hz` frames per
/// second, or `u64::MAX` where that does not fit.
pub open spec fn spec_samples_from_ms(ms: u64, sample_hz: u64) -> u64 {
    let s = ms as int * sample_hz as int / SECOND_IN_MS as int;
    if s <= u64::MAX as int {
        s as u64
    } else {
        u64::MAX
    }
}

/// The whole number of frames in `ms` milliseconds at `sample_hz` frames per second.
pub fn samples_from_ms(ms: u64, sample_hz: u64) -> (r: u64)
    ensures
        r == spec_samples_from_ms(ms, sample_hz),
{
    assert(ms as int * sample_hz as int <= u64::MAX as int * u64::MAX as int) by (nonlinear_arith)
        requires
            0 <= ms <= u64::MAX,
            0 <= sample_hz <= u64::MAX,
    ;
    let prod = (ms as u128) * (sample_hz as u128);
    let s = prod / (SECOND_IN_MS as u128);
    if s <= u64::MAX as u128 {
        s as u64
    } else {
        u64::MAX
    }
}

/// The error of a request the instrument cannot carry out.
#[derive(Clone, Copy, Debug, PartialEq, Eq, Structural)]
pub enum ConfigError {
    /// An instrument needs at least one voice.
    NoVoices,
}

/// A performable instrument: turns note-on and note-off events into a gain and a
/// pitch per voice and frame.
#[derive(Clone, Debug, PartialEq)]
pub struct Instrument {
    /// How notes are spread over the voices.
    pub mode: mode::Dynamic,
    /// The voices; there is always at least one.
    pub voices: Vec<Voice>,
    /// How far, in cents, each note-on may be detuned at random.
    pub detune: u32,
    /// How the pitch trajectory of a note is made.
    pub note_freq_gen: DynamicGenerator,
    /// How long, in milliseconds, a note takes to fade in.
    pub attack_ms: u64,
    /// How long, in milliseconds, a note takes to fade out after its release.
    pub release_ms: u64,
}

/// `voices` grown to `n` with copies of its last voice, or cut to its first `n`.
pub open spec fn resized(voices: Seq<Voice>, n: nat) -> Seq<Voice> {
    Seq::new(n, |i: int| if i < voices.len() { voices[i] } else { voices.last() })
}

/// Voice `i` of `after` is voice `i` of `before`, with, if it holds a note, a
/// trajectory for that note's frequency that `generator` made with the voice as
/// the one to glide from.
pub open spec fn regenerated_at<F: Fn(NoteHz, i64) -> Pitch>(
    before: Seq<Voice>,
    after: Seq<Voice>,
    i: int,
    generator: DynamicGenerator,
    detune: u32,
    tuning: F,
) -> bool {
    match before[i].note {
        None => after[i] == before[i],
        Some(n) => {
            let f = after[i].note.unwrap().freq;
            &&& after[i] == (Voice { note: Some(Note { freq: f, ..n }), ..before[i] })
            &&& generator.generates(tuning, n.hz, detune, Some(before[i]), f)
        },
    }
}

/// A silent voice with its playhead at zero.
pub open spec fn silent(v: Voice) -> bool {
    v.note.is_none() && v.playhead == 0
}

/// The frame length of the attack and release at one sample rate.
#[derive(Clone, Copy, Debug, PartialEq, Eq, Structural)]
pub struct Frames {
    pub attack: u64,
    pub release: u64,
}

/// Walks the voices of one frame, one voice per call.
#[derive(Clone, Copy, Debug, PartialEq, Eq, Structural)]
pub struct FramePerVoice {
    pub attack: u64,
    pub release: u64,
    /// The next voice to step.
    pub index: usize,
}

impl Instrument {
    /// The instrument has at least one voice.
    pub open spec fn wf(self) -> bool {
        self.voices.len() >= 1
    }

    /// `other` holds what `self` holds.
    pub open spec fn same_state(self, other: Instrument) -> bool {
        &&& match (self.mode, other.mode) {
            (mode::Dynamic::Mono(a), mode::Dynamic::Mono(b)) => a.0 == b.0 && a.1@ == b.1@,
            (mode::Dynamic::Poly(_), mode::Dynamic::Poly(_)) => true,
            _ => false,
        }
        &&& self.voices@ == other.voices@
        &&& self.settings_kept(other)
    }

    /// `other` has the settings of `self`: detune, generator, attack and release.
    pub open spec fn settings_kept(self, other: Instrument) -> bool {
        &&& other.detune == self.detune
        &&& other.note_freq_gen == self.note_freq_gen
        &&& other.attack_ms == self.attack_ms
        &&& other.release_ms == self.release_ms
    }

    /// `after` is what `stop` leaves of `self`: every voice silent with its
    /// playhead at zero, the stack of the mode empty, the settings kept.
    pub open spec fn stopped(self, after: Instrument) -> bool {
        &&& self.mode.stopped(after.mode)
        &&& after.voices.len() == self.voices.len()
        &&& forall|i: int| 0 <= i < after.voices.len() ==> silent(#[trigger] after.voices@[i])
        &&& self.settings_kept(after)
    }

    /// Some voice holds a note.
    pub open spec fn spec_is_active(self) -> bool {
        exists|i: int| 0 <= i < self.voices.len() && (#[trigger] self.voices@[i]).is_active()
    }

    /// An instrument with one silent voice, no detune, and no attack or release.
    pub fn new(mode: mode::Dynamic, note_freq_gen: DynamicGenerator) -> (r: Instrument)
        ensures
            r.wf(),
            r.mode == mode,
            r.voices.len() == 1,
            silent(r.voices@[0]),
            r.detune == 0,
            r.note_freq_gen == note_freq_gen,
            r.attack_ms == 0,
            r.release_ms == 0,
    {
        let mut voices: Vec<Voice> = Vec::new();
        voices.push(Voice::new());
        Instrument { mode, voices, detune: 0, note_freq_gen, attack_ms: 0, release_ms: 0 }
    }

    /// The instrument with `num_voices` voices, as `set_num_voices` makes it;
    /// unchanged if `num_voices` is zero.
    pub fn num_voices(self, num_voices: usize) -> (r: Instrument)
        requires
            self.wf(),
        ensures
            r.wf(),
            r.mode == self.mode,
            r.settings_kept(self),
            num_voices == 0 ==> r.voices@ == self.voices@,
            num_voices > 0 ==> r.voices@ == resized(self.voices@, num_voices as nat),
    {
        let mut s = self;
        let _ = s.set_num_voices(num_voices);
        s
    }

    /// The instrument with the given attack and release, in milliseconds.
    pub fn fade(self, attack_ms: u64, release_ms: u64) -> (r: Instrument)
        ensures
            r == (Instrument { attack_ms, release_ms, ..self }),
    {
        let mut s = self;
        s.attack_ms = attack_ms;
        s.release_ms = release_ms;
        s
    }

    /// The instrument with the given attack, in milliseconds.
    pub fn attack(self, attack_ms: u64) -> (r: Instrument)
        ensures
            r == (Instrument { attack_ms, ..self }),
    {
        let mut s = self;
        s.attack_ms = attack_ms;
        s
    }

    /// The instrument with the given release, in milliseconds.
    pub fn release(self, release_ms: u64) -> (r: Instrument)
        ensures
            r == (Instrument { release_ms, ..self }),
    {
        let mut s = self;
        s.release_ms = release_ms;
        s
    }

    /// The instrument with the given detune, in cents.
    pub fn detune(self, detune: u32) -> (r: Instrument)
        ensures
            r == (Instrument { detune, ..self }),
    {
        let mut s = self;
        s.detune = detune;
        s
    }

    /// `after` is `self` with `generator` in place: every voice that holds a
    /// note gets a trajectory that `generator` made anew for the note's
    /// frequency, with that voice as the one to glide from; nothing else changes.
    pub open spec fn regenerated<F: Fn(NoteHz, i64) -> Pitch>(self, after: Instrument, generator: DynamicGenerator, tuning: F) -> bool {
        &&& after.mode == self.mode
        &&& after.note_freq_gen == generator
        &&& after.detune == self.detune
        &&& after.attack_ms == self.attack_ms
        &&& after.release_ms == self.release_ms
        &&& after.voices.len() == self.voices.len()
        &&& forall|i: int| 0 <= i < self.voices.len() ==> #[trigger] regenerated_at(self.voices@, after.voices@, i, generator, self.detune, tuning)
    }

    /// The instrument with the given generator. Every voice that holds a note
    /// gets a trajectory made anew by `generator`, so that sounding notes follow
    /// it; `tuning` gives the pitch of a frequency moved by a number of cents.
    pub fn note_freq_generator<F: Fn(NoteHz, i64) -> Pitch>(self, generator: DynamicGenerator, tuning: &F) -> (r: Instrument)
        requires
            can_tune(*tuning),
        ensures
            self.regenerated(r, generator, *tuning),
    {
        let mut s = self;
        s.note_freq_gen = generator;
        let mut i: usize = 0;
        while i < s.voices.len()
            invariant
                0 <= i <= s.voices.len(),
                can_tune(*tuning),
                s.mode == self.mode,
                s.note_freq_gen == generator,
                s.detune == self.detune,
                s.attack_ms == self.attack_ms,
                s.release_ms == self.release_ms,
                s.voices.len() == self.voices.len(),
                forall|j: int| 0 <= j < i ==> #[trigger] regenerated_at(self.voices@, s.voices@, j, generator, self.detune, *tuning),
                forall|j: int| i <= j < s.voices.len() ==> s.voices@[j] == self.voices@[j],
            decreases s.voices.len() - i,
        {
            let ghost prev = s.voices@;
            let v = s.voices[i];
            match v.note {
                Some(n) => {
                    let freq = generator.generate(n.hz, s.detune, Some(v), tuning);
                    s.voices.set(i, Voice { note: Some(Note { freq, ..n }), ..v });
                },
                None => {},
            }
            assert forall|j: int| 0 <= j <= i implies #[trigger] regenerated_at(self.voices@, s.voices@, j, generator, self.detune, *tuning) by {
                if j < i {
                    assert(regenerated_at(self.voices@, prev, j, generator, self.detune, *tuning));
                    assert(s.voices@[j] == prev[j]);
                }
            }
            i = i + 1;
        }
        s
    }

    /// Sets the number of voices: new ones copy the last voice, extra ones are
    /// dropped. Zero voices is refused and changes nothing.
    pub fn set_num_voices(&mut self, num_voices: usize) -> (r: Result<(), ConfigError>)
        requires
            old(self).wf(),
        ensures
            final(self).wf(),
            final(self).mode == old(self).mode,
            old(self).settings_kept(*final(self)),
            num_voices == 0 <==> r == Err::<(), ConfigError>(ConfigError::NoVoices),
            num_voices > 0 <==> r is Ok,
            num_voices > 0 ==> final(self).voices.len() == num_voices,
            num_voices == 0 ==> final(self).voices.len() == old(self).voices.len(),
            num_voices == 0 ==> final(self).voices@ == old(self).voices@,
            num_voices > 0 ==> final(self).voices@ == resized(old(self).voices@, num_voices as nat),
    {
        if num_voices == 0 {
            return Err(ConfigError::NoVoices);
        }
        let len = self.voices.len();
        if len < num_voices {
            let last_voice = self.voices[len - 1];
            let mut i: usize = len;
            while i < num_voices
                invariant
                    len <= i <= num_voices,
                    len == old(self).voices.len(),
                    len >= 1,
                    last_voice == old(self).voices@[len - 1],
                    self.voices@ == resized(old(self).voices@, i as nat),
                    self.mode == old(self).mode,
                    old(self).settings_kept(*self),
                decreases num_voices - i,
            {
                self.voices.push(last_voice);
                i = i + 1;
                assert(self.voices@ =~= resized(old(self).voices@, i as nat));
            }
        } else if len > num_voices {
            self.voices.truncate(num_voices);
        }
        assert(self.voices@ =~= resized(old(self).voices@, num_voices as nat));
        Ok(())
    }

    /// Whether any voice holds a note.
    pub fn is_active(&self) -> (r: bool)
        ensures
            r == self.spec_is_active(),
    {
        let mut i: usize = 0;
        while i < self.voices.len()
            invariant
                0 <= i <= self.voices.len(),
                forall|j: int| 0 <= j < i ==> !(#[trigger] self.voices@[j]).is_active(),
            decreases self.voices.len() - i,
        {
            if self.voices[i].note.is_some() {
                return true;
            }
            i = i + 1;
        }
        false
    }

    /// Starts a note of `note_hz` and `note_vel` as the mode decides. `tuning`
    /// gives the pitch of a frequency moved by a number of cents.
    pub fn note_on<F: Fn(NoteHz, i64) -> Pitch>(&mut self, note_hz: NoteHz, note_vel: NoteVelocity, tuning: &F)
        requires
            old(self).wf(),
            can_tune(*tuning),
        ensures
            final(self).wf(),
            old(self).settings_kept(*final(self)),
            old(self).mode.note_on_post(
                old(self).voices@,
                final(self).mode,
                final(self).voices@,
                note_hz,
                note_vel,
                old(self).detune,
                old(self).note_freq_gen,
                *tuning,
            ),
    {
        let gen = self.note_freq_gen;
        self.mode.note_on(note_hz, note_vel, self.detune, &gen, &mut self.voices, tuning);
    }

    /// Ends the note of `note_hz` as the mode decides.
    pub fn note_off<F: Fn(NoteHz, i64) -> Pitch>(&mut self, note_hz: NoteHz, tuning: &F)
        requires
            old(self).wf(),
            can_tune(*tuning),
        ensures
            final(self).wf(),
            old(self).settings_kept(*final(self)),
            old(self).mode.note_off_post(
                old(self).voices@,
                final(self).mode,
                final(self).voices@,
                note_hz,
                old(self).detune,
                old(self).note_freq_gen,
                *tuning,
            ),
    {
        let gen = self.note_freq_gen;
        self.mode.note_off(note_hz, self.detune, &gen, &mut self.voices, tuning);
    }

    /// Silences every voice and clears the stack of the mode.
    pub fn stop(&mut self)
        ensures
            old(self).stopped(*final(self)),
    {
        self.mode.stop();
        let mut i: usize = 0;
        while i < self.voices.len()
            invariant
                0 <= i <= self.voices.len(),
                self.voices.len() == old(self).voices.len(),
                old(self).mode.stopped(self.mode),
                old(self).settings_kept(*self),
                forall|j: int| 0 <= j < i ==> silent(#[trigger] self.voices@[j]),
            decreases self.voices.len() - i,
        {
            let mut v = self.voices[i];
            v.stop();
            self.voices.set(i, v);
            i = i + 1;
        }
    }

    /// The attack and release in frames at `sample_hz`.
    pub fn frames(&self, sample_hz: u64) -> (r: Frames)
        ensures
            r.attack == spec_samples_from_ms(self.attack_ms, sample_hz),
            r.release == spec_samples_from_ms(self.release_ms, sample_hz),
    {
        Frames {
            attack: samples_from_ms(self.attack_ms, sample_hz),
            release: samples_from_ms(self.release_ms, sample_hz),
        }
    }

    /// A walk over the voices for the next frame at `sample_hz`.
    pub fn frame_per_voice(&self, sample_hz: u64) -> (r: FramePerVoice)
        ensures
            r.attack == spec_samples_from_ms(self.attack_ms, sample_hz),
            r.release == spec_samples_from_ms(self.release_ms, sample_hz),
            r.index == 0,
    {
        FramePerVoice {
            attack: samples_from_ms(self.attack_ms, sample_hz),
            release: samples_from_ms(self.release_ms, sample_hz),
            index: 0,
        }
    }
}

impl Frames {
    /// The number of voices that hold a note.
    pub fn num_active_voices(&self, voices: &Vec<Voice>) -> (r: usize)
        ensures
            r == count_active(voices@),
    {
        let mut n: usize = 0;
        let mut i: usize = 0;
        while i < voices.len()
            invariant
                0 <= i <= voices.len(),
                n == count_active(voices@.subrange(0, i as int)),
                n <= i,
            decreases voices.len() - i,
        {
            assert(voices@.subrange(0, i + 1).drop_last() =~= voices@.subrange(0, i as int));
            if voices[i].note.is_some() {
                n = n + 1;
            }
            i = i + 1;
        }
        assert(voices@.subrange(0, i as int) =~= voices@);
        n
    }

    /// A walk over the voices for the next frame.
    pub fn next_frame_per_voice(&self) -> (r: FramePerVoice)
        ensures
            r == (FramePerVoice { attack: self.attack, release: self.release, index: 0 }),
    {
        FramePerVoice { attack: self.attack, release: self.release, index: 0 }
    }
}

impl FramePerVoice {
    /// Steps the next voice by one frame and returns its gain and pitch, or
    /// `Some(None)` if it is silent; `None` once every voice has had its turn.
    pub fn next_voice_vel_hz(&mut self, voices: &mut Vec<Voice>) -> (r: Option<Option<(Gain, FreqOut)>>)
        ensures
            old(self).index < old(voices).len() ==> {
                let (v, out) = old(voices)@[old(self).index as int].spec_next(old(self).attack, old(self).release);
                &&& r == Some(out)
                &&& final(voices)@ == old(voices)@.update(old(self).index as int, v)
                &&& *final(self) == (FramePerVoice { index: (old(self).index + 1) as usize, ..*old(self) })
            },
            old(self).index >= old(voices).len() ==> {
                &&& r is None
                &&& final(voices)@ == old(voices)@
                &&& *final(self) == *old(self)
            },
    {
        if self.index < voices.len() {
            let mut v = voices[self.index];
            let out = v.next_vel_hz(self.attack, self.release);
            voices.set(self.index, v);
            self.index = self.index + 1;
            Some(out)
        } else {
            None
        }
    }
}

/// Stopping twice leaves what stopping once leaves: every voice silent with its
/// playhead at zero, the stack of the mode empty, the settings kept.
pub proof fn stop_idempotent(a: Instrument, b: Instrument, c: Instrument)
    requires
        a.stopped(b),
        b.stopped(c),
    ensures
        b.same_state(c),
        a.stopped(c),
{
    assert forall|i: int| 0 <= i < b.voices.len() implies b.voices@[i] == c.voices@[i] by {
        assert(silent(b.voices@[i]));
        assert(silent(c.voices@[i]));
    }
    assert(b.voices@ =~= c.voices@);
    match (b.mode, c.mode) {
        (mode::Dynamic::Mono(x), mode::Dynamic::Mono(y)) => {
            assert(x.1@ =~= y.1@);
        },
        _ => {},
    }
}

} // verus!
