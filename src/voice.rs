use vstd::prelude::*;
use crate::note_freq::{Dynamic, FreqOut};
use crate::unit::{NoteHz, NoteVelocity, Playhead};

verus! {

/// One slot that sounds at most one note at a time.
#[derive(Clone, Copy, Debug, PartialEq, Eq, Structural)]
pub struct Voice {
    /// The note being sounded, if there is one.
    pub note: Option<Note>,
    /// Frames played since the note began; it stops counting once the attack is over.
    pub playhead: Playhead,
}

/// A note sounded by a voice.
#[derive(Clone, Copy, Debug, PartialEq, Eq, Structural)]
pub struct Note {
    /// Whether the note is held or fading out.
    pub state: NoteState,
    /// The pitch trajectory of the note.
    pub freq: Dynamic,
    /// The frequency of the note-on event, used to match note-off events.
    pub hz: NoteHz,
    /// The velocity of the note-on event.
    pub vel: NoteVelocity,
}

/// Whether a note is held, or released and fading out.
#[derive(Clone, Copy, Debug, PartialEq, Eq, Structural)]
pub enum NoteState {
    /// The note is held.
    Playing,
    /// The note was released this many frames ago.
    Released(Playhead),
}

/// The ratio `num / den`.
#[derive(Clone, Copy, Debug, PartialEq, Eq, Structural)]
pub struct Amp {
    pub num: u64,
    pub den: u64,
}

/// A velocity scaled by an attack and a release amplitude: the level is
/// `vel * attack.num / attack.den * release.num / release.den`.
#[derive(Clone, Copy, Debug, PartialEq, Eq, Structural)]
pub struct Gain {
    pub vel: NoteVelocity,
    pub attack: Amp,
    pub release: Amp,
}

/// Full amplitude.
pub open spec fn full() -> Amp {
    Amp { num: 1, den: 1 }
}

/// The attack amplitude at `playhead` for an attack of `attack` frames.
pub open spec fn attack_amp(playhead: Playhead, attack: u64) -> Amp {
    if playhead < attack {
        Amp { num: playhead, den: attack }
    } else {
        full()
    }
}

/// The playhead one frame on: it advances only while the attack lasts.
pub open spec fn attack_step(playhead: Playhead, attack: u64) -> Playhead {
    if playhead < attack {
        (playhead + 1) as Playhead
    } else {
        playhead
    }
}

impl Note {
    /// A held note.
    pub open spec fn playing(hz: NoteHz, freq: Dynamic, vel: NoteVelocity) -> Note {
        Note { state: NoteState::Playing, freq, hz, vel }
    }
}

impl Voice {
    /// Whether the voice holds a note, held or fading.
    pub open spec fn is_active(self) -> bool {
        self.note.is_some()
    }

    /// Whether the voice holds a note that is not released.
    pub open spec fn is_playing(self) -> bool {
        self.note.is_some() && self.note.unwrap().state == NoteState::Playing
    }

    /// The voice with its playhead at zero.
    pub open spec fn with_playhead_reset(self) -> Voice {
        Voice { playhead: 0, ..self }
    }

    /// The voice after a note-off: a note it holds is released now.
    pub open spec fn released(self) -> Voice {
        match self.note {
            Some(n) => Voice { note: Some(Note { state: NoteState::Released(0), ..n }), ..self },
            None => self,
        }
    }

    /// The voice after `next_vel_hz(attack, release)`, and what that call returns.
    pub open spec fn spec_next(self, attack: u64, release: u64) -> (Voice, Option<(Gain, FreqOut)>) {
        match self.note {
            None => (self, None),
            Some(n) => match n.state {
                NoteState::Playing => (
                    Voice {
                        note: Some(Note { freq: n.freq.spec_advance(), ..n }),
                        playhead: attack_step(self.playhead, attack),
                    },
                    Some((Gain { vel: n.vel, attack: attack_amp(self.playhead, attack), release: full() }, n.freq.spec_hz())),
                ),
                NoteState::Released(r) => if r < release {
                    (
                        Voice {
                            note: Some(Note { state: NoteState::Released((r + 1) as u64), freq: n.freq.spec_advance(), ..n }),
                            playhead: attack_step(self.playhead, attack),
                        },
                        Some((
                            Gain {
                                vel: n.vel,
                                attack: attack_amp(self.playhead, attack),
                                release: Amp { num: (release - r) as u64, den: release },
                            },
                            n.freq.spec_hz(),
                        )),
                    )
                } else {
                    (Voice { note: None, ..self }, None)
                },
            },
        }
    }

    /// A silent voice.
    pub fn new() -> (r: Voice)
        ensures
            r.note.is_none(),
            r.playhead == 0,
    {
        Voice { note: None, playhead: 0 }
    }

    /// Sets the playhead to zero.
    pub fn reset_playhead(&mut self)
        ensures
            *final(self) == old(self).with_playhead_reset(),
    {
        self.playhead = 0;
    }

    /// Starts holding a new note in place of any other; the playhead is left as it is.
    pub fn note_on(&mut self, hz: NoteHz, freq: Dynamic, vel: NoteVelocity)
        ensures
            final(self).note == Some(Note::playing(hz, freq, vel)),
            final(self).playhead == old(self).playhead,
    {
        self.note = Some(Note { state: NoteState::Playing, freq, hz, vel });
    }

    /// Releases the note if there is one.
    pub fn note_off(&mut self)
        ensures
            *final(self) == old(self).released(),
    {
        match self.note {
            Some(n) => {
                self.note = Some(Note { state: NoteState::Released(0), ..n });
            },
            None => {},
        }
    }

    /// Silences the voice and sets its playhead to zero.
    pub fn stop(&mut self)
        ensures
            final(self).note.is_none(),
            final(self).playhead == 0,
    {
        self.note = None;
        self.playhead = 0;
    }

    /// Steps the voice by one frame, for an attack of `attack` and a release of
    /// `release` frames, and returns its gain and pitch at that frame, or `None`
    /// if it is silent. A released note whose release is over is cleared here.
    pub fn next_vel_hz(&mut self, attack: u64, release: u64) -> (r: Option<(Gain, FreqOut)>)
        ensures
            (*final(self), r) == old(self).spec_next(attack, release),
    {
        match self.note {
            None => None,
            Some(n) => {
                let amp = if self.playhead < attack {
                    Amp { num: self.playhead, den: attack }
                } else {
                    Amp { num: 1, den: 1 }
                };
                match n.state {
                    NoteState::Playing => {
                        if self.playhead < attack {
                            self.playhead = self.playhead + 1;
                        }
                        let mut freq = n.freq;
                        let hz = freq.next_hz();
                        self.note = Some(Note { freq, ..n });
                        Some((Gain { vel: n.vel, attack: amp, release: Amp { num: 1, den: 1 } }, hz))
                    },
                    NoteState::Released(r) => {
                        if r < release {
                            if self.playhead < attack {
                                self.playhead = self.playhead + 1;
                            }
                            let mut freq = n.freq;
                            let hz = freq.next_hz();
                            self.note = Some(Note { state: NoteState::Released(r + 1), freq, ..n });
                            Some((Gain { vel: n.vel, attack: amp, release: Amp { num: release - r, den: release } }, hz))
                        } else {
                            self.note = None;
                            None
                        }
                    },
                }
            },
        }
    }
}

/// The number of voices that hold a note.
pub open spec fn count_active(voices: Seq<Voice>) -> nat
    decreases voices.len(),
{
    if voices.len() == 0 {
        0
    } else {
        count_active(voices.drop_last()) + if voices.last().is_active() { 1nat } else { 0nat }
    }
}

/// The voice after `k` calls of `next_vel_hz(attack, release)`.
pub open spec fn steps(v: Voice, attack: u64, release: u64, k: nat) -> Voice
    decreases k,
{
    if k == 0 {
        v
    } else {
        steps(v, attack, release, (k - 1) as nat).spec_next(attack, release).0
    }
}

/// What call `k`, counted from zero, of `next_vel_hz(attack, release)` returns.
pub open spec fn output_at(v: Voice, attack: u64, release: u64, k: nat) -> Option<(Gain, FreqOut)> {
    steps(v, attack, release, k).spec_next(attack, release).1
}

/// The ratio `x` is smaller than the ratio `y`.
pub open spec fn amp_lt(x: Amp, y: Amp) -> bool {
    x.num * y.den < y.num * x.den
}

proof fn lemma_attack_steps(v: Voice, attack: u64, release: u64, k: nat)
    requires
        v.is_playing(),
        v.playhead == 0,
    ensures
        steps(v, attack, release, k).is_playing(),
        steps(v, attack, release, k).playhead == if k < attack { k } else { attack as nat },
        steps(v, attack, release, k).note.unwrap().vel == v.note.unwrap().vel,
    decreases k,
{
    if k > 0 {
        lemma_attack_steps(v, attack, release, (k - 1) as nat);
    }
}

/// From a held note with the playhead at zero, call `k` of `next_vel_hz`
/// scales the velocity by `k / attack` while `k < attack` and by full amplitude
/// from call `attack` on; the attack amplitude rises strictly from call to call
/// up to call `attack`.
pub proof fn attack_rises(v: Voice, attack: u64, release: u64, k1: nat, k2: nat)
    requires
        v.is_playing(),
        v.playhead == 0,
        k1 < k2,
    ensures
        output_at(v, attack, release, k1) is Some,
        output_at(v, attack, release, k1).unwrap().0.vel == v.note.unwrap().vel,
        output_at(v, attack, release, k1).unwrap().0.release == full(),
        k1 < attack ==> output_at(v, attack, release, k1).unwrap().0.attack == (Amp { num: k1 as u64, den: attack }),
        k1 >= attack ==> output_at(v, attack, release, k1).unwrap().0.attack == full(),
        k2 <= attack ==> amp_lt(output_at(v, attack, release, k1).unwrap().0.attack, output_at(v, attack, release, k2).unwrap().0.attack),
{
    lemma_attack_steps(v, attack, release, k1);
    lemma_attack_steps(v, attack, release, k2);
    let o1 = output_at(v, attack, release, k1).unwrap().0.attack;
    let o2 = output_at(v, attack, release, k2).unwrap().0.attack;
    if k2 <= attack {
        let a = attack as int;
        assert(o1 == (Amp { num: k1 as u64, den: attack }));
        if k2 < attack {
            assert(o2 == (Amp { num: k2 as u64, den: attack }));
            assert(k1 * a < k2 * a) by (nonlinear_arith)
                requires
                    k1 < k2,
                    a > 0,
            ;
            assert(amp_lt(o1, o2));
        } else {
            assert(o2 == full());
            assert(amp_lt(o1, o2));
        }
    }
}

proof fn lemma_release_steps(v: Voice, attack: u64, release: u64, k: nat)
    requires
        v.note is Some,
        v.note.unwrap().state == NoteState::Released(0),
        v.playhead >= attack,
        k <= release,
    ensures
        steps(v, attack, release, k).note is Some,
        steps(v, attack, release, k).note.unwrap().state == NoteState::Released(k as u64),
        steps(v, attack, release, k).note.unwrap().vel == v.note.unwrap().vel,
        steps(v, attack, release, k).playhead == v.playhead,
    decreases k,
{
    if k > 0 {
        lemma_release_steps(v, attack, release, (k - 1) as nat);
    }
}

/// From a note released at call zero, with its attack over, call `k` of
/// `next_vel_hz` scales the velocity by `(release - k) / release` while
/// `k < release`, and call `release` returns `None` and frees the voice.
pub proof fn release_ends(v: Voice, attack: u64, release: u64, k: nat)
    requires
        v.note is Some,
        v.note.unwrap().state == NoteState::Released(0),
        v.playhead >= attack,
        k < release,
    ensures
        output_at(v, attack, release, k) is Some,
        output_at(v, attack, release, k).unwrap().0.vel == v.note.unwrap().vel,
        output_at(v, attack, release, k).unwrap().0.attack == full(),
        output_at(v, attack, release, k).unwrap().0.release == (Amp { num: (release - k) as u64, den: release }),
        output_at(v, attack, release, release as nat) is None,
        steps(v, attack, release, (release + 1) as nat).note is None,
{
    lemma_release_steps(v, attack, release, k);
    lemma_release_steps(v, attack, release, release as nat);
}

} // verus!
