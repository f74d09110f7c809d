use vstd::prelude::*;
use crate::note_freq::{can_tune, DynamicGenerator, Pitch};
use crate::unit::{NoteHz, NoteVelocity};
use crate::voice::{count_active, Note, NoteState, Voice};

verus! {

/// Half the width of the band of frequencies taken as one note, in thousandths of
/// a hertz.
pub const HZ_VARIANCE: NoteHz = 250;

/// `hz` lies less than `HZ_VARIANCE` away from `target`.
pub open spec fn hz_matches(hz: NoteHz, target: NoteHz) -> bool {
    -(HZ_VARIANCE as int) < hz - target < HZ_VARIANCE as int
}

/// `voice` holds a note that is not released and whose frequency matches `target`.
pub open spec fn voice_matches(voice: Voice, target: NoteHz) -> bool {
    voice.is_playing() && hz_matches(voice.note.unwrap().hz, target)
}

/// `voice` holds a note, held or fading, whose frequency matches `target`.
pub open spec fn note_matches(voice: Voice, target: NoteHz) -> bool {
    voice.is_active() && hz_matches(voice.note.unwrap().hz, target)
}

/// Does `hz` match `target_hz`?
fn does_hz_match(hz: NoteHz, target_hz: NoteHz) -> (r: bool)
    ensures
        r == hz_matches(hz, target_hz),
{
    if hz >= target_hz {
        hz - target_hz < HZ_VARIANCE
    } else {
        target_hz - hz < HZ_VARIANCE
    }
}

/// Does `voice` hold an unreleased note that matches `target_hz`?
fn does_voice_match(voice: &Voice, target_hz: NoteHz) -> (r: bool)
    ensures
        r == voice_matches(*voice, target_hz),
{
    match voice.note {
        Some(n) => match n.state {
            NoteState::Playing => does_hz_match(n.hz, target_hz),
            NoteState::Released(_) => false,
        },
        None => false,
    }
}

/// Does `voice` hold a note, held or fading, that matches `target_hz`?
fn does_note_match(voice: &Voice, target_hz: NoteHz) -> (r: bool)
    ensures
        r == note_matches(*voice, target_hz),
{
    match voice.note {
        Some(n) => does_hz_match(n.hz, target_hz),
        None => false,
    }
}

/// Every voice with its playhead at zero.
pub open spec fn reset_all(voices: Seq<Voice>) -> Seq<Voice> {
    voices.map_values(|v: Voice| v.with_playhead_reset())
}

/// Every voice released.
pub open spec fn release_all(voices: Seq<Voice>) -> Seq<Voice> {
    voices.map_values(|v: Voice| v.released())
}

/// Voice `i` of `after` is voice `i` of `before` holding a new note of `hz` and
/// `vel`, whose trajectory `gen` made with that voice as the one to glide from;
/// the playhead is kept.
pub open spec fn triggered_at<F: Fn(NoteHz, i64) -> Pitch>(
    before: Seq<Voice>,
    after: Seq<Voice>,
    i: int,
    hz: NoteHz,
    vel: NoteVelocity,
    detune: u32,
    gen: DynamicGenerator,
    tuning: F,
) -> bool {
    &&& after[i].playhead == before[i].playhead
    &&& after[i].note == Some(Note::playing(hz, after[i].note.unwrap().freq, vel))
    &&& gen.generates(tuning, hz, detune, Some(before[i]), after[i].note.unwrap().freq)
}

/// `after` is `before` with every voice holding a new note of `hz` and `vel`
/// (see `triggered_at`).
pub open spec fn triggered<F: Fn(NoteHz, i64) -> Pitch>(
    before: Seq<Voice>,
    after: Seq<Voice>,
    hz: NoteHz,
    vel: NoteVelocity,
    detune: u32,
    gen: DynamicGenerator,
    tuning: F,
) -> bool {
    &&& after.len() == before.len()
    &&& forall|i: int| 0 <= i < before.len() ==> #[trigger] triggered_at(before, after, i, hz, vel, detune, gen, tuning)
}

/// Sets every playhead to zero.
fn reset_playheads(voices: &mut Vec<Voice>)
    ensures
        final(voices)@ == reset_all(old(voices)@),
{
    let mut i: usize = 0;
    while i < voices.len()
        invariant
            0 <= i <= voices.len(),
            voices.len() == old(voices).len(),
            forall|j: int| 0 <= j < i ==> voices@[j] == old(voices)@[j].with_playhead_reset(),
            forall|j: int| i <= j < voices.len() ==> voices@[j] == old(voices)@[j],
        decreases voices.len() - i,
    {
        let mut v = voices[i];
        v.reset_playhead();
        voices.set(i, v);
        i = i + 1;
    }
    assert(voices@ =~= reset_all(old(voices)@));
}

/// Releases every voice.
fn release_voices(voices: &mut Vec<Voice>)
    ensures
        final(voices)@ == release_all(old(voices)@),
{
    let mut i: usize = 0;
    while i < voices.len()
        invariant
            0 <= i <= voices.len(),
            voices.len() == old(voices).len(),
            forall|j: int| 0 <= j < i ==> voices@[j] == old(voices)@[j].released(),
            forall|j: int| i <= j < voices.len() ==> voices@[j] == old(voices)@[j],
        decreases voices.len() - i,
    {
        let mut v = voices[i];
        v.note_off();
        voices.set(i, v);
        i = i + 1;
    }
    assert(voices@ =~= release_all(old(voices)@));
}

/// Starts a note of `note_hz` and `vel` on every voice, each with a trajectory of
/// its own.
fn trigger_voices<F: Fn(NoteHz, i64) -> Pitch>(
    voices: &mut Vec<Voice>,
    note_hz: NoteHz,
    vel: NoteVelocity,
    detune: u32,
    gen: &DynamicGenerator,
    tuning: &F,
)
    requires
        can_tune(*tuning),
    ensures
        triggered(old(voices)@, final(voices)@, note_hz, vel, detune, *gen, *tuning),
{
    let mut i: usize = 0;
    while i < voices.len()
        invariant
            0 <= i <= voices.len(),
            voices.len() == old(voices).len(),
            can_tune(*tuning),
            forall|j: int| 0 <= j < i ==> #[trigger] triggered_at(old(voices)@, voices@, j, note_hz, vel, detune, *gen, *tuning),
            forall|j: int| i <= j < voices.len() ==> voices@[j] == old(voices)@[j],
        decreases voices.len() - i,
    {
        let ghost prev = voices@;
        let mut v = voices[i];
        let freq = gen.generate(note_hz, detune, Some(v), tuning);
        v.note_on(note_hz, freq, vel);
        voices.set(i, v);
        assert forall|j: int| 0 <= j <= i implies #[trigger] triggered_at(old(voices)@, voices@, j, note_hz, vel, detune, *gen, *tuning) by {
            if j < i {
                assert(triggered_at(old(voices)@, prev, j, note_hz, vel, detune, *gen, *tuning));
                assert(voices@[j] == prev[j]);
            }
        }
        i = i + 1;
    }
}

/// How a monophonic mode treats the playheads when one note follows another.
#[derive(Clone, Copy, Debug, PartialEq, Eq, Structural)]
pub enum MonoKind {
    /// Every new note sets the playheads to zero.
    Retrigger,
    /// A note that follows a held one keeps the playheads running; the stack of
    /// held notes is cleared once the voices fall silent.
    Legato,
}

/// Monophonic playback: every voice sounds the same note, and notes still held
/// when a newer one starts wait on a stack, the most recent last.
#[derive(Clone, Debug, PartialEq)]
pub struct Mono(pub MonoKind, pub Vec<NoteHz>);

/// The voices with their playheads at zero if `kind` asks for it on retrigger.
pub open spec fn retrigger_reset(kind: MonoKind, voices: Seq<Voice>) -> Seq<Voice> {
    if kind == MonoKind::Retrigger {
        reset_all(voices)
    } else {
        voices
    }
}

/// The stack after a note-off of `note_hz` for a note that is not sounding:
/// every matching entry is gone.
pub open spec fn without_hz(stack: Seq<NoteHz>, note_hz: NoteHz) -> Seq<NoteHz> {
    stack.filter(|h: NoteHz| !hz_matches(h, note_hz))
}

/// A monophonic note-off of `note_hz` takes the stack and voices from
/// `(stack, voices)` to `(stack2, voices2)`:
/// - if voice 0 holds an unreleased note matching `note_hz` and the stack is not
///   empty, its top is popped and sounded on every voice at that note's velocity
///   (after the playheads are set to zero, for `Retrigger`);
/// - if it holds such a note and the stack is empty, every voice is released;
/// - otherwise the voices are kept and the matching entries leave the stack.
pub open spec fn mono_note_off_rel<F: Fn(NoteHz, i64) -> Pitch>(
    kind: MonoKind,
    stack: Seq<NoteHz>,
    voices: Seq<Voice>,
    stack2: Seq<NoteHz>,
    voices2: Seq<Voice>,
    note_hz: NoteHz,
    detune: u32,
    gen: DynamicGenerator,
    tuning: F,
) -> bool {
    if voice_matches(voices[0], note_hz) {
        if stack.len() > 0 {
            &&& stack2 == stack.drop_last()
            &&& triggered(
                retrigger_reset(kind, voices),
                voices2,
                stack.last(),
                voices[0].note.unwrap().vel,
                detune,
                gen,
                tuning,
            )
        } else {
            &&& stack2 == stack
            &&& voices2 == release_all(voices)
        }
    } else {
        &&& stack2 == without_hz(stack, note_hz)
        &&& voices2 == voices
    }
}

/// The second half of a monophonic note-on of `note_hz`, after the release of
/// any sounding note of the same pitch: if voice 0 holds an unreleased note, its
/// frequency is pushed on the stack (and, for `Retrigger`, the playheads are set
/// to zero); if not, the stack is cleared and the playheads are set to zero.
/// Then every voice sounds the new note.
pub open spec fn mono_note_on_rel<F: Fn(NoteHz, i64) -> Pitch>(
    kind: MonoKind,
    stack: Seq<NoteHz>,
    voices: Seq<Voice>,
    stack2: Seq<NoteHz>,
    voices2: Seq<Voice>,
    note_hz: NoteHz,
    vel: NoteVelocity,
    detune: u32,
    gen: DynamicGenerator,
    tuning: F,
) -> bool {
    if voices[0].is_playing() {
        &&& stack2 == stack.push(voices[0].note.unwrap().hz)
        &&& triggered(retrigger_reset(kind, voices), voices2, note_hz, vel, detune, gen, tuning)
    } else {
        &&& stack2 == Seq::<NoteHz>::empty()
        &&& triggered(reset_all(voices), voices2, note_hz, vel, detune, gen, tuning)
    }
}

/// Removes from `notes` every entry that matches `note_hz`, keeping the order of
/// the others.
fn remove_matching(notes: &mut Vec<NoteHz>, note_hz: NoteHz)
    ensures
        final(notes)@ == without_hz(old(notes)@, note_hz),
{
    let ghost pred = |h: NoteHz| !hz_matches(h, note_hz);
    let mut kept: Vec<NoteHz> = Vec::new();
    let mut i: usize = 0;
    while i < notes.len()
        invariant
            0 <= i <= notes.len(),
            notes@ == old(notes)@,
            kept@ == notes@.subrange(0, i as int).filter(pred),
            pred == (|h: NoteHz| !hz_matches(h, note_hz)),
        decreases notes.len() - i,
    {
        let ghost next = notes@.subrange(0, i + 1);
        proof {
            reveal(Seq::filter);
            assert(next.drop_last() =~= notes@.subrange(0, i as int));
            assert(next.last() == notes@[i as int]);
            assert(next.filter(pred) == if pred(notes@[i as int]) {
                notes@.subrange(0, i as int).filter(pred).push(notes@[i as int])
            } else {
                notes@.subrange(0, i as int).filter(pred)
            });
        }
        if !does_hz_match(notes[i], note_hz) {
            kept.push(notes[i]);
        }
        i = i + 1;
    }
    assert(notes@.subrange(0, i as int) =~= notes@);
    *notes = kept;
}

impl Mono {
    /// A `Retrigger` mode with an empty stack.
    pub fn retrigger() -> (r: Mono)
        ensures
            r.0 == MonoKind::Retrigger,
            r.1@ == Seq::<NoteHz>::empty(),
    {
        Mono(MonoKind::Retrigger, Vec::new())
    }

    /// A `Legato` mode with an empty stack.
    pub fn legato() -> (r: Mono)
        ensures
            r.0 == MonoKind::Legato,
            r.1@ == Seq::<NoteHz>::empty(),
    {
        Mono(MonoKind::Legato, Vec::new())
    }

    /// The effect of `note_on` (see `mono_note_off_rel` and `mono_note_on_rel`):
    /// a release of `note_hz` to some middle state, then the new note.
    pub open spec fn note_on_post<F: Fn(NoteHz, i64) -> Pitch>(
        self,
        voices: Seq<Voice>,
        after: Mono,
        voices2: Seq<Voice>,
        note_hz: NoteHz,
        vel: NoteVelocity,
        detune: u32,
        gen: DynamicGenerator,
        tuning: F,
    ) -> bool {
        &&& after.0 == self.0
        &&& exists|stack_mid: Seq<NoteHz>, voices_mid: Seq<Voice>|
            #[trigger] mono_note_off_rel(self.0, self.1@, voices, stack_mid, voices_mid, note_hz, detune, gen, tuning)
            && mono_note_on_rel(self.0, stack_mid, voices_mid, after.1@, voices2, note_hz, vel, detune, gen, tuning)
    }

    /// The effect of `note_off` (see `mono_note_off_rel`).
    pub open spec fn note_off_post<F: Fn(NoteHz, i64) -> Pitch>(
        self,
        voices: Seq<Voice>,
        after: Mono,
        voices2: Seq<Voice>,
        note_hz: NoteHz,
        detune: u32,
        gen: DynamicGenerator,
        tuning: F,
    ) -> bool {
        &&& after.0 == self.0
        &&& mono_note_off_rel(self.0, self.1@, voices, after.1@, voices2, note_hz, detune, gen, tuning)
    }

    /// Starts a note of `note_hz` on every voice, putting a note still held on
    /// the stack.
    pub fn note_on<F: Fn(NoteHz, i64) -> Pitch>(
        &mut self,
        note_hz: NoteHz,
        note_vel: NoteVelocity,
        detune: u32,
        note_freq_gen: &DynamicGenerator,
        voices: &mut Vec<Voice>,
        tuning: &F,
    )
        requires
            old(voices).len() >= 1,
            can_tune(*tuning),
        ensures
            final(voices).len() == old(voices).len(),
            old(self).note_on_post(old(voices)@, *final(self), final(voices)@, note_hz, note_vel, detune, *note_freq_gen, *tuning),
    {
        // Release the note first, so that a repeated note-on does not stack it twice.
        self.note_off(note_hz, detune, note_freq_gen, voices, tuning);
        let ghost stack_mid = self.1@;
        let ghost voices_mid = voices@;
        if voices[0].note.is_some() && voices[0].note.unwrap().state == NoteState::Playing {
            let hz = voices[0].note.unwrap().hz;
            self.1.push(hz);
            if self.0 == MonoKind::Retrigger {
                reset_playheads(voices);
            }
        } else {
            self.1.clear();
            reset_playheads(voices);
        }
        trigger_voices(voices, note_hz, note_vel, detune, note_freq_gen, tuning);
        assert(mono_note_on_rel(self.0, stack_mid, voices_mid, self.1@, voices@, note_hz, note_vel, detune, *note_freq_gen, *tuning));
    }

    /// Ends the note of `note_hz`: falls back to the most recent stacked note if
    /// it is the one sounding, else drops it from the stack.
    pub fn note_off<F: Fn(NoteHz, i64) -> Pitch>(
        &mut self,
        note_hz: NoteHz,
        detune: u32,
        note_freq_gen: &DynamicGenerator,
        voices: &mut Vec<Voice>,
        tuning: &F,
    )
        requires
            old(voices).len() >= 1,
            can_tune(*tuning),
        ensures
            final(voices).len() == old(voices).len(),
            old(self).note_off_post(old(voices)@, *final(self), final(voices)@, note_hz, detune, *note_freq_gen, *tuning),
    {
        if does_voice_match(&voices[0], note_hz) {
            let vel = voices[0].note.unwrap().vel;
            match self.1.pop() {
                Some(old_hz) => {
                    if self.0 == MonoKind::Retrigger {
                        reset_playheads(voices);
                    }
                    trigger_voices(voices, old_hz, vel, detune, note_freq_gen, tuning);
                },
                None => {
                    release_voices(voices);
                },
            }
        } else {
            remove_matching(&mut self.1, note_hz);
        }
    }

    /// Clears the stack.
    pub fn stop(&mut self)
        ensures
            final(self).0 == old(self).0,
            final(self).1@ == Seq::<NoteHz>::empty(),
    {
        self.1.clear();
    }
}

/// In monophonic mode, after a note-on of `h1` and then one of a different note
/// `h2`, every voice holds `h2` and `h1` is on top of the stack; a note-off of
/// `h2` then pops `h1` and sounds it on every voice at the velocity of `h2`.
/// `Retrigger` sets every playhead to zero there; `Legato` keeps them.
pub proof fn mono_fallback<F: Fn(NoteHz, i64) -> Pitch>(
    a: Mono,
    b: Mono,
    c: Mono,
    d: Mono,
    v0: Seq<Voice>,
    v1: Seq<Voice>,
    v2: Seq<Voice>,
    v3: Seq<Voice>,
    h1: NoteHz,
    h2: NoteHz,
    vel1: NoteVelocity,
    vel2: NoteVelocity,
    detune: u32,
    gen: DynamicGenerator,
    tuning: F,
)
    requires
        v0.len() >= 1,
        !hz_matches(h1, h2),
        a.note_on_post(v0, b, v1, h1, vel1, detune, gen, tuning),
        b.note_on_post(v1, c, v2, h2, vel2, detune, gen, tuning),
        c.note_off_post(v2, d, v3, h2, detune, gen, tuning),
    ensures
        v2.len() == v0.len(),
        v3.len() == v0.len(),
        forall|i: int| 0 <= i < v2.len() ==> (#[trigger] v2[i]).is_playing() && v2[i].note.unwrap().hz == h2,
        c.1@.len() >= 1,
        c.1@.last() == h1,
        d.1@ == c.1@.drop_last(),
        forall|i: int|
            0 <= i < v3.len() ==> {
                &&& (#[trigger] v3[i]).is_playing()
                &&& v3[i].note.unwrap().hz == h1
                &&& v3[i].note.unwrap().vel == vel2
            },
        a.0 == MonoKind::Retrigger ==> forall|i: int| 0 <= i < v3.len() ==> (#[trigger] v3[i]).playhead == 0,
        a.0 == MonoKind::Legato ==> forall|i: int| 0 <= i < v3.len() ==> (#[trigger] v3[i]).playhead == v2[i].playhead,
{
    let (s1, m1) = choose|s: Seq<NoteHz>, m: Seq<Voice>|
        #[trigger] mono_note_off_rel(a.0, a.1@, v0, s, m, h1, detune, gen, tuning)
        && mono_note_on_rel(a.0, s, m, b.1@, v1, h1, vel1, detune, gen, tuning);
    assert(m1.len() == v0.len());
    assert(triggered_at(if m1[0].is_playing() { retrigger_reset(a.0, m1) } else { reset_all(m1) }, v1, 0, h1, vel1, detune, gen, tuning));
    assert(v1[0].is_playing() && v1[0].note.unwrap().hz == h1);

    let (s2, m2) = choose|s: Seq<NoteHz>, m: Seq<Voice>|
        #[trigger] mono_note_off_rel(b.0, b.1@, v1, s, m, h2, detune, gen, tuning)
        && mono_note_on_rel(b.0, s, m, c.1@, v2, h2, vel2, detune, gen, tuning);
    assert(!voice_matches(v1[0], h2));
    assert(m2 == v1);
    assert(c.1@ == s2.push(h1));
    assert(triggered(retrigger_reset(a.0, v1), v2, h2, vel2, detune, gen, tuning));
    assert forall|i: int| 0 <= i < v2.len() implies (#[trigger] v2[i]).is_playing() && v2[i].note.unwrap().hz == h2 by {
        assert(triggered_at(retrigger_reset(a.0, v1), v2, i, h2, vel2, detune, gen, tuning));
    }
    assert(voice_matches(v2[0], h2));
    assert(c.0 == a.0);
    assert(c.1@.len() > 0 && c.1@.last() == h1);
    assert(triggered_at(retrigger_reset(a.0, v1), v2, 0, h2, vel2, detune, gen, tuning));
    assert(v2[0].note.unwrap().vel == vel2);
    assert(triggered(retrigger_reset(a.0, v2), v3, h1, vel2, detune, gen, tuning));
    assert forall|i: int| 0 <= i < v3.len() implies {
        &&& (#[trigger] v3[i]).is_playing()
        &&& v3[i].note.unwrap().hz == h1
        &&& v3[i].note.unwrap().vel == vel2
        &&& a.0 == MonoKind::Retrigger ==> v3[i].playhead == 0
        &&& a.0 == MonoKind::Legato ==> v3[i].playhead == v2[i].playhead
    } by {
        assert(triggered_at(retrigger_reset(a.0, v2), v3, i, h1, vel2, detune, gen, tuning));
    }
}

/// Polyphonic playback: each note takes a voice of its own.
#[derive(Clone, Copy, Debug, PartialEq, Eq, Structural)]
pub struct Poly;

/// Among the first `n` voices, `i` is the active one with the smallest
/// playhead, the first of those if several share it.
pub open spec fn is_newest_upto(voices: Seq<Voice>, n: int, i: int) -> bool {
    &&& 0 <= i < n <= voices.len()
    &&& voices[i].is_active()
    &&& forall|j: int| 0 <= j < n && (#[trigger] voices[j]).is_active() ==> voices[i].playhead <= voices[j].playhead
    &&& forall|j: int| 0 <= j < i && (#[trigger] voices[j]).is_active() ==> voices[i].playhead < voices[j].playhead
}

/// The most recently started active voice, if any: the one a new note glides from.
pub open spec fn newest_voice(voices: Seq<Voice>) -> Option<Voice> {
    if exists|i: int| is_newest_upto(voices, voices.len() as int, i) {
        Some(voices[choose|i: int| is_newest_upto(voices, voices.len() as int, i)])
    } else {
        None
    }
}

/// `i` is the first voice with no note.
pub open spec fn is_first_free(voices: Seq<Voice>, i: int) -> bool {
    &&& 0 <= i < voices.len()
    &&& !voices[i].is_active()
    &&& forall|j: int| 0 <= j < i ==> (#[trigger] voices[j]).is_active()
}

/// Among the first `n` voices, `i` has the largest playhead, the last of those
/// if several share it.
pub open spec fn is_oldest_upto(voices: Seq<Voice>, n: int, i: int) -> bool {
    &&& 0 <= i < n <= voices.len()
    &&& forall|j: int| 0 <= j < n ==> (#[trigger] voices[j]).playhead <= voices[i].playhead
    &&& forall|j: int| i < j < n ==> (#[trigger] voices[j]).playhead < voices[i].playhead
}

/// The voice a polyphonic note-on takes: the first free one, or else the one
/// with the largest playhead.
pub open spec fn poly_slot(voices: Seq<Voice>) -> int {
    if exists|i: int| is_first_free(voices, i) {
        choose|i: int| is_first_free(voices, i)
    } else {
        choose|i: int| is_oldest_upto(voices, voices.len() as int, i)
    }
}

/// Among the voices whose note, held or fading, matches `hz`, `i` has the
/// largest playhead, the last of those if several share it.
pub open spec fn is_release_target(voices: Seq<Voice>, hz: NoteHz, i: int) -> bool {
    &&& 0 <= i < voices.len()
    &&& note_matches(voices[i], hz)
    &&& forall|j: int| 0 <= j < voices.len() && note_matches(#[trigger] voices[j], hz) ==> voices[j].playhead <= voices[i].playhead
    &&& forall|j: int| i < j < voices.len() && note_matches(#[trigger] voices[j], hz) ==> voices[j].playhead < voices[i].playhead
}

proof fn lemma_newest_unique(voices: Seq<Voice>, n: int, i: int, k: int)
    requires
        is_newest_upto(voices, n, i),
        is_newest_upto(voices, n, k),
    ensures
        i == k,
{
    if i < k {
        assert(voices[i].playhead <= voices[k].playhead);
    } else if k < i {
        assert(voices[k].playhead <= voices[i].playhead);
    }
}

proof fn lemma_first_free_unique(voices: Seq<Voice>, i: int, k: int)
    requires
        is_first_free(voices, i),
        is_first_free(voices, k),
    ensures
        i == k,
{
    if i < k {
        assert(voices[i].is_active());
    } else if k < i {
        assert(voices[k].is_active());
    }
}

proof fn lemma_oldest_unique(voices: Seq<Voice>, n: int, i: int, k: int)
    requires
        is_oldest_upto(voices, n, i),
        is_oldest_upto(voices, n, k),
    ensures
        i == k,
{
    if i < k {
        assert(voices[k].playhead <= voices[i].playhead);
    } else if k < i {
        assert(voices[i].playhead <= voices[k].playhead);
    }
}

proof fn lemma_release_target_unique(voices: Seq<Voice>, hz: NoteHz, i: int, k: int)
    requires
        is_release_target(voices, hz, i),
        is_release_target(voices, hz, k),
    ensures
        i == k,
{
    if i < k {
        assert(voices[k].playhead <= voices[i].playhead);
    } else if k < i {
        assert(voices[i].playhead <= voices[k].playhead);
    }
}

/// The index of the most recently started active voice, if any.
fn newest_index(voices: &Vec<Voice>) -> (r: Option<usize>)
    ensures
        match r {
            Some(i) => is_newest_upto(voices@, voices.len() as int, i as int),
            None => forall|j: int| 0 <= j < voices.len() ==> !(#[trigger] voices@[j]).is_active(),
        },
{
    let mut best: Option<usize> = None;
    let mut i: usize = 0;
    while i < voices.len()
        invariant
            0 <= i <= voices.len(),
            match best {
                Some(b) => is_newest_upto(voices@, i as int, b as int),
                None => forall|j: int| 0 <= j < i ==> !(#[trigger] voices@[j]).is_active(),
            },
        decreases voices.len() - i,
    {
        if voices[i].note.is_some() {
            match best {
                Some(b) => {
                    if voices[i].playhead < voices[b].playhead {
                        best = Some(i);
                    }
                },
                None => {
                    best = Some(i);
                },
            }
        }
        i = i + 1;
    }
    best
}

/// The index of the voice a polyphonic note-on takes.
fn slot_index(voices: &Vec<Voice>) -> (r: usize)
    requires
        voices.len() >= 1,
    ensures
        r < voices.len(),
        r == poly_slot(voices@),
{
    let mut oldest: usize = 0;
    let mut max_sample_count: u64 = 0;
    let mut i: usize = 0;
    while i < voices.len()
        invariant
            0 <= i <= voices.len(),
            forall|j: int| 0 <= j < i ==> (#[trigger] voices@[j]).is_active(),
            i > 0 ==> is_oldest_upto(voices@, i as int, oldest as int),
            i > 0 ==> max_sample_count == voices@[oldest as int].playhead,
            i == 0 ==> max_sample_count == 0,
        decreases voices.len() - i,
    {
        if voices[i].note.is_none() {
            proof {
                assert(is_first_free(voices@, i as int));
                lemma_first_free_unique_choose(voices@, i as int);
            }
            return i;
        } else if voices[i].playhead >= max_sample_count {
            max_sample_count = voices[i].playhead;
            oldest = i;
        }
        i = i + 1;
    }
    proof {
        assert(!exists|k: int| is_first_free(voices@, k));
        let c = choose|k: int| is_oldest_upto(voices@, voices.len() as int, k);
        lemma_oldest_unique(voices@, voices.len() as int, c, oldest as int);
    }
    oldest
}

proof fn lemma_first_free_unique_choose(voices: Seq<Voice>, i: int)
    requires
        is_first_free(voices, i),
    ensures
        poly_slot(voices) == i,
{
    let c = choose|k: int| is_first_free(voices, k);
    lemma_first_free_unique(voices, c, i);
}

/// The index of the voice a polyphonic note-off of `hz` releases, if any.
fn release_index(voices: &Vec<Voice>, hz: NoteHz) -> (r: Option<usize>)
    ensures
        match r {
            Some(i) => is_release_target(voices@, hz, i as int),
            None => forall|j: int| 0 <= j < voices.len() ==> !note_matches(#[trigger] voices@[j], hz),
        },
{
    let mut found: Option<usize> = None;
    let mut i: usize = 0;
    while i < voices.len()
        invariant
            0 <= i <= voices.len(),
            match found {
                Some(b) => {
                    &&& b < i
                    &&& note_matches(voices@[b as int], hz)
                    &&& forall|j: int| 0 <= j < i && note_matches(#[trigger] voices@[j], hz) ==> voices@[j].playhead <= voices@[b as int].playhead
                    &&& forall|j: int| b < j < i && note_matches(#[trigger] voices@[j], hz) ==> voices@[j].playhead < voices@[b as int].playhead
                },
                None => forall|j: int| 0 <= j < i ==> !note_matches(#[trigger] voices@[j], hz),
            },
        decreases voices.len() - i,
    {
        if does_note_match(&voices[i], hz) {
            match found {
                Some(b) => {
                    if voices[i].playhead >= voices[b].playhead {
                        found = Some(i);
                    }
                },
                None => {
                    found = Some(i);
                },
            }
        }
        i = i + 1;
    }
    found
}

impl Poly {
    /// The effect of `note_on`: the voice at `poly_slot` holds a new note of
    /// `note_hz` and `vel` with its playhead at zero, on a trajectory that `gen`
    /// made with the newest active voice as the one to glide from; the other
    /// voices are kept. With no voices nothing changes.
    pub open spec fn note_on_post<F: Fn(NoteHz, i64) -> Pitch>(
        voices: Seq<Voice>,
        voices2: Seq<Voice>,
        note_hz: NoteHz,
        vel: NoteVelocity,
        detune: u32,
        gen: DynamicGenerator,
        tuning: F,
    ) -> bool {
        if voices.len() == 0 {
            voices2 == voices
        } else {
            let k = poly_slot(voices);
            let freq = voices2[k].note.unwrap().freq;
            &&& voices2 == voices.update(k, Voice { note: Some(Note::playing(note_hz, freq, vel)), playhead: 0 })
            &&& gen.generates(tuning, note_hz, detune, newest_voice(voices), freq)
        }
    }

    /// The effect of `note_off`: of the voices whose note matches `note_hz`, the
    /// one picked by `is_release_target` is released; with none, nothing changes.
    pub open spec fn note_off_post(voices: Seq<Voice>, voices2: Seq<Voice>, note_hz: NoteHz) -> bool {
        if exists|i: int| is_release_target(voices, note_hz, i) {
            let i = choose|i: int| is_release_target(voices, note_hz, i);
            voices2 == voices.update(i, voices[i].released())
        } else {
            voices2 == voices
        }
    }

    /// Starts a note of `note_hz` on a free voice, or on the voice with the
    /// largest playhead if none is free.
    pub fn note_on<F: Fn(NoteHz, i64) -> Pitch>(
        &mut self,
        note_hz: NoteHz,
        note_vel: NoteVelocity,
        detune: u32,
        note_freq_gen: &DynamicGenerator,
        voices: &mut Vec<Voice>,
        tuning: &F,
    )
        requires
            can_tune(*tuning),
        ensures
            final(voices).len() == old(voices).len(),
            Poly::note_on_post(old(voices)@, final(voices)@, note_hz, note_vel, detune, *note_freq_gen, *tuning),
    {
        let newest = newest_index(voices);
        let reference = match newest {
            Some(i) => Some(voices[i]),
            None => None,
        };
        proof {
            let n = voices.len() as int;
            match newest {
                Some(i) => {
                    let c = choose|k: int| is_newest_upto(voices@, n, k);
                    lemma_newest_unique(voices@, n, c, i as int);
                },
                None => {
                    assert(!exists|k: int| is_newest_upto(voices@, n, k));
                },
            }
        }
        let freq = note_freq_gen.generate(note_hz, detune, reference, tuning);
        if voices.len() == 0 {
            return;
        }
        let k = slot_index(voices);
        let mut v = voices[k];
        v.reset_playhead();
        v.note_on(note_hz, freq, note_vel);
        voices.set(k, v);
    }

    /// Releases the matching note with the largest playhead, held or fading.
    pub fn note_off(&mut self, note_hz: NoteHz, voices: &mut Vec<Voice>)
        ensures
            final(voices).len() == old(voices).len(),
            Poly::note_off_post(old(voices)@, final(voices)@, note_hz),
    {
        match release_index(voices, note_hz) {
            Some(i) => {
                proof {
                    let c = choose|k: int| is_release_target(voices@, note_hz, k);
                    lemma_release_target_unique(voices@, note_hz, c, i as int);
                }
                let mut v = voices[i];
                v.note_off();
                voices.set(i, v);
            },
            None => {},
        }
    }

    /// Nothing to clear.
    pub fn stop(&mut self) {
    }
}

proof fn lemma_first_free_exists(voices: Seq<Voice>, i: int)
    requires
        0 <= i < voices.len(),
        !voices[i].is_active(),
    ensures
        exists|k: int| is_first_free(voices, k),
    decreases i,
{
    if forall|j: int| 0 <= j < i ==> (#[trigger] voices[j]).is_active() {
        assert(is_first_free(voices, i));
    } else {
        let j = choose|j: int| 0 <= j < i && !(#[trigger] voices[j]).is_active();
        lemma_first_free_exists(voices, j);
    }
}

proof fn lemma_oldest_exists(voices: Seq<Voice>, n: int)
    requires
        1 <= n <= voices.len(),
    ensures
        exists|k: int| is_oldest_upto(voices, n, k),
    decreases n,
{
    if n == 1 {
        assert(is_oldest_upto(voices, 1, 0));
    } else {
        let m = n - 1;
        lemma_oldest_exists(voices, m);
        let o = choose|k: int| #[trigger] is_oldest_upto(voices, m, k);
        if voices[n - 1].playhead >= voices[o].playhead {
            assert(is_oldest_upto(voices, n, n - 1));
        } else {
            assert(is_oldest_upto(voices, n, o));
        }
    }
}

/// A polyphonic note-on takes the first free voice if there is one; if every
/// voice is busy it takes the one with the largest playhead (the last of those)
/// and drops its note. The voice taken holds the new note with its playhead at
/// zero, and every other voice is kept.
pub proof fn poly_note_on_allocation<F: Fn(NoteHz, i64) -> Pitch>(
    voices: Seq<Voice>,
    voices2: Seq<Voice>,
    note_hz: NoteHz,
    vel: NoteVelocity,
    detune: u32,
    gen: DynamicGenerator,
    tuning: F,
)
    requires
        voices.len() >= 1,
        Poly::note_on_post(voices, voices2, note_hz, vel, detune, gen, tuning),
    ensures
        exists|k: int| {
            &&& 0 <= k < voices.len()
            &&& voices2.len() == voices.len()
            &&& voices2[k] == (Voice { note: Some(Note::playing(note_hz, voices2[k].note.unwrap().freq, vel)), playhead: 0 })
            &&& forall|j: int| 0 <= j < voices.len() && j != k ==> #[trigger] voices2[j] == voices[j]
            &&& (exists|i: int| 0 <= i < voices.len() && !(#[trigger] voices[i]).is_active()) ==> is_first_free(voices, k)
            &&& !(exists|i: int| 0 <= i < voices.len() && !(#[trigger] voices[i]).is_active()) ==> {
                &&& is_oldest_upto(voices, voices.len() as int, k)
                &&& forall|j: int| 0 <= j < voices.len() ==> (#[trigger] voices[j]).is_active()
            }
        },
{
    let k = poly_slot(voices);
    if exists|i: int| 0 <= i < voices.len() && !(#[trigger] voices[i]).is_active() {
        let i = choose|i: int| 0 <= i < voices.len() && !(#[trigger] voices[i]).is_active();
        lemma_first_free_exists(voices, i);
    } else {
        lemma_oldest_exists(voices, voices.len() as int);
        assert(!exists|i: int| is_first_free(voices, i));
    }
    assert(0 <= k < voices.len());
}

proof fn lemma_count_update(voices: Seq<Voice>, k: int, v: Voice)
    requires
        0 <= k < voices.len(),
    ensures
        count_active(voices.update(k, v)) + (if voices[k].is_active() { 1int } else { 0int })
            == count_active(voices) + (if v.is_active() { 1int } else { 0int }),
    decreases voices.len(),
{
    let u = voices.update(k, v);
    if k == voices.len() - 1 {
        assert(u.drop_last() =~= voices.drop_last());
    } else {
        assert(u.drop_last() =~= voices.drop_last().update(k, v));
        lemma_count_update(voices.drop_last(), k, v);
    }
}

proof fn lemma_count_bounds(voices: Seq<Voice>)
    ensures
        count_active(voices) <= voices.len(),
        (forall|j: int| 0 <= j < voices.len() ==> (#[trigger] voices[j]).is_active()) ==> count_active(voices) == voices.len(),
        (exists|j: int| 0 <= j < voices.len() && !(#[trigger] voices[j]).is_active()) ==> count_active(voices) < voices.len(),
    decreases voices.len(),
{
    if voices.len() > 0 {
        let d = voices.drop_last();
        lemma_count_bounds(d);
        assert forall|j: int| 0 <= j < d.len() implies #[trigger] d[j] == voices[j] by {}
        if exists|j: int| 0 <= j < voices.len() && !(#[trigger] voices[j]).is_active() {
            let j = choose|j: int| 0 <= j < voices.len() && !(#[trigger] voices[j]).is_active();
            if j < d.len() {
                assert(!d[j].is_active());
            }
        }
    }
}

/// A polyphonic note-on adds one to the number of voices that hold a note,
/// unless every voice already holds one.
pub proof fn poly_note_on_count<F: Fn(NoteHz, i64) -> Pitch>(
    voices: Seq<Voice>,
    voices2: Seq<Voice>,
    note_hz: NoteHz,
    vel: NoteVelocity,
    detune: u32,
    gen: DynamicGenerator,
    tuning: F,
)
    requires
        voices.len() >= 1,
        Poly::note_on_post(voices, voices2, note_hz, vel, detune, gen, tuning),
    ensures
        count_active(voices) < voices.len() ==> count_active(voices2) == count_active(voices) + 1,
        count_active(voices) == voices.len() ==> count_active(voices2) == voices.len(),
{
    poly_note_on_allocation(voices, voices2, note_hz, vel, detune, gen, tuning);
    let k = choose|k: int| {
        &&& 0 <= k < voices.len()
        &&& voices2.len() == voices.len()
        &&& voices2[k] == (Voice { note: Some(Note::playing(note_hz, voices2[k].note.unwrap().freq, vel)), playhead: 0 })
        &&& forall|j: int| 0 <= j < voices.len() && j != k ==> #[trigger] voices2[j] == voices[j]
        &&& (exists|i: int| 0 <= i < voices.len() && !(#[trigger] voices[i]).is_active()) ==> is_first_free(voices, k)
        &&& !(exists|i: int| 0 <= i < voices.len() && !(#[trigger] voices[i]).is_active()) ==> {
            &&& is_oldest_upto(voices, voices.len() as int, k)
            &&& forall|j: int| 0 <= j < voices.len() ==> (#[trigger] voices[j]).is_active()
        }
    };
    assert(voices2 =~= voices.update(k, voices2[k]));
    lemma_count_update(voices, k, voices2[k]);
    lemma_count_bounds(voices);
}

/// The playback mode, chosen at run time.
#[derive(Clone, Debug, PartialEq)]
pub enum Dynamic {
    /// One note at a time on every voice, with a stack of fallback notes.
    Mono(Mono),
    /// One note per voice.
    Poly(Poly),
}

impl Dynamic {
    /// A `Retrigger` monophonic mode.
    pub fn retrigger() -> (r: Dynamic)
        ensures
            r matches Dynamic::Mono(m) && m.0 == MonoKind::Retrigger && m.1@.len() == 0,
    {
        Dynamic::Mono(Mono::retrigger())
    }

    /// A `Legato` monophonic mode.
    pub fn legato() -> (r: Dynamic)
        ensures
            r matches Dynamic::Mono(m) && m.0 == MonoKind::Legato && m.1@.len() == 0,
    {
        Dynamic::Mono(Mono::legato())
    }

    /// A polyphonic mode.
    pub fn poly() -> (r: Dynamic)
        ensures
            r == Dynamic::Poly(Poly),
    {
        Dynamic::Poly(Poly)
    }

    /// The stack of fallback notes: empty in polyphonic mode.
    pub open spec fn stack(self) -> Seq<NoteHz> {
        match self {
            Dynamic::Mono(m) => m.1@,
            Dynamic::Poly(_) => Seq::empty(),
        }
    }

    /// `after` is the mode that `stop` leaves: the same variant and kind, with an
    /// empty stack.
    pub open spec fn stopped(self, after: Dynamic) -> bool {
        match (self, after) {
            (Dynamic::Mono(a), Dynamic::Mono(b)) => b.0 == a.0 && b.1@.len() == 0,
            (Dynamic::Poly(_), Dynamic::Poly(_)) => true,
            _ => false,
        }
    }

    /// The effect of `note_on` in the active mode.
    pub open spec fn note_on_post<F: Fn(NoteHz, i64) -> Pitch>(
        self,
        voices: Seq<Voice>,
        after: Dynamic,
        voices2: Seq<Voice>,
        note_hz: NoteHz,
        vel: NoteVelocity,
        detune: u32,
        gen: DynamicGenerator,
        tuning: F,
    ) -> bool {
        match (self, after) {
            (Dynamic::Mono(a), Dynamic::Mono(b)) => a.note_on_post(voices, b, voices2, note_hz, vel, detune, gen, tuning),
            (Dynamic::Poly(_), Dynamic::Poly(_)) => Poly::note_on_post(voices, voices2, note_hz, vel, detune, gen, tuning),
            _ => false,
        }
    }

    /// The effect of `note_off` in the active mode.
    pub open spec fn note_off_post<F: Fn(NoteHz, i64) -> Pitch>(
        self,
        voices: Seq<Voice>,
        after: Dynamic,
        voices2: Seq<Voice>,
        note_hz: NoteHz,
        detune: u32,
        gen: DynamicGenerator,
        tuning: F,
    ) -> bool {
        match (self, after) {
            (Dynamic::Mono(a), Dynamic::Mono(b)) => a.note_off_post(voices, b, voices2, note_hz, detune, gen, tuning),
            (Dynamic::Poly(_), Dynamic::Poly(_)) => Poly::note_off_post(voices, voices2, note_hz),
            _ => false,
        }
    }

    /// Handles a note-on in the active mode.
    pub fn note_on<F: Fn(NoteHz, i64) -> Pitch>(
        &mut self,
        note_hz: NoteHz,
        note_vel: NoteVelocity,
        detune: u32,
        note_freq_gen: &DynamicGenerator,
        voices: &mut Vec<Voice>,
        tuning: &F,
    )
        requires
            old(voices).len() >= 1,
            can_tune(*tuning),
        ensures
            final(voices).len() == old(voices).len(),
            old(self).note_on_post(old(voices)@, *final(self), final(voices)@, note_hz, note_vel, detune, *note_freq_gen, *tuning),
    {
        match self {
            Dynamic::Mono(mono) => mono.note_on(note_hz, note_vel, detune, note_freq_gen, voices, tuning),
            Dynamic::Poly(poly) => poly.note_on(note_hz, note_vel, detune, note_freq_gen, voices, tuning),
        }
    }

    /// Handles a note-off in the active mode.
    pub fn note_off<F: Fn(NoteHz, i64) -> Pitch>(
        &mut self,
        note_hz: NoteHz,
        detune: u32,
        note_freq_gen: &DynamicGenerator,
        voices: &mut Vec<Voice>,
        tuning: &F,
    )
        requires
            old(voices).len() >= 1,
            can_tune(*tuning),
        ensures
            final(voices).len() == old(voices).len(),
            old(self).note_off_post(old(voices)@, *final(self), final(voices)@, note_hz, detune, *note_freq_gen, *tuning),
    {
        match self {
            Dynamic::Mono(mono) => mono.note_off(note_hz, detune, note_freq_gen, voices, tuning),
            Dynamic::Poly(poly) => poly.note_off(note_hz, voices),
        }
    }

    /// Handles a stop in the active mode.
    pub fn stop(&mut self)
        ensures
            old(self).stopped(*final(self)),
    {
        match self {
            Dynamic::Mono(mono) => mono.stop(),
            Dynamic::Poly(poly) => poly.stop(),
        }
    }
}

} // verus!
