//! Voices and the tracker that owns the set of sounding voices.
use vstd::prelude::*;
use crate::envelope::ENV_ONE;

verus! {

/// One sounding instance of a note.
#[derive(Clone, Copy, Debug)]
pub struct Voice {
    /// Note number, fixed for the voice's life.
    pub pitch: u8,
    /// Amplitude multiplier in billionths, in `[0, ENV_ONE]`.
    pub envelope: u64,
    /// Set by note-off; never cleared.
    pub released: bool,
}

/// The envelope of `v` after one sample: released voices fall by `release`,
/// others rise by `attack` until they reach the cap.
pub open spec fn stepped_envelope(v: Voice, attack: int, release: int) -> int {
    if v.released {
        v.envelope - release
    } else if v.envelope < ENV_ONE {
        if v.envelope + attack < ENV_ONE {
            v.envelope + attack
        } else {
            ENV_ONE as int
        }
    } else {
        v.envelope as int
    }
}

/// `v` with its envelope advanced by one sample.
pub open spec fn stepped(v: Voice, attack: int, release: int) -> Voice {
    Voice { pitch: v.pitch, envelope: stepped_envelope(v, attack, release) as u64, released: v.released }
}

/// Whether `v` is still sounding after one sample.
pub open spec fn survives(v: Voice, attack: int, release: int) -> bool {
    stepped_envelope(v, attack, release) > 0
}

/// Every voice advanced by one sample, with the voices whose envelope reached
/// zero or below removed; the order of the others is kept.
pub open spec fn advance_voices(s: Seq<Voice>, attack: int, release: int) -> Seq<Voice>
    decreases s.len(),
{
    if s.len() == 0 {
        Seq::empty()
    } else {
        let rest = advance_voices(s.drop_last(), attack, release);
        if survives(s.last(), attack, release) {
            rest.push(stepped(s.last(), attack, release))
        } else {
            rest
        }
    }
}

/// `v` marked released when it plays `pitch`, else unchanged.
pub open spec fn released_if(v: Voice, pitch: u8) -> Voice {
    if v.pitch == pitch {
        Voice { released: true, ..v }
    } else {
        v
    }
}

/// Every envelope lies in `[0, ENV_ONE]`.
pub open spec fn envelopes_bounded(s: Seq<Voice>) -> bool {
    forall|i: int| 0 <= i < s.len() ==> #[trigger] s[i].envelope <= ENV_ONE
}

/// While a voice is held its envelope never falls and never passes 1.0; once
/// released it never rises.
pub proof fn lemma_envelope_monotone(v: Voice, attack: int, release: int)
    requires
        v.envelope <= ENV_ONE,
        attack >= 0,
        release >= 0,
    ensures
        !v.released ==> v.envelope <= stepped_envelope(v, attack, release) <= ENV_ONE,
        v.released ==> stepped_envelope(v, attack, release) <= v.envelope,
{
}

/// One sample step removes a voice exactly in the step where its envelope
/// reaches zero or below: every voice left has an envelope in `(0, ENV_ONE]`
/// and is the stepped form of a surviving voice, and every surviving voice is
/// left. Nothing else enters the set.
pub proof fn lemma_prune_exact(s: Seq<Voice>, attack: int, release: int)
    requires
        envelopes_bounded(s),
        attack >= 0,
        release >= 0,
    ensures
        advance_voices(s, attack, release).len() <= s.len(),
        forall|k: int|
            0 <= k < advance_voices(s, attack, release).len() ==> 0
                < #[trigger] advance_voices(s, attack, release)[k].envelope <= ENV_ONE,
        forall|k: int|
            0 <= k < advance_voices(s, attack, release).len() ==> exists|j: int|
                0 <= j < s.len() && survives(s[j], attack, release) && #[trigger] advance_voices(
                    s,
                    attack,
                    release,
                )[k] == stepped(s[j], attack, release),
        forall|j: int|
            0 <= j < s.len() && #[trigger] survives(s[j], attack, release) ==> exists|k: int|
                0 <= k < advance_voices(s, attack, release).len() && advance_voices(
                    s,
                    attack,
                    release,
                )[k] == stepped(s[j], attack, release),
    decreases s.len(),
{
    if s.len() > 0 {
        let p = s.drop_last();
        lemma_prune_exact(p, attack, release);
        let rp = advance_voices(p, attack, release);
        let r = advance_voices(s, attack, release);
        let v = s.last();
        lemma_envelope_monotone(v, attack, release);
        assert forall|k: int| 0 <= k < r.len() implies exists|j: int|
            0 <= j < s.len() && survives(s[j], attack, release) && #[trigger] r[k] == stepped(
                s[j],
                attack,
                release,
            ) by {
            if k < rp.len() {
                let j = choose|j: int|
                    0 <= j < p.len() && survives(p[j], attack, release) && rp[k] == stepped(
                        p[j],
                        attack,
                        release,
                    );
                assert(s[j] == p[j]);
            } else {
                assert(s[s.len() - 1] == v);
            }
        }
        assert forall|j: int|
            0 <= j < s.len() && #[trigger] survives(s[j], attack, release) implies exists|k: int|
            0 <= k < r.len() && r[k] == stepped(s[j], attack, release) by {
            if j < p.len() {
                assert(s[j] == p[j]);
                let k = choose|k: int| 0 <= k < rp.len() && rp[k] == stepped(p[j], attack, release);
                assert(r[k] == rp[k]);
            } else {
                assert(r[r.len() - 1] == stepped(v, attack, release));
            }
        }
    }
}

/// The set of sounding voices, in order of their note-on.
pub struct VoiceTracker {
    voices: Vec<Voice>,
}

impl View for VoiceTracker {
    type V = Seq<Voice>;

    closed spec fn view(&self) -> Seq<Voice> {
        self.voices@
    }
}

impl VoiceTracker {
    /// Every envelope in the tracker lies in `[0, ENV_ONE]`.
    pub open spec fn wf(&self) -> bool {
        envelopes_bounded(self@)
    }

    /// A tracker with no voices.
    pub fn new() -> (r: VoiceTracker)
        ensures
            r@ == Seq::<Voice>::empty(),
            r.wf(),
    {
        VoiceTracker { voices: Vec::new() }
    }

    /// The sounding voices, oldest first.
    pub fn voices(&self) -> (r: &Vec<Voice>)
        ensures
            r@ == self@,
    {
        &self.voices
    }

    /// Starts a new voice at silence; an earlier voice of the same pitch keeps sounding.
    pub fn note_on(&mut self, pitch: u8)
        requires
            old(self).wf(),
        ensures
            final(self).wf(),
            final(self)@ == old(self)@.push(Voice { pitch, envelope: 0, released: false }),
    {
        self.voices.push(Voice { pitch, envelope: 0, released: false });
    }

    /// Releases every voice that plays `pitch`.
    pub fn note_off(&mut self, pitch: u8)
        requires
            old(self).wf(),
        ensures
            final(self).wf(),
            final(self)@.len() == old(self)@.len(),
            forall|i: int|
                0 <= i < old(self)@.len() ==> #[trigger] final(self)@[i] == released_if(
                    old(self)@[i],
                    pitch,
                ),
    {
        let n = self.voices.len();
        let mut i: usize = 0;
        while i < n
            invariant
                n == old(self)@.len(),
                self@.len() == n,
                0 <= i <= n,
                forall|j: int| 0 <= j < i ==> #[trigger] self@[j] == released_if(old(self)@[j], pitch),
                forall|j: int| i <= j < n ==> #[trigger] self@[j] == old(self)@[j],
                envelopes_bounded(old(self)@),
            decreases n - i,
        {
            if self.voices[i].pitch == pitch {
                let v = self.voices[i];
                self.voices.set(i, Voice { released: true, ..v });
            }
            i += 1;
        }
        assert(forall|j: int| 0 <= j < n ==> #[trigger] self@[j].envelope == old(self)@[j].envelope);
    }

    /// Advances every envelope by one sample and removes the voices whose
    /// envelope reached zero or below.
    pub fn advance_and_prune(&mut self, attack: u64, release: u64)
        requires
            old(self).wf(),
        ensures
            final(self).wf(),
            final(self)@ == advance_voices(old(self)@, attack as int, release as int),
    {
        let mut kept: Vec<Voice> = Vec::new();
        let n = self.voices.len();
        let mut i: usize = 0;
        while i < n
            invariant
                n == self@.len(),
                0 <= i <= n,
                kept@ == advance_voices(self@.subrange(0, i as int), attack as int, release as int),
                envelopes_bounded(self@),
                envelopes_bounded(kept@),
            decreases n - i,
        {
            let v = self.voices[i];
            let e: u64 = if v.released {
                if v.envelope > release {
                    v.envelope - release
                } else {
                    0
                }
            } else if v.envelope < ENV_ONE {
                if attack < ENV_ONE - v.envelope {
                    v.envelope + attack
                } else {
                    ENV_ONE
                }
            } else {
                v.envelope
            };
            proof {
                let s = self@.subrange(0, i as int + 1);
                assert(s.drop_last() =~= self@.subrange(0, i as int));
                assert(s.last() == v);
            }
            if e > 0 {
                kept.push(Voice { pitch: v.pitch, envelope: e, released: v.released });
            }
            i += 1;
        }
        assert(self@.subrange(0, n as int) =~= self@);
        self.voices = kept;
    }
}

} // verus!
