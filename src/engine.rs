//! The synthesis engine: note events, per-sample voice advance, excitation
//! mixing and the resonator, one sample at a time.
use vstd::prelude::*;
use crate::envelope::{envelope_rate, rate_for, ACTIVITY_THRESHOLD};
use crate::excitation::{excitation, lemma_muted_sources_silent, mix_excitation, SAMPLE_ONE};
use crate::params::{KarplusParameters, PARAM_ONE, SOURCE_COUNT};
use crate::resonator::{delay_length, delay_length_for, peak_within, resonate, Resonator, MIN_DELAY};
use crate::voice::{advance_voices, released_if, Voice, VoiceTracker};

verus! {

/// MIDI status byte of a note-on on the first channel.
pub const NOTE_ON: u8 = 144;

/// MIDI status byte of a note-off on the first channel.
pub const NOTE_OFF: u8 = 128;

/// Sample rate of a default engine, in samples per second.
pub const DEFAULT_SAMPLE_RATE: u32 = 44100;

/// Fundamental of a default engine's resonator, in Hz.
pub const DEFAULT_FUNDAMENTAL: u32 = 220;

/// Relies on rand::random: a uniformly drawn `i16` from the thread's
/// generator. Nothing is known of its value.
#[verifier::external_body]
fn random_i16() -> (r: i16) {
    rand::random::<i16>()
}

/// The voices after one note event: a note-on starts a voice, a note-off
/// releases every voice of its pitch, any other message changes nothing.
pub open spec fn apply_event(s: Seq<Voice>, event: [u8; 3]) -> Seq<Voice> {
    if event@[0] == NOTE_ON {
        s.push(Voice { pitch: event@[1], envelope: 0, released: false })
    } else if event@[0] == NOTE_OFF {
        s.map_values(|v: Voice| released_if(v, event@[1]))
    } else {
        s
    }
}

/// The voices after a sequence of note events, applied in order.
pub open spec fn apply_events(s: Seq<Voice>, events: Seq<[u8; 3]>) -> Seq<Voice>
    decreases events.len(),
{
    if events.len() == 0 {
        s
    } else {
        apply_event(apply_events(s, events.drop_last()), events.last())
    }
}

/// The phase counter after one rendered sample: it advances only while a
/// voice sounds, and stops at its largest value.
pub open spec fn next_elapsed(elapsed: u64, sounding: bool) -> u64 {
    if sounding && elapsed < u64::MAX {
        (elapsed + 1) as u64
    } else {
        elapsed
    }
}

/// `fields` with each voice's white-noise slot replaced by a sample in
/// `[-SAMPLE_ONE, SAMPLE_ONE)`, every other slot kept.
pub open spec fn white_filled(fields: Seq<[i32; SOURCE_COUNT]>, filled: Seq<[i32; SOURCE_COUNT]>) -> bool {
    &&& filled.len() == fields.len()
    &&& forall|i: int, k: int|
        0 <= i < fields.len() && 1 <= k < SOURCE_COUNT ==> #[trigger] filled[i]@[k] == fields[i]@[k]
    &&& forall|i: int| 0 <= i < fields.len() ==> -SAMPLE_ONE <= #[trigger] filled[i]@[0] < SAMPLE_ONE
}

/// With every mix level at zero a silent engine stays silent: whatever voices
/// sound and whatever their sources' samples, the next output is 0.0 and the
/// delay line stays all zero, so every later sample is silent too.
pub proof fn lemma_muted_engine_silent(
    history: Seq<i32>,
    voices: Seq<Voice>,
    fields: Seq<[i32; SOURCE_COUNT]>,
    levels: Seq<u32>,
    damping: int,
)
    requires
        history.len() >= MIN_DELAY,
        peak_within(history, 0),
        levels.len() == SOURCE_COUNT,
        forall|j: int| 0 <= j < levels.len() ==> #[trigger] levels[j] == 0,
    ensures
        resonate(history, excitation(voices, fields, levels), damping) == 0,
        peak_within(history.drop_first().push(0i32), 0),
{
    lemma_muted_sources_silent(voices, fields, levels);
    assert(history[0] == 0 && history[1] == 0);
    let s = history.drop_first().push(0i32);
    assert forall|i: int| 0 <= i < s.len() implies -0 <= #[trigger] s[i] <= 0 by {
        if i < s.len() - 1 {
            assert(s[i] == history[i + 1]);
        }
    }
}

/// A polyphonic plucked-string synthesiser.
pub struct Karplus {
    /// The tunable parameters, read at every sample.
    pub params: KarplusParameters,
    /// The sounding voices.
    pub tracker: VoiceTracker,
    /// Samples per second.
    pub sample_rate: u32,
    /// The resonator's fundamental, in Hz; sets the delay line's length.
    pub fundamental: u32,
    /// Samples rendered while a voice sounded: the phase of the noise fields.
    pub elapsed: u64,
    /// The delay line, which persists across blocks.
    pub resonator: Resonator,
}

impl Karplus {
    /// The voice set and the delay line keep their invariants.
    pub open spec fn wf(&self) -> bool {
        self.tracker.wf() && self.resonator.wf()
    }

    /// Envelope rise per sample under the current parameters.
    pub open spec fn attack_rate(&self) -> int {
        rate_for(self.sample_rate as int, self.params.attack_ms as int)
    }

    /// Envelope fall per sample under the current parameters.
    pub open spec fn release_rate(&self) -> int {
        rate_for(self.sample_rate as int, self.params.release_ms as int)
    }

    /// An engine with default parameters, no voices and a silent delay line
    /// tuned to `fundamental` Hz at `sample_rate`.
    pub fn new(sample_rate: u32, fundamental: u32) -> (r: Karplus)
        ensures
            r.wf(),
            r.params.levels@ == seq![PARAM_ONE, 0u32, 0u32, 0u32, 0u32, 0u32, 0u32, 0u32, 0u32, 0u32],
            r.params.attack_ms == 500,
            r.params.release_ms == 500,
            r.params.damping == 996,
            r.tracker@ == Seq::<Voice>::empty(),
            r.sample_rate == sample_rate,
            r.fundamental == fundamental,
            r.elapsed == 0,
            r.resonator@ == Seq::new(
                delay_length(sample_rate as int, fundamental as int) as nat,
                |i: int| 0i32,
            ),
    {
        let len = delay_length_for(sample_rate, fundamental);
        Karplus {
            params: KarplusParameters::default(),
            tracker: VoiceTracker::new(),
            sample_rate,
            fundamental,
            elapsed: 0,
            resonator: Resonator::new(len),
        }
    }

    /// Takes a new sample rate; the delay line is retuned to it and cleared.
    pub fn set_sample_rate(&mut self, rate: u32)
        requires
            old(self).wf(),
        ensures
            final(self).wf(),
            final(self).sample_rate == rate,
            final(self).resonator@ == Seq::new(
                delay_length(rate as int, old(self).fundamental as int) as nat,
                |i: int| 0i32,
            ),
            final(self).params == old(self).params,
            final(self).tracker == old(self).tracker,
            final(self).fundamental == old(self).fundamental,
            final(self).elapsed == old(self).elapsed,
    {
        self.sample_rate = rate;
        let len = delay_length_for(rate, self.fundamental);
        self.resonator = Resonator::new(len);
    }

    /// Starts a new voice of `pitch`.
    pub fn note_on(&mut self, pitch: u8)
        requires
            old(self).wf(),
        ensures
            final(self).wf(),
            final(self).tracker@ == old(self).tracker@.push(
                Voice { pitch, envelope: 0, released: false },
            ),
            final(self).params == old(self).params,
            final(self).resonator == old(self).resonator,
            final(self).sample_rate == old(self).sample_rate,
            final(self).fundamental == old(self).fundamental,
            final(self).elapsed == old(self).elapsed,
    {
        self.tracker.note_on(pitch);
    }

    /// Releases every voice of `pitch`.
    pub fn note_off(&mut self, pitch: u8)
        requires
            old(self).wf(),
        ensures
            final(self).wf(),
            final(self).tracker@ == old(self).tracker@.map_values(|v: Voice| released_if(v, pitch)),
            final(self).params == old(self).params,
            final(self).resonator == old(self).resonator,
            final(self).sample_rate == old(self).sample_rate,
            final(self).fundamental == old(self).fundamental,
            final(self).elapsed == old(self).elapsed,
    {
        self.tracker.note_off(pitch);
        assert(self.tracker@ =~= old(self).tracker@.map_values(|v: Voice| released_if(v, pitch)));
    }

    /// Applies raw three-byte MIDI messages in order: status 144 starts a
    /// note, status 128 releases one, anything else is ignored.
    pub fn process_events(&mut self, events: &Vec<[u8; 3]>)
        requires
            old(self).wf(),
        ensures
            final(self).wf(),
            final(self).tracker@ == apply_events(old(self).tracker@, events@),
            final(self).params == old(self).params,
            final(self).resonator == old(self).resonator,
            final(self).sample_rate == old(self).sample_rate,
            final(self).fundamental == old(self).fundamental,
            final(self).elapsed == old(self).elapsed,
    {
        let mut i: usize = 0;
        while i < events.len()
            invariant
                0 <= i <= events.len(),
                self.wf(),
                self.tracker@ == apply_events(old(self).tracker@, events@.subrange(0, i as int)),
                self.params == old(self).params,
                self.resonator == old(self).resonator,
                self.sample_rate == old(self).sample_rate,
                self.fundamental == old(self).fundamental,
                self.elapsed == old(self).elapsed,
            decreases events.len() - i,
        {
            let event = events[i];
            proof {
                let s = events@.subrange(0, i as int + 1);
                assert(s.drop_last() =~= events@.subrange(0, i as int));
                assert(s.last() == event);
            }
            if event[0] == NOTE_ON {
                self.note_on(event[1]);
            } else if event[0] == NOTE_OFF {
                self.note_off(event[1]);
            }
            i += 1;
        }
        assert(events@.subrange(0, events.len() as int) =~= events@);
    }

    /// Advances every envelope by one sample at the rates that the current
    /// parameters give, and removes the voices that have fallen silent.
    pub fn advance(&mut self)
        requires
            old(self).wf(),
        ensures
            final(self).wf(),
            final(self).tracker@ == advance_voices(
                old(self).tracker@,
                old(self).attack_rate(),
                old(self).release_rate(),
            ),
            final(self).params == old(self).params,
            final(self).resonator == old(self).resonator,
            final(self).sample_rate == old(self).sample_rate,
            final(self).fundamental == old(self).fundamental,
            final(self).elapsed == old(self).elapsed,
    {
        let attack = envelope_rate(self.sample_rate, self.params.attack_ms);
        let release = envelope_rate(self.sample_rate, self.params.release_ms);
        self.tracker.advance_and_prune(attack, release);
    }

    /// Renders one sample from every source's sample for each voice:
    /// `fields[i]` holds voice `i`'s samples in 16.16 fixed point. The
    /// excitation is mixed from the current envelopes, fed through the
    /// resonator, and the phase counter advances while a voice sounds.
    pub fn render_with(&mut self, fields: &Vec<[i32; SOURCE_COUNT]>) -> (y: i32)
        requires
            old(self).wf(),
            fields.len() == old(self).tracker@.len(),
        ensures
            final(self).wf(),
            y == resonate(
                old(self).resonator@,
                excitation(old(self).tracker@, fields@, old(self).params.levels@),
                old(self).params.damping as int,
            ),
            final(self).resonator@ == old(self).resonator@.drop_first().push(y),
            final(self).elapsed == next_elapsed(old(self).elapsed, old(self).tracker@.len() > 0),
            final(self).params == old(self).params,
            final(self).tracker == old(self).tracker,
            final(self).sample_rate == old(self).sample_rate,
            final(self).fundamental == old(self).fundamental,
    {
        let voices = self.tracker.voices();
        let signal = mix_excitation(voices, fields, &self.params.levels);
        if voices.len() > 0 && self.elapsed < u64::MAX {
            self.elapsed = self.elapsed + 1;
        }
        self.resonator.step(signal, self.params.damping)
    }

    /// Renders one sample as `render_with` does, after drawing a fresh white
    /// noise sample for each voice that the white source reaches; the caller
    /// supplies the coherent sources' samples, and the white slot it passes is
    /// not read.
    pub fn render(&mut self, fields: &Vec<[i32; SOURCE_COUNT]>) -> (y: i32)
        requires
            old(self).wf(),
            fields.len() == old(self).tracker@.len(),
        ensures
            final(self).wf(),
            exists|filled: Seq<[i32; SOURCE_COUNT]>|
                white_filled(fields@, filled) && y == resonate(
                    old(self).resonator@,
                    excitation(old(self).tracker@, filled, old(self).params.levels@),
                    old(self).params.damping as int,
                ),
            final(self).resonator@ == old(self).resonator@.drop_first().push(y),
            final(self).elapsed == next_elapsed(old(self).elapsed, old(self).tracker@.len() > 0),
            final(self).params == old(self).params,
            final(self).tracker == old(self).tracker,
            final(self).sample_rate == old(self).sample_rate,
            final(self).fundamental == old(self).fundamental,
    {
        let white_on = self.params.levels[0] > 0;
        let mut filled: Vec<[i32; SOURCE_COUNT]> = Vec::new();
        let n = fields.len();
        let mut i: usize = 0;
        while i < n
            invariant
                n == fields.len(),
                n == self.tracker@.len(),
                0 <= i <= n,
                filled@.len() == i,
                forall|a: int, k: int|
                    0 <= a < i && 1 <= k < SOURCE_COUNT ==> #[trigger] filled@[a]@[k] == fields@[a]@[k],
                forall|a: int| 0 <= a < i ==> -SAMPLE_ONE <= #[trigger] filled@[a]@[0] < SAMPLE_ONE,
            decreases n - i,
        {
            let mut values = fields[i];
            let envelope = self.tracker.voices()[i].envelope;
            if white_on && envelope > ACTIVITY_THRESHOLD {
                let draw = random_i16();
                values[0] = 2 * draw as i32;
            } else {
                values[0] = 0;
            }
            filled.push(values);
            i += 1;
        }
        assert(white_filled(fields@, filled@));
        self.render_with(&filled)
    }
}

impl Default for Karplus {
    /// An engine at 44100 samples per second whose delay line is tuned to
    /// 220 Hz, that is 200 samples long.
    fn default() -> (r: Karplus)
        ensures
            r.wf(),
            r.params.levels@ == seq![PARAM_ONE, 0u32, 0u32, 0u32, 0u32, 0u32, 0u32, 0u32, 0u32, 0u32],
            r.params.attack_ms == 500,
            r.params.release_ms == 500,
            r.params.damping == 996,
            r.tracker@ == Seq::<Voice>::empty(),
            r.sample_rate == DEFAULT_SAMPLE_RATE,
            r.fundamental == DEFAULT_FUNDAMENTAL,
            r.elapsed == 0,
            r.resonator@ == Seq::new(200, |i: int| 0i32),
    {
        let r = Karplus::new(DEFAULT_SAMPLE_RATE, DEFAULT_FUNDAMENTAL);
        assert(88420int / 440int == 200) by (nonlinear_arith);
        assert(delay_length(DEFAULT_SAMPLE_RATE as int, DEFAULT_FUNDAMENTAL as int) == 200);
        r
    }
}

} // verus!
