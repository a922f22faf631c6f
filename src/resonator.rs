//! The string resonator: a circular delay line with a damped two-tap average
//! fed back into it. The excitation is summed into the feedback path at every
//! sample, so the string is driven for as long as a voice sounds rather than
//! seeded once at note-on.
use vstd::prelude::*;
use crate::excitation::{clip, div_toward_zero, SAMPLE_LIMIT};
use crate::params::PARAM_ONE;

verus! {

/// Shortest delay line: the two taps must be distinct samples.
pub const MIN_DELAY: usize = 2;

/// The next output: the excitation plus the damped average of the two oldest
/// samples, clipped to the sample range.
pub open spec fn resonate(history: Seq<i32>, excitation: int, damping: int) -> int {
    clip(
        excitation + div_toward_zero(
            damping * (history[0] + history[1]),
            2 * PARAM_ONE,
        ),
    )
}

/// Every sample of `s` has magnitude at most `m`.
pub open spec fn peak_within(s: Seq<i32>, m: int) -> bool {
    forall|i: int| 0 <= i < s.len() ==> -m <= #[trigger] s[i] <= m
}

/// The delay line's length for a fundamental of `frequency` Hz at
/// `sample_rate` samples per second: the period rounded to the nearest
/// sample, and never below `MIN_DELAY`. Both inputs are floored at one.
pub open spec fn delay_length(sample_rate: int, frequency: int) -> int {
    let sr = if sample_rate < 1 { 1 } else { sample_rate };
    let f = if frequency < 1 { 1 } else { frequency };
    let n = (2 * sr + f) / (2 * f);
    if n < MIN_DELAY { MIN_DELAY as int } else { n }
}

/// With a damping factor of at most 1.0 the feedback never amplifies: the next
/// output is no larger in magnitude than the delay line's peak plus the
/// excitation, and without excitation it stays within the peak, so a ringing
/// string's peak never grows.
pub proof fn lemma_feedback_bounded(history: Seq<i32>, excitation: int, damping: int, m: int)
    requires
        history.len() >= MIN_DELAY,
        peak_within(history, m),
        0 <= damping <= PARAM_ONE,
    ensures
        excitation >= 0 ==> -(m + excitation) <= resonate(history, excitation, damping) <= m
            + excitation,
        excitation <= 0 ==> -(m - excitation) <= resonate(history, excitation, damping) <= m
            - excitation,
        excitation == 0 ==> peak_within(
            history.drop_first().push(resonate(history, excitation, damping) as i32),
            m,
        ),
{
    let t = history[0] + history[1];
    assert(-m <= history[0] <= m);
    assert(-m <= history[1] <= m);
    let mag = if t < 0 { -t } else { t };
    assert(0 <= damping * mag <= 2000 * m) by (nonlinear_arith)
        requires
            0 <= mag <= 2 * m,
            0 <= damping <= 1000,
    ;
    assert((damping * mag) / 2000 <= m) by (nonlinear_arith)
        requires
            0 <= damping * mag <= 2000 * m,
    ;
    assert(damping * t == if t < 0 { -(damping * mag) } else { damping * mag }) by (nonlinear_arith)
        requires
            mag == if t < 0 { -t } else { t },
    ;
    let y = resonate(history, excitation, damping);
    if excitation == 0 {
        let s = history.drop_first().push(y as i32);
        assert forall|i: int| 0 <= i < s.len() implies -m <= #[trigger] s[i] <= m by {
            if i < s.len() - 1 {
                assert(s[i] == history[i + 1]);
            }
        }
    }
}

/// The delay line after `n` samples of free ringing, with no excitation.
pub open spec fn ring(history: Seq<i32>, damping: int, n: nat) -> Seq<i32>
    decreases n,
{
    if n == 0 {
        history
    } else {
        let h = ring(history, damping, (n - 1) as nat);
        h.drop_first().push(resonate(h, 0, damping) as i32)
    }
}

/// With a damping factor of at most 1.0 a string left ringing stays within
/// its starting peak however long it rings: the feedback cannot explode.
pub proof fn lemma_ringing_never_grows(history: Seq<i32>, damping: int, m: int, n: nat)
    requires
        history.len() >= MIN_DELAY,
        peak_within(history, m),
        0 <= damping <= PARAM_ONE,
    ensures
        ring(history, damping, n).len() == history.len(),
        peak_within(ring(history, damping, n), m),
    decreases n,
{
    if n > 0 {
        lemma_ringing_never_grows(history, damping, m, (n - 1) as nat);
        lemma_feedback_bounded(ring(history, damping, (n - 1) as nat), 0, damping, m);
    }
}

/// A fixed-length delay line holding the most recent output samples.
pub struct Resonator {
    buffer: Vec<i32>,
    pos: usize,
}

impl View for Resonator {
    type V = Seq<i32>;

    /// The stored samples, oldest first.
    closed spec fn view(&self) -> Seq<i32> {
        Seq::new(
            self.buffer@.len(),
            |i: int|
                if self.pos + i < self.buffer@.len() {
                    self.buffer@[self.pos + i]
                } else {
                    self.buffer@[self.pos + i - self.buffer@.len()]
                },
        )
    }
}

/// The delay-line length of `delay_length`, computed.
pub fn delay_length_for(sample_rate: u32, frequency: u32) -> (r: usize)
    ensures
        r == delay_length(sample_rate as int, frequency as int),
{
    let sr: u64 = if sample_rate < 1 {
        1
    } else {
        sample_rate as u64
    };
    let f: u64 = if frequency < 1 {
        1
    } else {
        frequency as u64
    };
    let n: u64 = (2 * sr + f) / (2 * f);
    assert(n <= sr) by (nonlinear_arith)
        requires
            n == (2 * sr + f) / (2 * f),
            f >= 1,
            sr >= 1,
    ;
    if n < MIN_DELAY as u64 {
        MIN_DELAY
    } else {
        n as usize
    }
}

impl Resonator {
    /// The buffer is at least `MIN_DELAY` long, the write position lies in
    /// it, and no sample is below `-SAMPLE_LIMIT`.
    pub closed spec fn wf(&self) -> bool {
        &&& self.buffer@.len() >= MIN_DELAY
        &&& self.pos < self.buffer@.len()
        &&& peak_within(self.buffer@, SAMPLE_LIMIT as int)
    }

    /// A silent delay line of `len` samples.
    pub fn new(len: usize) -> (r: Resonator)
        requires
            len >= MIN_DELAY,
        ensures
            r.wf(),
            r@ == Seq::new(len as nat, |i: int| 0i32),
    {
        let mut buffer: Vec<i32> = Vec::new();
        let mut i: usize = 0;
        while i < len
            invariant
                0 <= i <= len,
                buffer@ == Seq::new(i as nat, |k: int| 0i32),
            decreases len - i,
        {
            buffer.push(0);
            i += 1;
        }
        let r = Resonator { buffer, pos: 0 };
        assert(r@ =~= Seq::new(len as nat, |i: int| 0i32));
        r
    }

    /// Number of samples in the delay line.
    pub fn len(&self) -> (r: usize)
        requires
            self.wf(),
        ensures
            r == self@.len(),
    {
        self.buffer.len()
    }

    /// Produces the next output from the excitation sample and the damping
    /// factor (thousandths), and stores it in place of the oldest sample.
    pub fn step(&mut self, excitation: i32, damping: u32) -> (y: i32)
        requires
            old(self).wf(),
        ensures
            final(self).wf(),
            y == resonate(old(self)@, excitation as int, damping as int),
            final(self)@ == old(self)@.drop_first().push(y),
    {
        let len = self.buffer.len();
        let a = self.buffer[self.pos];
        let next = if self.pos + 1 < len {
            self.pos + 1
        } else {
            0
        };
        let b = self.buffer[next];
        assert(self@[0] == a);
        assert(self@[1] == b);
        let total = a as i128 + b as i128;
        let d = damping as i128;
        let magnitude: i128 = if total < 0 {
            -total
        } else {
            total
        };
        assert(0 <= d * magnitude <= 0xffff_ffff * 0x1_0000_0000) by (nonlinear_arith)
            requires
                0 <= d <= 0xffff_ffff,
                0 <= magnitude <= 0x1_0000_0000,
        ;
        assert(d * total == if total < 0 { -(d * magnitude) } else { d * magnitude }) by (nonlinear_arith)
            requires
                magnitude == if total < 0 { -(total as int) } else { total as int },
        ;
        let q: i128 = (d * magnitude) / 2000;
        let feedback: i128 = if total < 0 {
            -q
        } else {
            q
        };
        let sum: i128 = excitation as i128 + feedback;
        let y: i32 = if sum > SAMPLE_LIMIT as i128 {
            SAMPLE_LIMIT
        } else if sum < -(SAMPLE_LIMIT as i128) {
            -SAMPLE_LIMIT
        } else {
            sum as i32
        };
        let ghost before = self@;
        self.buffer.set(self.pos, y);
        self.pos = next;
        assert(self@ =~= before.drop_first().push(y));
        y
    }
}

} // verus!
