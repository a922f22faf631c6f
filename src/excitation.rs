//! The mixer that sums every source's contribution over the sounding voices.
use vstd::prelude::*;
use crate::envelope::{ACTIVITY_THRESHOLD, ENV_ONE};
use crate::params::{PARAM_ONE, SOURCE_COUNT};
use crate::voice::{envelopes_bounded, Voice};

verus! {

/// Samples are held as 16.16 fixed point: this value stands for 1.0.
pub const SAMPLE_ONE: i32 = 65536;

/// Largest magnitude of a sample; results beyond it are clipped.
pub const SAMPLE_LIMIT: i32 = 0x7fff_ffff;

/// The excitation sources, in the order of the parameter table.
#[derive(Clone, Copy, Debug, PartialEq, Eq)]
pub enum SourceKind {
    WhiteNoise,
    Perlin,
    Value,
    Worley,
    RidgedMulti,
    OpenSimplex,
    Billow,
    Cylinders,
    HybridMulti,
    BasicMulti,
}

/// Position of a source in the parameter table and in a voice's sample array.
pub open spec fn source_slot(k: SourceKind) -> int {
    match k {
        SourceKind::WhiteNoise => 0,
        SourceKind::Perlin => 1,
        SourceKind::Value => 2,
        SourceKind::Worley => 3,
        SourceKind::RidgedMulti => 4,
        SourceKind::OpenSimplex => 5,
        SourceKind::Billow => 6,
        SourceKind::Cylinders => 7,
        SourceKind::HybridMulti => 8,
        SourceKind::BasicMulti => 9,
    }
}

impl SourceKind {
    /// Position of the source in the parameter table and in a voice's sample array.
    pub fn slot(&self) -> (r: usize)
        ensures
            r == source_slot(*self),
            r < SOURCE_COUNT,
    {
        match self {
            SourceKind::WhiteNoise => 0,
            SourceKind::Perlin => 1,
            SourceKind::Value => 2,
            SourceKind::Worley => 3,
            SourceKind::RidgedMulti => 4,
            SourceKind::OpenSimplex => 5,
            SourceKind::Billow => 6,
            SourceKind::Cylinders => 7,
            SourceKind::HybridMulti => 8,
            SourceKind::BasicMulti => 9,
        }
    }
}

/// `x` clipped to `[-SAMPLE_LIMIT, SAMPLE_LIMIT]`.
pub open spec fn clip(x: int) -> int {
    if x > SAMPLE_LIMIT {
        SAMPLE_LIMIT as int
    } else if x < -SAMPLE_LIMIT {
        -SAMPLE_LIMIT
    } else {
        x
    }
}

/// Division rounding toward zero, for a positive divisor.
pub open spec fn div_toward_zero(x: int, d: int) -> int {
    if x < 0 {
        -((-x) / d)
    } else {
        x / d
    }
}

/// A source sample scaled by a mix level (thousandths) and an envelope (billionths).
pub open spec fn scaled(value: int, level: int, envelope: int) -> int {
    div_toward_zero(value * level * envelope, PARAM_ONE * ENV_ONE)
}

/// What source `j` adds for voice `v`: nothing when the source is off or the
/// voice is below the activity threshold.
pub open spec fn contribution(v: Voice, values: Seq<i32>, levels: Seq<u32>, j: int) -> int {
    if levels[j] > 0 && v.envelope > ACTIVITY_THRESHOLD {
        scaled(values[j] as int, levels[j] as int, v.envelope as int)
    } else {
        0
    }
}

/// Sum of the first `n` sources' contributions for voice `v`.
pub open spec fn voice_sum(v: Voice, values: Seq<i32>, levels: Seq<u32>, n: int) -> int
    decreases n,
{
    if n <= 0 {
        0
    } else {
        voice_sum(v, values, levels, n - 1) + contribution(v, values, levels, n - 1)
    }
}

/// Sum over the first `n` voices of every source's contribution.
pub open spec fn mix_sum(
    voices: Seq<Voice>,
    fields: Seq<[i32; SOURCE_COUNT]>,
    levels: Seq<u32>,
    n: int,
) -> int
    decreases n,
{
    if n <= 0 {
        0
    } else {
        mix_sum(voices, fields, levels, n - 1) + voice_sum(
            voices[n - 1],
            fields[n - 1]@,
            levels,
            SOURCE_COUNT as int,
        )
    }
}

/// The excitation sample: the mix over every voice, clipped to the sample range.
pub open spec fn excitation(
    voices: Seq<Voice>,
    fields: Seq<[i32; SOURCE_COUNT]>,
    levels: Seq<u32>,
) -> int {
    clip(mix_sum(voices, fields, levels, voices.len() as int))
}

proof fn lemma_muted_voice_sum(v: Voice, values: Seq<i32>, levels: Seq<u32>, n: int)
    requires
        forall|j: int| 0 <= j < levels.len() ==> #[trigger] levels[j] == 0,
        n <= levels.len(),
    ensures
        voice_sum(v, values, levels, n) == 0,
    decreases n,
{
    if n > 0 {
        lemma_muted_voice_sum(v, values, levels, n - 1);
    }
}

proof fn lemma_muted_mix_sum(
    voices: Seq<Voice>,
    fields: Seq<[i32; SOURCE_COUNT]>,
    levels: Seq<u32>,
    n: int,
)
    requires
        levels.len() == SOURCE_COUNT,
        forall|j: int| 0 <= j < levels.len() ==> #[trigger] levels[j] == 0,
    ensures
        mix_sum(voices, fields, levels, n) == 0,
    decreases n,
{
    if n > 0 {
        lemma_muted_mix_sum(voices, fields, levels, n - 1);
        lemma_muted_voice_sum(voices[n - 1], fields[n - 1]@, levels, SOURCE_COUNT as int);
    }
}

/// With every mix level at zero the excitation is silence, whatever the
/// voices and whatever their sources' samples.
pub proof fn lemma_muted_sources_silent(
    voices: Seq<Voice>,
    fields: Seq<[i32; SOURCE_COUNT]>,
    levels: Seq<u32>,
)
    requires
        levels.len() == SOURCE_COUNT,
        forall|j: int| 0 <= j < levels.len() ==> #[trigger] levels[j] == 0,
    ensures
        excitation(voices, fields, levels) == 0,
{
    lemma_muted_mix_sum(voices, fields, levels, voices.len() as int);
}

/// Largest magnitude of one contribution.
pub const TERM_BOUND: i128 = 0x40_0000_0000_0000;

proof fn lemma_contribution_bounded(v: Voice, values: Seq<i32>, levels: Seq<u32>, j: int)
    requires
        v.envelope <= ENV_ONE,
        0 <= j < values.len(),
        0 <= j < levels.len(),
    ensures
        -TERM_BOUND <= contribution(v, values, levels, j) <= TERM_BOUND,
{
    if levels[j] > 0 && v.envelope > ACTIVITY_THRESHOLD {
        let x = values[j] as int;
        let l = levels[j] as int;
        let e = v.envelope as int;
        let m = if x < 0 { -x } else { x };
        assert(0 <= m * l * e <= 0x8000_0000 * 0xffff_ffff * 1_000_000_000) by (nonlinear_arith)
            requires
                0 <= m <= 0x8000_0000,
                0 <= l <= 0xffff_ffff,
                0 <= e <= 1_000_000_000,
        ;
        assert(x * l * e == if x < 0 { -(m * l * e) } else { m * l * e }) by (nonlinear_arith)
            requires
                m == if x < 0 { -x } else { x },
        ;
        let q = (m * l * e) / 1_000_000_000_000;
        assert(0 <= q <= TERM_BOUND) by (nonlinear_arith)
            requires
                0 <= m * l * e <= 0x8000_0000 * 0xffff_ffff * 1_000_000_000,
                q == (m * l * e) / 1_000_000_000_000,
        ;
    }
}

/// The contribution of source `j` for voice `v`, computed as the contract states.
fn contribution_of(v: Voice, values: &[i32; SOURCE_COUNT], levels: &[u32; SOURCE_COUNT], j: usize) -> (r: i128)
    requires
        v.envelope <= ENV_ONE,
        j < SOURCE_COUNT,
    ensures
        r == contribution(v, values@, levels@, j as int),
        -TERM_BOUND <= r <= TERM_BOUND,
{
    proof {
        lemma_contribution_bounded(v, values@, levels@, j as int);
    }
    if levels[j] > 0 && v.envelope > ACTIVITY_THRESHOLD {
        let x = values[j] as i128;
        let m: i128 = if x < 0 {
            -x
        } else {
            x
        };
        let l = levels[j] as i128;
        let e = v.envelope as i128;
        assert(0 <= m * l <= 0x8000_0000 * 0xffff_ffff) by (nonlinear_arith)
            requires
                0 <= m <= 0x8000_0000,
                0 <= l <= 0xffff_ffff,
        ;
        assert(0 <= m * l * e <= 0x8000_0000 * 0xffff_ffff * 1_000_000_000) by (nonlinear_arith)
            requires
                0 <= m * l <= 0x8000_0000 * 0xffff_ffff,
                0 <= e <= 1_000_000_000,
        ;
        assert(x * l * e == if x < 0 { -(m * l * e) } else { m * l * e }) by (nonlinear_arith)
            requires
                m == if x < 0 { -(x as int) } else { x as int },
        ;
        let q: i128 = (m * l * e) / 1_000_000_000_000;
        if x < 0 {
            -q
        } else {
            q
        }
    } else {
        0
    }
}

/// Sums every source's contribution over the voices and clips the result to
/// the sample range. `fields[i]` holds voice `i`'s sample of each source in
/// 16.16 fixed point.
pub fn mix_excitation(
    voices: &Vec<Voice>,
    fields: &Vec<[i32; SOURCE_COUNT]>,
    levels: &[u32; SOURCE_COUNT],
) -> (r: i32)
    requires
        fields.len() == voices.len(),
        envelopes_bounded(voices@),
    ensures
        r == excitation(voices@, fields@, levels@),
{
    let n = voices.len();
    let mut acc: i128 = 0;
    let mut i: usize = 0;
    while i < n
        invariant
            n == voices.len(),
            fields.len() == n,
            0 <= i <= n,
            envelopes_bounded(voices@),
            acc == mix_sum(voices@, fields@, levels@, i as int),
            -(i * 10 * TERM_BOUND) <= acc <= i * 10 * TERM_BOUND,
        decreases n - i,
    {
        let v = voices[i];
        let values = &fields[i];
        let mut j: usize = 0;
        let mut sum: i128 = 0;
        while j < SOURCE_COUNT
            invariant
                0 <= j <= SOURCE_COUNT,
                v.envelope <= ENV_ONE,
                sum == voice_sum(v, values@, levels@, j as int),
                -(j * TERM_BOUND) <= sum <= j * TERM_BOUND,
            decreases SOURCE_COUNT - j,
        {
            let c = contribution_of(v, values, levels, j);
            sum = sum + c;
            j += 1;
        }
        assert(i * 10 * TERM_BOUND <= 0xffff_ffff_ffff_ffff * 10 * TERM_BOUND) by (nonlinear_arith)
            requires
                0 <= i <= 0xffff_ffff_ffff_ffff,
        ;
        acc = acc + sum;
        i += 1;
        assert((i - 1) * 10 * TERM_BOUND + 10 * TERM_BOUND == i * 10 * TERM_BOUND) by (nonlinear_arith);
    }
    if acc > SAMPLE_LIMIT as i128 {
        SAMPLE_LIMIT
    } else if acc < -(SAMPLE_LIMIT as i128) {
        -SAMPLE_LIMIT
    } else {
        acc as i32
    }
}

} // verus!
