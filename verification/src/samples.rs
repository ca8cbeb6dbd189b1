//! Fixed-length chunks of synthesized noise and the streaming engine that
//! turns a list of chunks into an endless sequence of output frames, either
//! by mirroring a single chunk or by crossfading across a cyclic chunk list.
//!
//! Samples are opaque bit patterns (`u32`); the engine decides, for every
//! step, which samples of which chunks reach the output and with which
//! interpolation parameter, and emits that decision as a [`StepOutput`].
//! The numeric interpolation itself is carried out by the caller.

use vstd::prelude::*;

use crate::error::Error;

verus! {

broadcast use vstd::arithmetic::div_mod::lemma_mod_division_less_than_divisor;

/// Number of samples in one synthesized chunk: three seconds at 44.1 kHz.
pub const CHUNK_SAMPLES: usize = 44_100 * 3;

/// Number of samples over which two adjacent chunks are crossfaded.
pub const BLEND_WINDOW: usize = 1000;

/// Upper bound on chunk lengths, so that twice a length plus small offsets
/// never overflows a `usize`.
pub const MAX_CHUNK_LEN: usize = 0x7FFF_FFFF;

/// One immutable chunk of noise samples.
///
/// Every value of this type is nonempty and short enough that index
/// arithmetic on twice its length cannot overflow.
#[derive(Debug)]
pub struct Sample {
    data: Vec<u32>,
}

impl View for Sample {
    type V = Seq<u32>;

    closed spec fn view(&self) -> Seq<u32> {
        self.data@
    }
}

impl Clone for Sample {
    /// A copy holds the same samples.
    fn clone(&self) -> (r: Self)
        ensures
            r@ == self@,
    {
        proof {
            use_type_invariant(self);
        }
        Sample { data: self.data.clone() }
    }
}

impl Sample {
    #[verifier::type_invariant]
    closed spec fn type_inv(self) -> bool {
        1 <= self.data@.len() <= MAX_CHUNK_LEN
    }

    /// Wraps a buffer as a chunk; fails unless it holds exactly
    /// [`CHUNK_SAMPLES`] samples.
    pub fn new(data: Vec<u32>) -> (r: Result<Sample, Error>)
        ensures
            r is Ok <==> data@.len() == CHUNK_SAMPLES,
            r matches Ok(s) ==> s@ == data@,
            r matches Err(e) ==> e == Error::LengthMismatch,
    {
        if data.len() == CHUNK_SAMPLES {
            Ok(Sample { data })
        } else {
            Err(Error::LengthMismatch)
        }
    }

    /// Wraps a buffer as a chunk of a caller-chosen length; fails unless the
    /// buffer holds exactly `n` samples, with `n` positive and below
    /// [`MAX_CHUNK_LEN`].
    pub fn with_length(data: Vec<u32>, n: usize) -> (r: Result<Sample, Error>)
        ensures
            r is Ok <==> (data@.len() == n && 1 <= n <= MAX_CHUNK_LEN),
            r matches Ok(s) ==> s@ == data@,
            r matches Err(e) ==> e == Error::LengthMismatch,
    {
        if data.len() == n && 1 <= n && n <= MAX_CHUNK_LEN {
            Ok(Sample { data })
        } else {
            Err(Error::LengthMismatch)
        }
    }

    /// The number of samples in this chunk.
    pub fn len(&self) -> (n: usize)
        ensures
            n == self@.len(),
            1 <= n <= MAX_CHUNK_LEN,
    {
        proof {
            use_type_invariant(self);
        }
        self.data.len()
    }

    /// Direct access to one sample of a known-good index.
    pub(crate) fn at(&self, idx: usize) -> (s: u32)
        requires
            idx < self@.len(),
        ensures
            s == self@[idx as int],
    {
        self.data[idx]
    }

    /// Bounds-checked random access to one sample.
    pub fn get(&self, idx: usize) -> (r: Option<u32>)
        ensures
            idx < self@.len() ==> r == Some(self@[idx as int]),
            idx >= self@.len() ==> r is None,
    {
        if idx < self.data.len() {
            Some(self.data[idx])
        } else {
            None
        }
    }

    /// A cursor pair over this chunk's samples, one end walking forward and
    /// the other backward until they meet.
    pub fn into_iter(self) -> (it: SampleIterator)
        ensures
            it.samples() == self@,
            it.fwd() == 0,
            it.bwd() == self@.len(),
    {
        proof {
            use_type_invariant(&self);
        }
        let n = self.data.len();
        SampleIterator { data: self.data, fwd_idx: 0, bwd_idx: n }
    }
}

/// A double-ended cursor over a chunk: `next` consumes from the front,
/// `next_back` from the back, and the two ends never cross.
#[derive(Debug)]
pub struct SampleIterator {
    data: Vec<u32>,
    fwd_idx: usize,
    bwd_idx: usize,
}

impl Clone for SampleIterator {
    /// A copy continues from the same pair of positions.
    fn clone(&self) -> (r: Self)
        ensures
            r.samples() == self.samples(),
            r.fwd() == self.fwd(),
            r.bwd() == self.bwd(),
    {
        proof {
            use_type_invariant(self);
        }
        SampleIterator { data: self.data.clone(), fwd_idx: self.fwd_idx, bwd_idx: self.bwd_idx }
    }
}

impl SampleIterator {
    #[verifier::type_invariant]
    closed spec fn type_inv(self) -> bool {
        self.fwd_idx <= self.bwd_idx <= self.data@.len() <= MAX_CHUNK_LEN
    }

    /// The samples being traversed.
    pub closed spec fn samples(&self) -> Seq<u32> {
        self.data@
    }

    /// Position of the forward cursor.
    pub closed spec fn fwd(&self) -> int {
        self.fwd_idx as int
    }

    /// Position of the backward cursor.
    pub closed spec fn bwd(&self) -> int {
        self.bwd_idx as int
    }

    /// The number of samples not yet consumed from either end.
    pub fn len(&self) -> (n: usize)
        ensures
            n == self.bwd() - self.fwd(),
    {
        proof {
            use_type_invariant(self);
        }
        self.bwd_idx - self.fwd_idx
    }

    /// Yields the next sample from the front, or nothing once the cursors
    /// have met.
    pub fn next(&mut self) -> (r: Option<u32>)
        ensures
            final(self).samples() == old(self).samples(),
            final(self).bwd() == old(self).bwd(),
            old(self).fwd() < old(self).bwd() ==> {
                &&& r == Some(old(self).samples()[old(self).fwd()])
                &&& final(self).fwd() == old(self).fwd() + 1
            },
            old(self).fwd() >= old(self).bwd() ==> {
                &&& r is None
                &&& final(self).fwd() == old(self).fwd()
            },
    {
        proof {
            use_type_invariant(&*self);
        }
        if self.fwd_idx < self.bwd_idx {
            let res = self.data[self.fwd_idx];
            self.fwd_idx = self.fwd_idx + 1;
            Some(res)
        } else {
            None
        }
    }

    /// Yields the next sample from the back, or nothing once the cursors
    /// have met.
    pub fn next_back(&mut self) -> (r: Option<u32>)
        ensures
            final(self).samples() == old(self).samples(),
            final(self).fwd() == old(self).fwd(),
            old(self).fwd() < old(self).bwd() ==> {
                &&& r == Some(old(self).samples()[old(self).bwd() - 1])
                &&& final(self).bwd() == old(self).bwd() - 1
            },
            old(self).fwd() >= old(self).bwd() ==> {
                &&& r is None
                &&& final(self).bwd() == old(self).bwd()
            },
    {
        proof {
            use_type_invariant(&*self);
        }
        if self.fwd_idx < self.bwd_idx {
            self.bwd_idx = self.bwd_idx - 1;
            let res = self.data[self.bwd_idx];
            Some(res)
        } else {
            None
        }
    }
}

/// How an endless stream is produced from the chunk list.
#[derive(Clone, Copy, Debug, PartialEq, Eq, Structural)]
pub enum SmoothingType {
    /// Play one chunk forward, then backward, forever.
    Mirror,
    /// Crossfade across the chunk list cyclically.
    Blend(BlendType),
}

impl Default for SmoothingType {
    /// Mirroring is the fallback that needs only one chunk.
    fn default() -> (r: SmoothingType)
        ensures
            r is Mirror,
    {
        SmoothingType::Mirror
    }
}

/// The crossfade curve used inside a blend window.
#[derive(Clone, Copy, Debug, PartialEq, Eq, Structural)]
pub enum BlendType {
    /// Interpolation weight grows linearly across the window.
    Linear,
    /// Interpolation weight follows a logistic curve, staying close to
    /// either end of the window for most of its width.
    Sigmoid,
}

/// One step of an endless stream: either a sample to emit verbatim, or the
/// two samples to interpolate and the interpolation parameters.
///
/// A `Mix` step asks for interpolation between `first` and `second` with
/// progress `(pos + 1) / window`, shaped by `blend`; `pos` counts the steps
/// already taken inside the current blend window, so progress runs from
/// `1 / window` on the window's first step to exactly one on its last.
/// Whatever the step, the resulting mono value is duplicated into both
/// channels of the output frame.
#[derive(Clone, Copy, Debug, PartialEq, Eq, Structural)]
pub enum StepOutput {
    /// Emit this sample unchanged.
    Raw(u32),
    /// Interpolate `first` toward `second`.
    Mix { first: u32, second: u32, pos: usize, window: usize, blend: BlendType },
}

/// The views of a list of chunks.
pub open spec fn views_of(chunks: Seq<Sample>) -> Seq<Seq<u32>> {
    chunks.map_values(|s: Sample| s@)
}

/// Mathematical state of a blending stream: a cyclic chunk list, a cursor
/// into the current chunk, a cursor into the upcoming chunk, and the blend
/// configuration.
#[verifier::ext_equal]
pub ghost struct BlendView {
    pub chunks: Seq<Seq<u32>>,
    pub cur: int,
    pub cur_pos: int,
    pub nxt_pos: int,
    pub window: int,
    pub blend: BlendType,
}

/// Samples left to take from the current chunk.
pub open spec fn blend_rem(v: BlendView) -> int {
    v.chunks[v.cur].len() - v.cur_pos
}

/// Index of the chunk that follows the current one in the cycle.
pub open spec fn blend_nxt_index(v: BlendView) -> int {
    if v.cur + 1 < v.chunks.len() {
        v.cur + 1
    } else {
        0
    }
}

/// Well-formedness of a blending stream state.
///
/// Beyond bounds, the last clause is the alignment invariant of the design:
/// the upcoming chunk's cursor has advanced exactly as far as the current
/// chunk has penetrated its trailing blend window, so a blend always mixes
/// the tail of the current chunk with the matching head of the next one.
pub open spec fn blend_wf(v: BlendView) -> bool {
    &&& v.chunks.len() >= 2
    &&& 1 <= v.window
    &&& forall|c: int|
        0 <= c < v.chunks.len() ==> 2 * v.window < #[trigger] v.chunks[c].len() <= MAX_CHUNK_LEN
    &&& 0 <= v.cur < v.chunks.len()
    &&& 0 <= v.cur_pos < v.chunks[v.cur].len()
    &&& v.nxt_pos == if blend_rem(v) >= v.window {
        0int
    } else {
        v.window - blend_rem(v)
    }
}

/// What a blending stream emits from state `v`: the current sample verbatim
/// while more than a window remains, otherwise a mix of the current sample
/// and the matching sample of the upcoming chunk.
pub open spec fn blend_output(v: BlendView) -> StepOutput {
    if blend_rem(v) > v.window {
        StepOutput::Raw(v.chunks[v.cur][v.cur_pos])
    } else {
        StepOutput::Mix {
            first: v.chunks[v.cur][v.cur_pos],
            second: v.chunks[blend_nxt_index(v)][v.nxt_pos],
            pos: (v.window - blend_rem(v)) as usize,
            window: v.window as usize,
            blend: v.blend,
        }
    }
}

/// The state after one step: advance the current cursor; inside the blend
/// window also advance the upcoming cursor; once the current chunk is
/// exhausted, rotate, so the upcoming chunk (already `window` samples in)
/// becomes current and a fresh successor takes its place.
pub open spec fn blend_step(v: BlendView) -> BlendView {
    let rem = blend_rem(v);
    if rem > v.window {
        BlendView { cur_pos: v.cur_pos + 1, ..v }
    } else if rem == 1 {
        BlendView { cur: blend_nxt_index(v), cur_pos: v.nxt_pos + 1, nxt_pos: 0, ..v }
    } else {
        BlendView { cur_pos: v.cur_pos + 1, nxt_pos: v.nxt_pos + 1, ..v }
    }
}

/// The state after `k` steps.
pub open spec fn blend_iterate(v: BlendView, k: nat) -> BlendView
    decreases k,
{
    if k == 0 {
        v
    } else {
        blend_step(blend_iterate(v, (k - 1) as nat))
    }
}

/// What a blending stream emits on its `k`-th step from state `v`.
pub open spec fn blend_output_at(v: BlendView, k: nat) -> StepOutput {
    blend_output(blend_iterate(v, k))
}

/// The state a freshly constructed blending stream starts in.
pub open spec fn blend_init(chunks: Seq<Seq<u32>>, blend: BlendType, window: int) -> BlendView {
    BlendView { chunks, cur: 0, cur_pos: 0, nxt_pos: 0, window, blend }
}

/// Stepping preserves well-formedness: a well-formed blending stream can
/// never run out of samples.
pub proof fn lemma_blend_step_wf(v: BlendView)
    requires
        blend_wf(v),
    ensures
        blend_wf(blend_step(v)),
{
}

/// Stepping composes: advancing `a + b` steps is advancing `a`, then `b`.
pub proof fn lemma_blend_iterate_add(v: BlendView, a: nat, b: nat)
    ensures
        blend_iterate(v, a + b) == blend_iterate(blend_iterate(v, a), b),
    decreases b,
{
    if b > 0 {
        lemma_blend_iterate_add(v, a, (b - 1) as nat);
        assert(blend_iterate(v, a + b) == blend_step(blend_iterate(v, (a + b - 1) as nat)));
    }
}

/// So does any number of steps.
pub proof fn lemma_blend_iterate_wf(v: BlendView, k: nat)
    requires
        blend_wf(v),
    ensures
        blend_wf(blend_iterate(v, k)),
    decreases k,
{
    if k > 0 {
        lemma_blend_iterate_wf(v, (k - 1) as nat);
        lemma_blend_step_wf(blend_iterate(v, (k - 1) as nat));
    }
}

/// Walks one chunk tenure: from a state whose upcoming cursor is untouched,
/// the next `blend_rem(v) - 1` steps only advance the cursors, and the step
/// that exhausts the current chunk rotates to the start of the next tenure,
/// with the new current chunk already one window in.
pub proof fn lemma_blend_tenure(v: BlendView, k: int)
    requires
        blend_wf(v),
        v.nxt_pos == 0,
        0 <= k <= blend_rem(v),
    ensures
        k < blend_rem(v) ==> blend_iterate(v, k as nat) == (BlendView {
            cur_pos: v.cur_pos + k,
            nxt_pos: if blend_rem(v) - k >= v.window {
                0int
            } else {
                v.window - (blend_rem(v) - k)
            },
            ..v
        }),
        k == blend_rem(v) ==> blend_iterate(v, k as nat) == (BlendView {
            cur: blend_nxt_index(v),
            cur_pos: v.window,
            nxt_pos: 0,
            ..v
        }),
    decreases k,
{
    if k > 0 {
        lemma_blend_tenure(v, k - 1);
        let u = blend_iterate(v, (k - 1) as nat);
        assert(blend_iterate(v, k as nat) == blend_step(u));
        assert(blend_iterate(v, k as nat) =~= if k < blend_rem(v) {
            BlendView {
                cur_pos: v.cur_pos + k,
                nxt_pos: if blend_rem(v) - k >= v.window {
                    0int
                } else {
                    v.window - (blend_rem(v) - k)
                },
                ..v
            }
        } else {
            BlendView { cur: blend_nxt_index(v), cur_pos: v.window, nxt_pos: 0, ..v }
        });
    }
}

/// All chunks share one length.
pub open spec fn uniform_chunks(chunks: Seq<Seq<u32>>, l: int) -> bool {
    forall|c: int| 0 <= c < chunks.len() ==> #[trigger] chunks[c].len() == l
}

/// The state at the start of the `c`-th chunk tenure, for `c >= 1`: chunk
/// `c` (cyclically) is current with one window of it already consumed
/// during the previous crossfade, and its successor is untouched.
pub open spec fn blend_tenure_state(
    chunks: Seq<Seq<u32>>,
    blend: BlendType,
    w: int,
    c: int,
) -> BlendView {
    BlendView { chunks, cur: c % (chunks.len() as int), cur_pos: w, nxt_pos: 0, window: w, blend }
}

/// Incrementing a cycle position and reducing agrees with reducing first.
proof fn lemma_cycle_increment(x: int, n: int)
    requires
        0 <= x,
        2 <= n,
    ensures
        (x + 1) % n == if x % n + 1 < n {
            x % n + 1
        } else {
            0int
        },
{
    vstd::arithmetic::div_mod::lemma_add_mod_noop_right(1, x, n);
    if x % n + 1 < n {
        vstd::arithmetic::div_mod::lemma_small_mod((x % n + 1) as nat, n as nat);
    } else {
        vstd::arithmetic::div_mod::lemma_mod_self_0(n);
    }
}

/// Over uniformly long chunks, the `c`-th tenure starts after the first
/// chunk's full length plus `c - 1` further tenures of `l - w` steps each.
pub proof fn lemma_blend_tenure_start(
    chunks: Seq<Seq<u32>>,
    blend: BlendType,
    w: int,
    l: int,
    c: int,
)
    requires
        blend_wf(blend_init(chunks, blend, w)),
        uniform_chunks(chunks, l),
        1 <= c,
    ensures
        blend_iterate(blend_init(chunks, blend, w), (l + (c - 1) * (l - w)) as nat)
            == blend_tenure_state(chunks, blend, w, c),
    decreases c,
{
    let v0 = blend_init(chunks, blend, w);
    let n = chunks.len() as int;
    if c == 1 {
        lemma_blend_tenure(v0, l);
        vstd::arithmetic::div_mod::lemma_small_mod(1nat, n as nat);
        assert((c - 1) * (l - w) == 0) by (nonlinear_arith)
            requires
                c == 1,
        ;
        assert(blend_iterate(v0, l as nat) =~= blend_tenure_state(chunks, blend, w, 1));
    } else {
        lemma_blend_tenure_start(chunks, blend, w, l, c - 1);
        let prev = blend_tenure_state(chunks, blend, w, c - 1);
        assert((l + (c - 1) * (l - w)) == (l + (c - 2) * (l - w)) + (l - w)) by (nonlinear_arith);
        lemma_blend_iterate_add(v0, (l + (c - 2) * (l - w)) as nat, (l - w) as nat);
        assert(blend_wf(prev));
        lemma_blend_tenure(prev, l - w);
        lemma_cycle_increment(c - 1, n);
        assert(blend_iterate(v0, (l + (c - 1) * (l - w)) as nat) =~= blend_tenure_state(
            chunks,
            blend,
            w,
            c,
        ));
    }
}

/// The output of a crossfading stream over uniformly long chunks, in closed
/// form over the step index `k`.
///
/// During the first chunk its samples pass through verbatim until only a
/// window remains; every later tenure covers `l - w` steps of chunk
/// `1 + (k - l) / (l - w)` (cyclically), starting one window in, again raw
/// until its final window, which is mixed with the head of its successor.
pub open spec fn blend_uniform_output(
    chunks: Seq<Seq<u32>>,
    blend: BlendType,
    w: int,
    l: int,
    k: int,
) -> StepOutput {
    let n = chunks.len() as int;
    if k < l {
        if l - k > w {
            StepOutput::Raw(chunks[0][k])
        } else {
            StepOutput::Mix {
                first: chunks[0][k],
                second: chunks[1][w - (l - k)],
                pos: (w - (l - k)) as usize,
                window: w as usize,
                blend,
            }
        }
    } else {
        let c = 1 + (k - l) / (l - w);
        let p = w + (k - l) % (l - w);
        if l - p > w {
            StepOutput::Raw(chunks[c % n][p])
        } else {
            StepOutput::Mix {
                first: chunks[c % n][p],
                second: chunks[(c + 1) % n][w - (l - p)],
                pos: (w - (l - p)) as usize,
                window: w as usize,
                blend,
            }
        }
    }
}

/// A freshly built crossfading stream over uniformly long chunks emits
/// exactly [`blend_uniform_output`] at every step: raw samples of the
/// current chunk outside the blend windows, and inside a window the mix of
/// the current chunk's tail with the matching head of its successor.
pub proof fn lemma_blend_uniform_output(
    chunks: Seq<Seq<u32>>,
    blend: BlendType,
    w: int,
    l: int,
    k: int,
)
    requires
        blend_wf(blend_init(chunks, blend, w)),
        uniform_chunks(chunks, l),
        0 <= k,
    ensures
        blend_output_at(blend_init(chunks, blend, w), k as nat) == blend_uniform_output(
            chunks,
            blend,
            w,
            l,
            k,
        ),
{
    let v0 = blend_init(chunks, blend, w);
    let n = chunks.len() as int;
    if k < l {
        lemma_blend_tenure(v0, k);
        vstd::arithmetic::div_mod::lemma_small_mod(1nat, n as nat);
    } else {
        let q = (k - l) / (l - w);
        let j = (k - l) % (l - w);
        let c = 1 + q;
        vstd::arithmetic::div_mod::lemma_fundamental_div_mod(k - l, l - w);
        vstd::arithmetic::div_mod::lemma_div_pos_is_pos(k - l, l - w);
        lemma_blend_tenure_start(chunks, blend, w, l, c);
        assert(l + (c - 1) * (l - w) + j == k) by (nonlinear_arith)
            requires
                k - l == (l - w) * q + j,
                c == 1 + q,
        ;
        lemma_blend_iterate_add(v0, (l + (c - 1) * (l - w)) as nat, j as nat);
        let tc = blend_tenure_state(chunks, blend, w, c);
        lemma_blend_tenure(tc, j);
        lemma_cycle_increment(c, n);
    }
}

/// The step halfway through the first blend window, for an even window
/// width: its mix carries interpolation progress `(pos + 1) / window`
/// equal to exactly one half, between the current chunk's sample at that
/// step and the matching sample near the head of the next chunk.  That a
/// linear mix at one half is the arithmetic mean of the two sources is the
/// numeric caller's side of the bargain.
pub proof fn lemma_blend_window_midpoint(
    chunks: Seq<Seq<u32>>,
    blend: BlendType,
    w: int,
    l: int,
    k: int,
)
    requires
        blend_wf(blend_init(chunks, blend, w)),
        uniform_chunks(chunks, l),
        w % 2 == 0,
        k == l - w + w / 2 - 1,
    ensures
        blend_output_at(blend_init(chunks, blend, w), k as nat) == (StepOutput::Mix {
            first: chunks[0][k],
            second: chunks[1][w / 2 - 1],
            pos: (w / 2 - 1) as usize,
            window: w as usize,
            blend,
        }),
{
    lemma_blend_uniform_output(chunks, blend, w, l, k);
}

/// Two crossfading streams built from the same chunk list, blend curve and
/// window agree on every step: the output sequence is a function of the
/// construction state alone, with no hidden dependence on time or on
/// anything outside the state.
pub proof fn lemma_blend_deterministic(v1: BlendView, v2: BlendView, k: nat)
    requires
        v1 == v2,
    ensures
        blend_output_at(v1, k) == blend_output_at(v2, k),
{
}

/// What a mirroring stream emits on its `k`-th step: the chunk's samples
/// left to right, then right to left, repeating with period twice the chunk
/// length; the two boundary samples each appear twice in a row, once from
/// each direction of travel.
pub open spec fn mirror_at(data: Seq<u32>, k: int) -> u32
    recommends
        1 <= data.len(),
        0 <= k,
{
    let p = k % (2 * data.len() as int);
    if p < data.len() {
        data[p]
    } else {
        data[2 * data.len() - 1 - p]
    }
}

/// The mirror pattern repeats exactly every two chunk lengths.
pub proof fn lemma_mirror_period(data: Seq<u32>, k: int)
    requires
        1 <= data.len(),
        0 <= k,
    ensures
        mirror_at(data, k + 2 * data.len()) == mirror_at(data, k),
{
    let m = 2 * data.len() as int;
    vstd::arithmetic::div_mod::lemma_mod_add_multiples_vanish(k, m);
}

/// Over its first two chunk lengths of steps, a mirroring stream emits the
/// chunk forward and then backward: step `k` yields sample `k` while
/// `k` is within the chunk, and sample `2·len − 1 − k` afterwards.
pub proof fn lemma_mirror_pattern(data: Seq<u32>, k: int)
    requires
        1 <= data.len(),
        0 <= k < 2 * data.len(),
    ensures
        k < data.len() ==> mirror_at(data, k) == data[k],
        k >= data.len() ==> mirror_at(data, k) == data[2 * data.len() - 1 - k],
{
    let m = 2 * data.len() as int;
    vstd::arithmetic::div_mod::lemma_small_mod(k as nat, m as nat);
}

/// The endless mirroring stream over a single chunk: forward, backward,
/// forever.
pub struct MirrorSamplesIterator {
    data: Vec<u32>,
    pos: usize,
    steps: Ghost<nat>,
}

impl MirrorSamplesIterator {
    /// The chunk being mirrored.
    pub closed spec fn samples(&self) -> Seq<u32> {
        self.data@
    }

    /// How many steps have been taken so far.
    pub closed spec fn steps(&self) -> nat {
        self.steps@
    }

    /// The cursor stays within one full forward-backward period and always
    /// equals the step count reduced by that period.
    pub closed spec fn wf(&self) -> bool {
        &&& 1 <= self.data@.len() <= MAX_CHUNK_LEN
        &&& self.pos < 2 * self.data@.len()
        &&& self.pos == (self.steps@ as int) % (2 * self.data@.len() as int)
    }

    /// Builds a mirroring stream over one chunk.
    pub fn new(chunk: Sample) -> (it: MirrorSamplesIterator)
        ensures
            it.wf(),
            it.samples() == chunk@,
            it.steps() == 0,
    {
        proof {
            use_type_invariant(&chunk);
            vstd::arithmetic::div_mod::lemma_small_mod(0nat, (2 * chunk@.len()) as nat);
        }
        MirrorSamplesIterator { data: chunk.data, pos: 0, steps: Ghost(0nat) }
    }

    /// Emits one sample and advances the stream.
    ///
    /// The output is exactly [`mirror_at`] of the chunk and the step count,
    /// so the whole output sequence is determined by the chunk alone.
    pub fn next(&mut self) -> (s: u32)
        requires
            old(self).wf(),
        ensures
            final(self).wf(),
            final(self).samples() == old(self).samples(),
            final(self).steps() == old(self).steps() + 1,
            s == mirror_at(old(self).samples(), old(self).steps() as int),
    {
        let ghost m = 2 * self.data@.len() as int;
        let ghost k = self.steps@ as int;
        let l = self.data.len();
        let s = if self.pos < l {
            self.data[self.pos]
        } else {
            self.data[2 * l - 1 - self.pos]
        };
        self.pos = self.pos + 1;
        if self.pos == 2 * l {
            self.pos = 0;
        }
        self.steps = Ghost((self.steps@ + 1) as nat);
        proof {
            vstd::arithmetic::div_mod::lemma_add_mod_noop_right(1, k, m);
            if k % m + 1 < m {
                vstd::arithmetic::div_mod::lemma_small_mod((k % m + 1) as nat, m as nat);
            } else {
                vstd::arithmetic::div_mod::lemma_mod_self_0(m);
            }
            assert((k + 1) % m == if k % m + 1 < m {
                k % m + 1
            } else {
                0int
            });
        }
        s
    }
}

/// The endless crossfading stream over a cyclic list of chunks.
///
/// Each call of [`next`](Self::next) emits one [`StepOutput`] and advances
/// the cursors; the state always equals `blend_iterate` of the construction
/// state, so the whole output sequence is determined by the constructor
/// arguments alone.
pub struct BlendingSamplesIterator {
    chunks: Vec<Sample>,
    cur: usize,
    cur_pos: usize,
    nxt_pos: usize,
    window: usize,
    blend_type: BlendType,
    init: Ghost<BlendView>,
    steps: Ghost<nat>,
}

impl View for BlendingSamplesIterator {
    type V = BlendView;

    closed spec fn view(&self) -> BlendView {
        BlendView {
            chunks: views_of(self.chunks@),
            cur: self.cur as int,
            cur_pos: self.cur_pos as int,
            nxt_pos: self.nxt_pos as int,
            window: self.window as int,
            blend: self.blend_type,
        }
    }
}

impl BlendingSamplesIterator {
    /// The state this stream was constructed in.
    pub closed spec fn init_view(&self) -> BlendView {
        self.init@
    }

    /// How many steps have been taken so far.
    pub closed spec fn steps(&self) -> nat {
        self.steps@
    }

    /// A stream is well formed when its state is, and its state is exactly
    /// the construction state advanced by the steps taken.
    pub open spec fn wf(&self) -> bool {
        &&& blend_wf(self@)
        &&& blend_wf(self.init_view())
        &&& self@ == blend_iterate(self.init_view(), self.steps())
    }

    /// Builds a crossfading stream with an explicit blend window.
    ///
    /// Fails for a zero window, for fewer than two chunks, and for any chunk
    /// that is not longer than two windows (each chunk must fit a full blend
    /// window at both ends with room to spare in between).
    pub fn new_with_window(chunks: Vec<Sample>, blend_type: BlendType, window: usize) -> (r:
        Result<BlendingSamplesIterator, Error>)
        ensures
            r is Ok <==> (window >= 1 && chunks@.len() >= 2 && forall|c: int|
                0 <= c < chunks@.len() ==> 2 * window < #[trigger] views_of(chunks@)[c].len()),
            r matches Ok(it) ==> {
                &&& it.wf()
                &&& it.init_view() == blend_init(views_of(chunks@), blend_type, window as int)
                &&& it.steps() == 0
            },
            r matches Err(e) ==> (e == Error::ZeroWindow <==> window < 1),
            r matches Err(e) ==> (e == Error::TooFewChunks <==> (window >= 1 && chunks@.len()
                < 2)),
            r matches Err(e) ==> (e == Error::ChunkTooShort <==> (window >= 1 && chunks@.len() >= 2
                && exists|c: int|
                0 <= c < chunks@.len() && 2 * window >= #[trigger] views_of(chunks@)[c].len())),
    {
        if window < 1 {
            return Err(Error::ZeroWindow);
        }
        if chunks.len() < 2 {
            return Err(Error::TooFewChunks);
        }
        if window >= 0x4000_0000 {
            // Every chunk is capped at MAX_CHUNK_LEN, which two such windows
            // already exceed.
            let c0 = &chunks[0];
            proof {
                use_type_invariant(c0);
                assert(2 * window >= views_of(chunks@)[0].len());
            }
            return Err(Error::ChunkTooShort);
        }
        let mut i: usize = 0;
        while i < chunks.len()
            invariant
                i <= chunks@.len(),
                chunks@.len() >= 2,
                1 <= window < 0x4000_0000,
                forall|c: int|
                    0 <= c < i ==> 2 * window < #[trigger] views_of(chunks@)[c].len()
                        <= MAX_CHUNK_LEN,
            decreases chunks@.len() - i,
        {
            let ci = &chunks[i];
            proof {
                use_type_invariant(ci);
                assert(views_of(chunks@)[i as int] == chunks@[i as int]@);
            }
            if ci.len() <= 2 * window {
                return Err(Error::ChunkTooShort);
            }
            i = i + 1;
        }
        let r = BlendingSamplesIterator {
            chunks,
            cur: 0,
            cur_pos: 0,
            nxt_pos: 0,
            window,
            blend_type,
            init: Ghost(arbitrary()),
            steps: Ghost(0nat),
        };
        let r = BlendingSamplesIterator { init: Ghost(r@), ..r };
        Ok(r)
    }

    /// Builds a crossfading stream with the default [`BLEND_WINDOW`].
    pub fn new(chunks: Vec<Sample>, blend_type: BlendType) -> (r: Result<
        BlendingSamplesIterator,
        Error,
    >)
        ensures
            r is Ok <==> (chunks@.len() >= 2 && forall|c: int|
                0 <= c < chunks@.len() ==> 2 * BLEND_WINDOW
                    < #[trigger] views_of(chunks@)[c].len()),
            r matches Ok(it) ==> {
                &&& it.wf()
                &&& it.init_view() == blend_init(
                    views_of(chunks@),
                    blend_type,
                    BLEND_WINDOW as int,
                )
                &&& it.steps() == 0
            },
            r matches Err(e) ==> (e == Error::TooFewChunks <==> chunks@.len() < 2),
            r matches Err(e) ==> (e == Error::ChunkTooShort <==> (chunks@.len() >= 2 && exists|
                c: int,
            |
                0 <= c < chunks@.len() && 2 * BLEND_WINDOW
                    >= #[trigger] views_of(chunks@)[c].len())),
    {
        BlendingSamplesIterator::new_with_window(chunks, blend_type, BLEND_WINDOW)
    }

    /// Emits one step and advances the stream.
    ///
    /// The output and the successor state are exactly [`blend_output`] and
    /// [`blend_step`] of the current state; equivalently, the output is
    /// [`blend_output_at`] of the construction state and the step count, so
    /// equal constructions driven equally emit equal outputs.
    pub fn next(&mut self) -> (out: StepOutput)
        requires
            old(self).wf(),
        ensures
            final(self).wf(),
            final(self).init_view() == old(self).init_view(),
            final(self).steps() == old(self).steps() + 1,
            final(self)@ == blend_step(old(self)@),
            out == blend_output(old(self)@),
            out == blend_output_at(old(self).init_view(), old(self).steps()),
    {
        let ghost v0 = self@;
        let n = self.chunks.len();
        let cur_len = self.chunks[self.cur].len();
        let rem = cur_len - self.cur_pos;
        let out: StepOutput;
        if rem > self.window {
            let s = self.chunks[self.cur].at(self.cur_pos);
            self.cur_pos = self.cur_pos + 1;
            out = StepOutput::Raw(s);
        } else {
            let first = self.chunks[self.cur].at(self.cur_pos);
            let nxt_idx = if self.cur + 1 < n {
                self.cur + 1
            } else {
                0
            };
            let second = self.chunks[nxt_idx].at(self.nxt_pos);
            out = StepOutput::Mix {
                first,
                second,
                pos: self.window - rem,
                window: self.window,
                blend: self.blend_type,
            };
            self.cur_pos = self.cur_pos + 1;
            self.nxt_pos = self.nxt_pos + 1;
            if self.cur_pos == cur_len {
                self.cur = nxt_idx;
                self.cur_pos = self.nxt_pos;
                self.nxt_pos = 0;
            }
        }
        self.steps = Ghost((self.steps@ + 1) as nat);
        proof {
            assert(self@ =~= blend_step(v0));
            lemma_blend_step_wf(v0);
        }
        out
    }
}

/// A list of chunks together with the smoothing mode that will turn them
/// into an endless stream.
pub struct BlendingSamples {
    samples: Vec<Sample>,
    smoothing_type: SmoothingType,
}

impl BlendingSamples {
    #[verifier::type_invariant]
    closed spec fn type_inv(self) -> bool {
        self.samples@.len() >= 1
    }

    /// The views of the chunks held.
    pub closed spec fn chunks_view(&self) -> Seq<Seq<u32>> {
        views_of(self.samples@)
    }

    /// The smoothing mode configured.
    pub closed spec fn smoothing(&self) -> SmoothingType {
        self.smoothing_type
    }

    /// Wraps a chunk list; fails if it is empty.  The smoothing mode starts
    /// out as the default, mirroring.
    pub fn new(chunks: Vec<Sample>) -> (r: Result<BlendingSamples, Error>)
        ensures
            r is Ok <==> chunks@.len() >= 1,
            r matches Ok(b) ==> {
                &&& b.chunks_view() == views_of(chunks@)
                &&& b.smoothing() is Mirror
            },
            r matches Err(e) ==> e == Error::EmptyChunks,
    {
        if chunks.len() == 0 {
            return Err(Error::EmptyChunks);
        }
        Ok(BlendingSamples { samples: chunks, smoothing_type: Default::default() })
    }

    /// Selects mirroring of the first chunk.
    pub fn with_mirror(self) -> (r: BlendingSamples)
        ensures
            r.chunks_view() == self.chunks_view(),
            r.smoothing() is Mirror,
    {
        let mut this = self;
        proof {
            use_type_invariant(&this);
        }
        this.smoothing_type = SmoothingType::Mirror;
        this
    }

    /// Selects crossfading across the chunk list with the given curve.
    pub fn with_blend(self, blend_type: BlendType) -> (r: BlendingSamples)
        ensures
            r.chunks_view() == self.chunks_view(),
            r.smoothing() == SmoothingType::Blend(blend_type),
    {
        let mut this = self;
        proof {
            use_type_invariant(&this);
        }
        this.smoothing_type = SmoothingType::Blend(blend_type);
        this
    }

    /// Builds the endless stream the configuration describes.
    ///
    /// Mirroring always succeeds and streams the first chunk.  Crossfading
    /// needs at least two chunks, each longer than two [`BLEND_WINDOW`]s,
    /// and fails otherwise.
    pub fn into_iter(self) -> (r: Result<StereoSamples, Error>)
        ensures
            r matches Ok(st) ==> st.wf(),
            self.smoothing() is Mirror ==> (r matches Ok(st) && st is Mirror && {
                &&& st->Mirror_0.samples() == self.chunks_view()[0]
                &&& st->Mirror_0.steps() == 0
            }),
            self.smoothing() matches SmoothingType::Blend(bt) ==> {
                &&& (r is Ok <==> (self.chunks_view().len() >= 2 && forall|c: int|
                    0 <= c < self.chunks_view().len() ==> 2 * BLEND_WINDOW
                        < #[trigger] self.chunks_view()[c].len()))
                &&& (r matches Ok(st) ==> st is Blend && {
                    &&& st->Blend_0.init_view() == blend_init(
                        self.chunks_view(),
                        bt,
                        BLEND_WINDOW as int,
                    )
                    &&& st->Blend_0.steps() == 0
                })
                &&& (r matches Err(e) ==> (e == Error::TooFewChunks <==> self.chunks_view().len()
                    < 2))
                &&& (r matches Err(e) ==> (e == Error::ChunkTooShort <==> (
                self.chunks_view().len() >= 2 && exists|c: int|
                    0 <= c < self.chunks_view().len() && 2 * BLEND_WINDOW
                        >= #[trigger] self.chunks_view()[c].len())))
            },
    {
        proof {
            use_type_invariant(&self);
        }
        let BlendingSamples { mut samples, smoothing_type } = self;
        match smoothing_type {
            SmoothingType::Mirror => {
                let first = samples.remove(0);
                Ok(StereoSamples::Mirror(MirrorSamplesIterator::new(first)))
            },
            SmoothingType::Blend(blend_type) => {
                match BlendingSamplesIterator::new(samples, blend_type) {
                    Ok(it) => Ok(StereoSamples::Blend(it)),
                    Err(e) => Err(e),
                }
            },
        }
    }
}

/// An endless stream of output steps, produced by either smoothing mode.
pub enum StereoSamples {
    /// One chunk, mirrored forever.
    Mirror(MirrorSamplesIterator),
    /// A cyclic chunk list, crossfaded forever.
    Blend(BlendingSamplesIterator),
}

impl StereoSamples {
    /// A stream is well formed when its underlying engine is.
    pub open spec fn wf(&self) -> bool {
        match self {
            StereoSamples::Mirror(m) => m.wf(),
            StereoSamples::Blend(b) => b.wf(),
        }
    }

    /// Emits one step and advances the stream; never fails and never runs
    /// out, whatever the variant.
    pub fn next(&mut self) -> (out: StepOutput)
        requires
            old(self).wf(),
        ensures
            final(self).wf(),
            (*old(self)) is Mirror ==> {
                &&& (*final(self)) is Mirror
                &&& (*final(self))->Mirror_0.samples() == (*old(self))->Mirror_0.samples()
                &&& (*final(self))->Mirror_0.steps() == (*old(self))->Mirror_0.steps() + 1
                &&& out == StepOutput::Raw(
                    mirror_at(
                        (*old(self))->Mirror_0.samples(),
                        (*old(self))->Mirror_0.steps() as int,
                    ),
                )
            },
            (*old(self)) is Blend ==> {
                &&& (*final(self)) is Blend
                &&& (*final(self))->Blend_0.init_view() == (*old(self))->Blend_0.init_view()
                &&& (*final(self))->Blend_0.steps() == (*old(self))->Blend_0.steps() + 1
                &&& out == blend_output_at(
                    (*old(self))->Blend_0.init_view(),
                    (*old(self))->Blend_0.steps(),
                )
            },
    {
        match self {
            StereoSamples::Mirror(m) => {
                let s = m.next();
                StepOutput::Raw(s)
            },
            StereoSamples::Blend(b) => b.next(),
        }
    }
}

} // verus!
