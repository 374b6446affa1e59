//! Stereo pre-delay line: a fixed-capacity circular buffer of paired samples
//! with a read-before-write cursor and a bounded, atomic live resize.

use vstd::prelude::*;
use vstd::arithmetic::div_mod::{
    lemma_add_mod_noop_right, lemma_div_is_ordered, lemma_fundamental_div_mod,
    lemma_mod_add_multiples_vanish, lemma_mod_bound, lemma_small_mod,
};
use vstd::arithmetic::mul::{lemma_mul_inequality, lemma_mul_upper_bound};

verus! {

/// Number of whole samples spanned by `ms` milliseconds at `sample_rate`
/// samples per second: `floor(ms * sample_rate / 1000)`.
pub open spec fn spec_samples_for_ms(ms: int, sample_rate: int) -> int {
    ms * sample_rate / 1000
}

/// The active length a delay line adopts for a requested delay time: the
/// sample count for that time, clamped to the allocated capacity.
pub open spec fn spec_active_length(ms: int, sample_rate: int, max_length: int) -> int {
    if spec_samples_for_ms(ms, sample_rate) <= max_length {
        spec_samples_for_ms(ms, sample_rate)
    } else {
        max_length
    }
}

/// Converts a delay time in milliseconds to a sample count at the given rate.
pub fn samples_for_ms(ms: i32, sample_rate: u32) -> (r: u64)
    requires
        0 <= ms,
    ensures
        r == spec_samples_for_ms(ms as int, sample_rate as int),
{
    proof {
        lemma_mul_upper_bound(ms as int, 0x7fff_ffff, sample_rate as int, 0xffff_ffff);
    }
    (ms as u64) * (sample_rate as u64) / 1000
}

/// A delay no longer than the configured ceiling never needs more samples
/// than the ceiling itself, at any sample rate: the sample count grows
/// monotonically with the delay time. Together with the `set_delay` contract
/// this means every request with `delay_ms <= max_delay_ms` is accepted.
pub proof fn lemma_resize_within_ceiling(delay_ms: int, max_delay_ms: int, sample_rate: int)
    requires
        0 <= delay_ms <= max_delay_ms,
        0 <= sample_rate,
    ensures
        spec_samples_for_ms(delay_ms, sample_rate) <= spec_samples_for_ms(
            max_delay_ms,
            sample_rate,
        ),
{
    lemma_mul_inequality(delay_ms, max_delay_ms, sample_rate);
    lemma_div_is_ordered(delay_ms * sample_rate, max_delay_ms * sample_rate, 1000);
}

/// Circular buffer of `(left, right)` sample pairs. The capacity
/// (`max_length`) is fixed at construction; the active delay (`length`) may be
/// changed at block boundaries through `set_delay`, which either commits in
/// full or leaves every field untouched.
pub struct StereoDelay<T> {
    /// Backing storage; its length is always exactly `max_length`.
    pub buf: Vec<(T, T)>,
    /// Active delay in samples; reads and writes stay within `buf[0..length]`.
    pub length: usize,
    /// Fixed capacity, derived once from the maximum delay time.
    pub max_length: usize,
    /// Combined read/write cursor; always `0` when `length == 0`.
    pub head: usize,
    /// The currently configured delay time, from which `length` was derived.
    pub delay_ms: i32,
    /// Samples per second used to turn milliseconds into sample counts.
    pub sample_rate: u32,
    /// The silent sample pair used to initialize and clear slots.
    pub fill: (T, T),
}

impl<T: Copy> StereoDelay<T> {
    /// Well-formedness: the cursor stays inside the active region, the active
    /// region inside the allocation, and the active length is always the one
    /// derived from the configured delay time (clamped to capacity).
    pub open spec fn wf(&self) -> bool {
        &&& self.buf@.len() == self.max_length
        &&& self.length <= self.max_length
        &&& (self.length == 0 ==> self.head == 0)
        &&& (self.length > 0 ==> self.head < self.length)
        &&& 0 <= self.delay_ms
        &&& self.length == spec_active_length(
            self.delay_ms as int,
            self.sample_rate as int,
            self.max_length as int,
        )
    }

    /// Allocates a zeroed (`fill`-valued) buffer sized for `max_delay_ms` and
    /// activates the region for `delay_ms`, clamped to the allocation so that
    /// indexing is in bounds even for an over-large initial request.
    pub fn new(delay_ms: i32, max_delay_ms: i32, sample_rate: u32, fill: (T, T)) -> (r:
        StereoDelay<T>)
        requires
            0 <= delay_ms,
            0 <= max_delay_ms,
            spec_samples_for_ms(max_delay_ms as int, sample_rate as int) <= usize::MAX,
        ensures
            r.wf(),
            r.max_length == spec_samples_for_ms(max_delay_ms as int, sample_rate as int),
            r.length == spec_active_length(
                delay_ms as int,
                sample_rate as int,
                r.max_length as int,
            ),
            r.head == 0,
            r.delay_ms == delay_ms,
            r.sample_rate == sample_rate,
            r.fill == fill,
            forall|i: int| 0 <= i < r.buf@.len() ==> r.buf@[i] == fill,
    {
        let max_length = samples_for_ms(max_delay_ms, sample_rate) as usize;
        let wanted = samples_for_ms(delay_ms, sample_rate);
        let length: usize = if wanted <= max_length as u64 {
            wanted as usize
        } else {
            max_length
        };

        let mut buf: Vec<(T, T)> = Vec::new();
        while buf.len() < max_length
            invariant
                buf@.len() <= max_length,
                forall|i: int| 0 <= i < buf@.len() ==> buf@[i] == fill,
            decreases max_length - buf@.len(),
        {
            buf.push(fill);
        }

        StereoDelay { buf, length, max_length, head: 0, delay_ms, sample_rate, fill }
    }

    /// The sample pair at the read cursor: the output that was written
    /// `length` calls ago (or a fill value while the line is still warming
    /// up). Does not mutate the line.
    pub fn head(&self) -> (r: (T, T))
        requires
            self.wf(),
            1 <= self.length,
        ensures
            r == self.buf@[self.head as int],
    {
        self.buf[self.head]
    }

    /// Writes `sample` at the cursor and advances the cursor by one slot,
    /// wrapping at the active length. Callers read `head()` first, so the
    /// slot overwritten here is the one whose delayed value was just taken.
    pub fn consume(&mut self, sample: (T, T))
        requires
            old(self).wf(),
            1 <= old(self).length,
        ensures
            final(self).wf(),
            final(self).buf@ == old(self).buf@.update(old(self).head as int, sample),
            final(self).head as int == (old(self).head + 1) % (old(self).length as int),
            (final(self).buf@, final(self).head as int) == spec_consume(
                old(self).buf@,
                old(self).head as int,
                old(self).length as int,
                sample,
            ),
            final(self).length == old(self).length,
            final(self).max_length == old(self).max_length,
            final(self).delay_ms == old(self).delay_ms,
            final(self).sample_rate == old(self).sample_rate,
            final(self).fill == old(self).fill,
    {
        self.buf[self.head] = sample;
        proof {
            lemma_mod_bound(old(self).head + 1, old(self).length as int);
        }
        self.head = (self.head + 1) % self.length;
    }

    /// The active delay, in samples.
    pub fn length(&self) -> (r: usize)
        ensures
            r == self.length,
    {
        self.length
    }

    /// Resizes the active delay. A request equal to the configured time is a
    /// no-op success; a request needing more samples than the allocation is
    /// rejected with every field left unchanged; any other request commits:
    /// the active length is recomputed, the cursor returns to slot zero, and
    /// exactly the newly active slots are cleared to the fill value.
    pub fn set_delay(&mut self, delay_ms: i32) -> (r: Result<&'static str, &'static str>)
        requires
            old(self).wf(),
            0 <= delay_ms,
        ensures
            final(self).wf(),
            final(self).max_length == old(self).max_length,
            final(self).sample_rate == old(self).sample_rate,
            final(self).fill == old(self).fill,
            final(self).buf@.len() == old(self).buf@.len(),
            r is Ok <==> (delay_ms == old(self).delay_ms || spec_samples_for_ms(
                delay_ms as int,
                old(self).sample_rate as int,
            ) <= old(self).max_length),
            delay_ms == old(self).delay_ms ==> {
                &&& final(self).length == old(self).length
                &&& final(self).head == old(self).head
                &&& final(self).delay_ms == old(self).delay_ms
                &&& final(self).buf@ == old(self).buf@
            },
            (delay_ms != old(self).delay_ms && spec_samples_for_ms(
                delay_ms as int,
                old(self).sample_rate as int,
            ) <= old(self).max_length) ==> {
                &&& final(self).delay_ms == delay_ms
                &&& final(self).length == spec_samples_for_ms(
                    delay_ms as int,
                    old(self).sample_rate as int,
                )
                &&& final(self).head == 0
                &&& forall|i: int| 0 <= i < final(self).length ==> final(self).buf@[i] == final(self).fill
                &&& forall|i: int|
                    final(self).length <= i < final(self).buf@.len() ==> final(self).buf@[i] == old(self).buf@[i]
            },
            (delay_ms != old(self).delay_ms && spec_samples_for_ms(
                delay_ms as int,
                old(self).sample_rate as int,
            ) > old(self).max_length) ==> {
                &&& r is Err
                &&& final(self).length == old(self).length
                &&& final(self).head == old(self).head
                &&& final(self).delay_ms == old(self).delay_ms
                &&& final(self).buf@ == old(self).buf@
            },
    {
        if delay_ms == self.delay_ms {
            return Ok("Delay size already correct");
        }

        let delay_samples = samples_for_ms(delay_ms, self.sample_rate);

        if delay_samples <= self.max_length as u64 {
            let new_length = delay_samples as usize;
            self.delay_ms = delay_ms;
            self.length = new_length;
            self.head = 0;

            let ghost buf0 = self.buf@;
            let mut i: usize = 0;
            while i < new_length
                invariant
                    i <= new_length,
                    new_length <= self.buf@.len(),
                    buf0 == old(self).buf@,
                    self.buf@.len() == buf0.len(),
                    self.length == new_length,
                    self.head == 0,
                    self.delay_ms == delay_ms,
                    self.max_length == old(self).max_length,
                    self.sample_rate == old(self).sample_rate,
                    self.fill == old(self).fill,
                    forall|j: int| 0 <= j < i ==> self.buf@[j] == self.fill,
                    forall|j: int| i <= j < self.buf@.len() ==> self.buf@[j] == buf0[j],
                decreases new_length - i,
            {
                let fill = self.fill;
                self.buf[i] = fill;
                i += 1;
            }

            Ok("Resized delay line")
        } else {
            Err("Buffer too small for requested delay")
        }
    }
}

/// The buffer slot the cursor points at after `m` single-slot advances from
/// `head`, wrapping at the active length `n`.
pub open spec fn slot_of(head: int, m: int, n: int) -> int {
    (head + m) % n
}

/// One `consume` step over the model state `(buffer, cursor)`: the sample is
/// written at the cursor, which then advances by one slot, wrapping at the
/// active length `n`. This is exactly the transition `consume` ensures.
pub open spec fn spec_consume<T>(buf: Seq<(T, T)>, head: int, n: int, v: (T, T)) -> (Seq<(T, T)>, int) {
    (buf.update(head, v), (head + 1) % n)
}

/// Buffer and cursor after consuming the samples of `vs` in order.
pub open spec fn spec_run<T>(buf: Seq<(T, T)>, head: int, n: int, vs: Seq<(T, T)>) -> (Seq<
    (T, T),
>, int)
    decreases vs.len(),
{
    if vs.len() == 0 {
        (buf, head)
    } else {
        let prev = spec_run(buf, head, n, vs.drop_last());
        spec_consume(prev.0, prev.1, n, vs.last())
    }
}

/// The values a caller sees through `head()` just before each `consume`:
/// entry `i` is what the cursor shows once the first `i` samples of `vs`
/// have been consumed.
pub open spec fn spec_delayed_outputs<T>(
    buf: Seq<(T, T)>,
    head: int,
    n: int,
    vs: Seq<(T, T)>,
) -> Seq<(T, T)> {
    Seq::new(
        vs.len(),
        |i: int|
            {
                let s = spec_run(buf, head, n, vs.take(i));
                s.0[s.1]
            },
    )
}

/// Two cursor positions fewer than a full lap apart occupy distinct slots.
proof fn lemma_mod_distinct(a: int, b: int, n: int)
    requires
        1 <= n,
        0 <= a < b,
        b - a < n,
    ensures
        a % n != b % n,
{
    lemma_fundamental_div_mod(a, n);
    lemma_fundamental_div_mod(b, n);
    if a % n == b % n {
        let qa = a / n;
        let qb = b / n;
        assert(b - a == n * (qb - qa)) by (nonlinear_arith)
            requires
                a == n * qa + a % n,
                b == n * qb + b % n,
                a % n == b % n,
        ;
        assert(false) by (nonlinear_arith)
            requires
                b - a == n * (qb - qa),
                0 < b - a < n,
        ;
    }
}

/// After consuming the samples of `vs`, the cursor has advanced `vs.len()`
/// slots, and the last `n` samples consumed sit in the slots they were
/// written to, in write order.
proof fn lemma_run_state<T>(buf: Seq<(T, T)>, head: int, n: int, vs: Seq<(T, T)>)
    requires
        1 <= n <= buf.len(),
        0 <= head < n,
    ensures
        ({
            let s = spec_run(buf, head, n, vs);
            &&& s.0.len() == buf.len()
            &&& s.1 == slot_of(head, vs.len() as int, n)
            &&& 0 <= s.1 < n
            &&& forall|m: int|
                0 <= m < vs.len() && vs.len() - n <= m ==> s.0[slot_of(head, m, n)] == vs[m]
            &&& forall|j: int|
                0 <= j < buf.len() && (forall|m: int|
                    0 <= m < vs.len() ==> j != slot_of(head, m, n)) ==> s.0[j] == buf[j]
        }),
    decreases vs.len(),
{
    let s = spec_run(buf, head, n, vs);
    if vs.len() == 0 {
        lemma_small_mod(head as nat, n as nat);
    } else {
        let vs0 = vs.drop_last();
        lemma_run_state(buf, head, n, vs0);
        let prev = spec_run(buf, head, n, vs0);
        let len = vs.len() as int;
        lemma_mod_bound(head + len - 1, n);
        lemma_add_mod_noop_right(1, head + len - 1, n);
        assert(s.1 == slot_of(head, len, n));
        lemma_mod_bound(head + len, n);
        assert(s.0[slot_of(head, len - 1, n)] == vs[len - 1]);
        assert forall|m: int|
            0 <= m < len - 1 && len - n <= m implies s.0[slot_of(head, m, n)] == vs[m] by {
            lemma_mod_bound(head + m, n);
            lemma_mod_distinct(head + m, head + len - 1, n);
            assert(prev.0[slot_of(head, m, n)] == vs0[m]);
        }
        assert forall|j: int|
            0 <= j < buf.len() && (forall|m: int|
                0 <= m < len ==> j != slot_of(head, m, n)) implies s.0[j] == buf[j] by {
            assert(j != slot_of(head, len - 1, n));
            assert(forall|m: int| 0 <= m < len - 1 ==> j != slot_of(head, m, n));
            assert(prev.0[j] == buf[j]);
        }
    }
}

/// Delay correctness: with an active length of `n`, the sample handed to the
/// `i`-th `consume` is exactly what `head()` shows before the `(i + n)`-th
/// one, whatever the buffer held beforehand — the written sequence is read
/// back unchanged, `n` calls later. Until then the reads see only the
/// buffer's prior contents, slot by slot: a line that starts zeroed plays
/// exactly `n` frames of silence before the first written frame returns.
pub proof fn lemma_delay_round_trip<T>(buf: Seq<(T, T)>, head: int, n: int, vs: Seq<(T, T)>)
    requires
        1 <= n <= buf.len(),
        0 <= head < n,
    ensures
        spec_delayed_outputs(buf, head, n, vs).len() == vs.len(),
        forall|i: int|
            n <= i < vs.len() ==> spec_delayed_outputs(buf, head, n, vs)[i] == vs[i - n],
        forall|i: int|
            0 <= i < vs.len() && i < n ==> spec_delayed_outputs(buf, head, n, vs)[i] == buf[slot_of(
                head,
                i,
                n,
            )],
{
    assert forall|i: int|
        n <= i < vs.len() implies spec_delayed_outputs(buf, head, n, vs)[i] == vs[i - n] by {
        let pre = vs.take(i);
        lemma_run_state(buf, head, n, pre);
        let s = spec_run(buf, head, n, pre);
        lemma_mod_add_multiples_vanish(head + i - n, n);
        assert(s.0[slot_of(head, i - n, n)] == pre[i - n]);
        assert(slot_of(head, i - n, n) == slot_of(head, i, n));
        assert(pre[i - n] == vs[i - n]);
    }
    assert forall|i: int|
        0 <= i < vs.len() && i < n implies spec_delayed_outputs(buf, head, n, vs)[i] == buf[slot_of(
        head,
        i,
        n,
    )] by {
        let pre = vs.take(i);
        lemma_run_state(buf, head, n, pre);
        let s = spec_run(buf, head, n, pre);
        lemma_mod_bound(head + i, n);
        assert forall|m: int| 0 <= m < pre.len() implies slot_of(head, i, n) != slot_of(
            head,
            m,
            n,
        ) by {
            lemma_mod_distinct(head + m, head + i, n);
        }
        assert(s.0[slot_of(head, i, n)] == buf[slot_of(head, i, n)]);
    }
}

/// A just-cleared line — as `new` and a committed `set_delay` leave it, with
/// the cursor on slot zero and every active slot holding the fill value —
/// outputs the fill value for its first `n` frames and from then on exactly
/// the frame written `n` calls earlier: the delay equals the active length,
/// and no output ever comes from a slot that was not first zeroed or
/// written.
pub proof fn lemma_fresh_line_outputs<T>(buf: Seq<(T, T)>, n: int, fill: (T, T), vs: Seq<(T, T)>)
    requires
        1 <= n <= buf.len(),
        forall|i: int| 0 <= i < n ==> buf[i] == fill,
    ensures
        spec_delayed_outputs(buf, 0, n, vs).len() == vs.len(),
        forall|i: int|
            0 <= i < vs.len() && i < n ==> spec_delayed_outputs(buf, 0, n, vs)[i] == fill,
        forall|i: int|
            n <= i < vs.len() ==> spec_delayed_outputs(buf, 0, n, vs)[i] == vs[i - n],
{
    lemma_delay_round_trip(buf, 0, n, vs);
    assert forall|i: int|
        0 <= i < vs.len() && i < n implies spec_delayed_outputs(buf, 0, n, vs)[i] == fill by {
        lemma_small_mod(i as nat, n as nat);
        assert(slot_of(0, i, n) == i);
    }
}

} // verus!
