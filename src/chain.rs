//! What a walk returns over a well-formed chain of frames.
use vstd::prelude::*;
use crate::walk::{
    MAX_BACKTRACE_ADDRESSES, RamRegion, StackImage, WalkState, halts, link_slot, return_slot,
    run, sanitized, start_state, step_state, walk, walk_measure,
};

verus! {

/// Sanitising twice gives what sanitising once gives.
pub proof fn lemma_sanitize_idempotent(address: u32)
    ensures
        sanitized(sanitized(address)) == sanitized(address),
{
    assert(((((address & 0x3fff_ffff) | 0x4000_0000) & 0x3fff_ffff) | 0x4000_0000) == (address
        & 0x3fff_ffff) | 0x4000_0000) by (bit_vector);
}

/// Two addresses that differ only in their cache-attribute bits sanitise to
/// the same value.
pub proof fn lemma_sanitize_alias(a: u32, b: u32)
    requires
        (a ^ b) & 0x3fff_ffff == 0,
    ensures
        sanitized(a) == sanitized(b),
{
    assert((a ^ b) & 0x3fff_ffff == 0 ==> (a & 0x3fff_ffff) | 0x4000_0000 == (b & 0x3fff_ffff)
        | 0x4000_0000) by (bit_vector);
}

/// A sanitised address is never zero.
pub proof fn lemma_sanitized_nonzero(address: u32)
    ensures
        sanitized(address) != 0,
{
    assert((address & 0x3fff_ffff) | 0x4000_0000 != 0) by (bit_vector);
}

/// The return address that the frame at `fp` holds, sanitised.
pub open spec fn frame_return(mem: StackImage, fp: u32) -> u32 {
    sanitized(mem.word_at(return_slot(fp)))
}

/// The link to the next frame that the frame at `fp` holds.
pub open spec fn frame_next(mem: StackImage, fp: u32) -> u32 {
    mem.word_at(link_slot(fp))
}

/// The return address of the frame before frame `i` of `fps` (0 before the
/// first).
pub open spec fn previous_return(mem: StackImage, fps: Seq<u32>, i: int) -> u32 {
    if i == 0 {
        0
    } else {
        frame_return(mem, fps[i - 1])
    }
}

/// The frames at `fps[0]`, ..., `fps[n - 1]` form a chain: each links to the
/// next through a plausible, non-null frame pointer, and each return address
/// differs from the one before.
pub open spec fn linked(mem: StackImage, region: RamRegion, fps: Seq<u32>, n: int) -> bool {
    &&& 0 <= n < fps.len()
    &&& forall|i: int|
        0 <= i < n ==> {
            &&& #[trigger] frame_next(mem, fps[i]) == fps[i + 1]
            &&& region.holds(fps[i + 1])
            &&& fps[i + 1] != 0
            &&& frame_return(mem, fps[i]) != previous_return(mem, fps, i)
        }
}

/// The frame at `fps[n]` ends the walk.
pub open spec fn ends_chain(mem: StackImage, region: RamRegion, fps: Seq<u32>, n: int) -> bool {
    let next = frame_next(mem, fps[n]);
    halts(previous_return(mem, fps, n), mem.word_at(return_slot(fps[n])), next, region.holds(next))
}

/// The return addresses of frames `lo` up to, not including, `hi`.
pub open spec fn returns_of(mem: StackImage, fps: Seq<u32>, lo: int, hi: int) -> Seq<u32> {
    Seq::new((hi - lo) as nat, |j: int| frame_return(mem, fps[lo + j]))
}

/// The smaller of `a` and `b`.
pub open spec fn min(a: int, b: int) -> int {
    if a <= b {
        a
    } else {
        b
    }
}

/// A walk standing at frame `i` of a chain records the return addresses of
/// the frames that it does not skip, until the chain ends or the output is
/// full.
proof fn lemma_run_chain(mem: StackImage, region: RamRegion, fps: Seq<u32>, n: int, i: int, s: WalkState)
    requires
        linked(mem, region, fps, n),
        0 <= i <= n,
        s.frame_pointer == fps[i],
        s.previous == previous_return(mem, fps, i),
        !s.finished,
        s.recorded.len() < MAX_BACKTRACE_ADDRESSES,
        ends_chain(mem, region, fps, n) || min(i + s.suppress, n) + MAX_BACKTRACE_ADDRESSES
            - s.recorded.len() <= n,
    ensures
        ({
            let first = min(i + s.suppress, n);
            run(mem, region, s).recorded == s.recorded + returns_of(
                mem,
                fps,
                first,
                min(n, first + MAX_BACKTRACE_ADDRESSES - s.recorded.len()),
            )
        }),
    decreases n - i,
{
    let first = min(i + s.suppress, n);
    let hi = min(n, first + MAX_BACKTRACE_ADDRESSES - s.recorded.len());
    let raw = mem.word_at(return_slot(fps[i]));
    let next = mem.word_at(link_slot(fps[i]));
    let t = step_state(s, raw, next, region.holds(next));
    assert(run(mem, region, s) == run(mem, region, t));
    if i == n {
        assert(returns_of(mem, fps, first, hi) =~= Seq::<u32>::empty());
        assert(s.recorded + returns_of(mem, fps, first, hi) =~= s.recorded);
    } else {
        assert(frame_next(mem, fps[i]) == fps[i + 1]);
        lemma_sanitized_nonzero(raw);
        assert(!halts(s.previous, raw, next, region.holds(next)));
        if s.suppress > 0 {
            lemma_run_chain(mem, region, fps, n, i + 1, t);
        } else if t.finished {
            assert(t.recorded =~= s.recorded + returns_of(mem, fps, first, hi));
        } else {
            lemma_run_chain(mem, region, fps, n, i + 1, t);
            assert(t.recorded + returns_of(mem, fps, i + 1, hi) =~= s.recorded + returns_of(
                mem,
                fps,
                first,
                hi,
            ));
        }
    }
}

/// Over a chain of `n` frames that ends at frame `n`, a walk that skips `k`
/// frames returns the return addresses of frames `k`, `k + 1`, ... in chain
/// order, at most the output's capacity of them, and nothing when `k >= n`.
pub proof fn lemma_walk_chain(mem: StackImage, region: RamRegion, fps: Seq<u32>, n: int, k: nat)
    requires
        linked(mem, region, fps, n),
        ends_chain(mem, region, fps, n),
    ensures
        walk(mem, region, fps[0], k) == returns_of(
            mem,
            fps,
            min(k as int, n),
            min(n, k + MAX_BACKTRACE_ADDRESSES),
        ),
        walk(mem, region, fps[0], k).len() == if k >= n {
            0
        } else {
            min(n - k, MAX_BACKTRACE_ADDRESSES as int)
        },
{
    let s = start_state(fps[0], k);
    lemma_run_chain(mem, region, fps, n, 0, s);
    assert(s.recorded + returns_of(mem, fps, min(k as int, n), min(n, k + MAX_BACKTRACE_ADDRESSES))
        =~= returns_of(mem, fps, min(k as int, n), min(n, k + MAX_BACKTRACE_ADDRESSES)));
}

/// A frame whose return address repeats the one before ends the walk there,
/// and its address is not recorded.
pub proof fn lemma_walk_stops_on_repeat(mem: StackImage, region: RamRegion, fps: Seq<u32>, n: int, k: nat)
    requires
        linked(mem, region, fps, n),
        frame_return(mem, fps[n]) == previous_return(mem, fps, n),
    ensures
        walk(mem, region, fps[0], k) == returns_of(
            mem,
            fps,
            min(k as int, n),
            min(n, k + MAX_BACKTRACE_ADDRESSES),
        ),
{
    lemma_walk_chain(mem, region, fps, n, k);
}

/// A frame whose link fails the plausibility check ends the walk there: the
/// result is what was recorded before it.
pub proof fn lemma_walk_stops_on_implausible_link(mem: StackImage, region: RamRegion, fps: Seq<u32>, n: int, k: nat)
    requires
        linked(mem, region, fps, n),
        !region.holds(frame_next(mem, fps[n])),
    ensures
        walk(mem, region, fps[0], k) == returns_of(
            mem,
            fps,
            min(k as int, n),
            min(n, k + MAX_BACKTRACE_ADDRESSES),
        ),
{
    lemma_walk_chain(mem, region, fps, n, k);
}

/// A chain longer than what the output can take yields a full output, taken
/// from frames `k` to `k + capacity - 1` only: nothing at or beyond frame
/// `k + capacity` is looked at.
pub proof fn lemma_walk_fills_capacity(mem: StackImage, region: RamRegion, fps: Seq<u32>, n: int, k: nat)
    requires
        linked(mem, region, fps, n),
        n >= k + MAX_BACKTRACE_ADDRESSES,
    ensures
        walk(mem, region, fps[0], k) == returns_of(mem, fps, k as int, k + MAX_BACKTRACE_ADDRESSES),
        walk(mem, region, fps[0], k).len() == MAX_BACKTRACE_ADDRESSES,
{
    let s = start_state(fps[0], k);
    lemma_run_chain(mem, region, fps, n, 0, s);
    assert(s.recorded + returns_of(mem, fps, k as int, k + MAX_BACKTRACE_ADDRESSES) =~= returns_of(
        mem,
        fps,
        k as int,
        k + MAX_BACKTRACE_ADDRESSES,
    ));
}

proof fn lemma_run_bounded(mem: StackImage, region: RamRegion, s: WalkState)
    requires
        s.recorded.len() <= MAX_BACKTRACE_ADDRESSES,
    ensures
        run(mem, region, s).recorded.len() <= MAX_BACKTRACE_ADDRESSES,
    decreases walk_measure(s),
{
    if !(s.finished || s.recorded.len() >= MAX_BACKTRACE_ADDRESSES) {
        let next_fp = mem.word_at(link_slot(s.frame_pointer));
        let raw_return = mem.word_at(return_slot(s.frame_pointer));
        let t = step_state(s, raw_return, next_fp, region.holds(next_fp));
        lemma_run_bounded(mem, region, t);
    }
}

/// Whatever the memory holds and wherever the walk starts, it records at most
/// the output's capacity of addresses.
pub proof fn lemma_walk_bounded(mem: StackImage, region: RamRegion, sp: u32, suppress: nat)
    ensures
        walk(mem, region, sp, suppress).len() <= MAX_BACKTRACE_ADDRESSES,
{
    lemma_run_bounded(mem, region, start_state(sp, suppress));
}

} // verus!
