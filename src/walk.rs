//! Frame-pointer stack walking.
//!
//! Each frame keeps, just below its frame pointer, the caller's return
//! address (four words down) and the caller's frame pointer (three words
//! down). The walk follows that chain from the innermost frame outwards and
//! stops at the first frame that looks corrupt, repeats itself or ends the
//! chain, or when the output is full.
use vstd::prelude::*;

verus! {

/// How many return addresses one walk can record.
pub const MAX_BACKTRACE_ADDRESSES: usize = 10;

/// Bits of an address that select the cache attribute of the access.
pub const CACHE_TAG_MASK: u32 = 0xc000_0000;

/// The canonical form of an address: the cache-attribute bits cleared and
/// the RAM window bit set, so that all aliases of one location agree.
pub open spec fn sanitized(address: u32) -> u32 {
    (address & 0x3fff_ffff) | 0x4000_0000
}

/// Normalises a raw return address read from a stack frame.
pub fn sanitize_address(address: u32) -> (r: u32)
    ensures
        r == sanitized(address),
        r & 0x3fff_ffff == address & 0x3fff_ffff,
        r & CACHE_TAG_MASK == 0x4000_0000,
{
    let r = (address & 0x3fff_ffff) | 0x4000_0000;
    assert(r & 0x3fff_ffff == address & 0x3fff_ffff && r & 0xc000_0000 == 0x4000_0000)
        by (bit_vector)
        requires
            r == (address & 0x3fff_ffff) | 0x4000_0000,
    ;
    r
}

/// Where a frame keeps its caller's return address.
pub open spec fn return_slot(fp: u32) -> u32 {
    fp.wrapping_sub(16)
}

/// Where a frame keeps its caller's frame pointer.
pub open spec fn link_slot(fp: u32) -> u32 {
    fp.wrapping_sub(12)
}

/// The range of addresses that a frame pointer may plausibly hold: from
/// `start` up to, not including, `end`.
#[derive(Clone, Copy, Debug)]
pub struct RamRegion {
    pub start: u32,
    pub end: u32,
}

impl RamRegion {
    pub open spec fn holds(self, address: u32) -> bool {
        self.start <= address && address < self.end
    }

    /// Whether `address` may be dereferenced as a frame pointer.
    pub fn contains(&self, address: u32) -> (r: bool)
        ensures
            r == self.holds(address),
    {
        self.start <= address && address < self.end
    }
}

/// A captured copy of stack memory: `words[i]` is the word stored at
/// `base + 4 * i`. Every other address reads as zero.
#[derive(Debug)]
pub struct StackImage {
    pub base: u32,
    pub words: Vec<u32>,
}

impl StackImage {
    /// The word that the image holds at `address`.
    pub open spec fn word_at(self, address: u32) -> u32 {
        let offset = address - self.base;
        if self.base <= address && offset % 4 == 0 && offset / 4 < self.words.len() {
            self.words[offset / 4]
        } else {
            0
        }
    }

    /// Reads the word at `address`.
    pub fn read_word(&self, address: u32) -> (r: u32)
        ensures
            r == self.word_at(address),
    {
        if address < self.base {
            return 0;
        }
        let offset = address - self.base;
        if offset % 4 != 0 {
            return 0;
        }
        let index = (offset / 4) as usize;
        if index < self.words.len() {
            self.words[index]
        } else {
            0
        }
    }
}

/// The state of a walk between two frames, as a value.
pub ghost struct WalkState {
    /// The frame whose slots are read next.
    pub frame_pointer: u32,
    /// The return address taken from the frame before (0 at the start).
    pub previous: u32,
    /// How many frames are still to be skipped before recording.
    pub suppress: nat,
    /// The return addresses recorded so far, innermost first.
    pub recorded: Seq<u32>,
    /// Whether the walk has stopped.
    pub finished: bool,
}

/// The state in which a walk from `sp` begins.
pub open spec fn start_state(sp: u32, suppress: nat) -> WalkState {
    WalkState {
        frame_pointer: sp,
        previous: 0,
        suppress,
        recorded: Seq::empty(),
        finished: false,
    }
}

/// Whether a frame whose return slot holds `raw_return` and whose link slot
/// holds `next_fp` ends the walk: its return address repeats the previous
/// one or is zero, or the link is implausible or null.
pub open spec fn halts(previous: u32, raw_return: u32, next_fp: u32, plausible: bool) -> bool {
    let address = sanitized(raw_return);
    address == previous || address == 0 || !plausible || next_fp == 0
}

/// One step of the walk on the contents of the current frame's two slots;
/// `plausible` tells whether `next_fp` passed the plausibility check.
pub open spec fn step_state(s: WalkState, raw_return: u32, next_fp: u32, plausible: bool) -> WalkState {
    let address = sanitized(raw_return);
    if halts(s.previous, raw_return, next_fp, plausible) {
        WalkState { finished: true, ..s }
    } else if s.suppress > 0 {
        WalkState {
            frame_pointer: next_fp,
            previous: address,
            suppress: (s.suppress - 1) as nat,
            ..s
        }
    } else {
        WalkState {
            frame_pointer: next_fp,
            previous: address,
            recorded: s.recorded.push(address),
            finished: s.recorded.len() + 1 >= MAX_BACKTRACE_ADDRESSES,
            ..s
        }
    }
}

/// What every step of an unfinished walk lowers: the frames still to skip
/// plus the free output slots, and one more until the walk is finished.
pub open spec fn walk_measure(s: WalkState) -> nat {
    (if s.finished { 0nat } else { 1nat }) + s.suppress + (MAX_BACKTRACE_ADDRESSES - s.recorded.len()) as nat
}

/// Runs the walk over `mem` from state `s` until it stops.
pub open spec fn run(mem: StackImage, region: RamRegion, s: WalkState) -> WalkState
    decreases walk_measure(s),
{
    if s.finished || s.recorded.len() >= MAX_BACKTRACE_ADDRESSES {
        s
    } else {
        let next_fp = mem.word_at(link_slot(s.frame_pointer));
        let raw_return = mem.word_at(return_slot(s.frame_pointer));
        run(mem, region, step_state(s, raw_return, next_fp, region.holds(next_fp)))
    }
}

/// The return addresses that a walk over `mem` from `sp` records.
pub open spec fn walk(mem: StackImage, region: RamRegion, sp: u32, suppress: nat) -> Seq<u32> {
    run(mem, region, start_state(sp, suppress)).recorded
}

/// The fixed-capacity output for `recorded`: its addresses in order, then
/// empty slots.
pub open spec fn dense(recorded: Seq<u32>) -> Seq<Option<usize>> {
    Seq::new(
        MAX_BACKTRACE_ADDRESSES as nat,
        |i: int|
            if i < recorded.len() {
                Some(recorded[i] as usize)
            } else {
                None
            },
    )
}

/// A stack walk in progress. The caller reads the two slots of the current
/// frame (`return_address_slot` and `next_frame_slot`), checks the link for
/// plausibility, and hands the three values to `step` until the walk is
/// finished.
pub struct Walker {
    fp: u32,
    previous: u32,
    suppress: u32,
    slots: [Option<usize>; MAX_BACKTRACE_ADDRESSES],
    len: usize,
    finished: bool,
    recorded: Ghost<Seq<u32>>,
}

impl View for Walker {
    type V = WalkState;

    closed spec fn view(&self) -> WalkState {
        WalkState {
            frame_pointer: self.fp,
            previous: self.previous,
            suppress: self.suppress as nat,
            recorded: self.recorded@,
            finished: self.finished,
        }
    }
}

impl Walker {
    /// The walker's internal consistency: the output buffer holds exactly the
    /// recorded addresses followed by empty slots, and a full buffer ends the
    /// walk.
    pub closed spec fn inv(&self) -> bool {
        &&& self.len == self.recorded@.len()
        &&& self.len <= MAX_BACKTRACE_ADDRESSES
        &&& self.len == MAX_BACKTRACE_ADDRESSES ==> self.finished
        &&& self.slots@ == dense(self.recorded@)
    }

    /// Starts a walk at stack pointer `sp` that skips the first `suppress`
    /// frames it would record.
    pub fn new(sp: u32, suppress: u32) -> (w: Walker)
        ensures
            w.inv(),
            w@ == start_state(sp, suppress as nat),
    {
        let w = Walker {
            fp: sp,
            previous: 0,
            suppress,
            slots: [None; MAX_BACKTRACE_ADDRESSES],
            len: 0,
            finished: false,
            recorded: Ghost(Seq::empty()),
        };
        assert(w.slots@ =~= dense(Seq::empty()));
        w
    }

    /// Whether the walk has stopped.
    pub fn is_finished(&self) -> (r: bool)
        ensures
            r == self@.finished,
    {
        self.finished
    }

    /// The address of the current frame's saved return address.
    pub fn return_address_slot(&self) -> (r: u32)
        ensures
            r == return_slot(self@.frame_pointer),
    {
        self.fp.wrapping_sub(16)
    }

    /// The address of the current frame's saved link to the next frame.
    pub fn next_frame_slot(&self) -> (r: u32)
        ensures
            r == link_slot(self@.frame_pointer),
    {
        self.fp.wrapping_sub(12)
    }

    /// Takes one frame: `raw_return` and `next_fp` are what its two slots
    /// hold, `plausible` whether `next_fp` may be dereferenced. Returns
    /// whether the walk goes on.
    pub fn step(&mut self, raw_return: u32, next_fp: u32, plausible: bool) -> (more: bool)
        requires
            old(self).inv(),
            !old(self)@.finished,
        ensures
            final(self).inv(),
            final(self)@ == step_state(old(self)@, raw_return, next_fp, plausible),
            more == !final(self)@.finished,
    {
        let address = sanitize_address(raw_return);
        if address == self.previous || address == 0 || !plausible || next_fp == 0 {
            self.finished = true;
            return false;
        }
        self.fp = next_fp;
        self.previous = address;
        if self.suppress > 0 {
            self.suppress = self.suppress - 1;
        } else {
            let ghost before = self.recorded@;
            self.slots[self.len] = Some(address as usize);
            self.len = self.len + 1;
            self.recorded = Ghost(before.push(address));
            assert(self.slots@ =~= dense(self.recorded@));
            if self.len >= MAX_BACKTRACE_ADDRESSES {
                self.finished = true;
            }
        }
        !self.finished
    }

    /// The output buffer: the recorded addresses, innermost first, then
    /// empty slots.
    pub fn addresses(&self) -> (r: [Option<usize>; MAX_BACKTRACE_ADDRESSES])
        requires
            self.inv(),
        ensures
            r@ == dense(self@.recorded),
    {
        self.slots
    }
}

/// Walks the frame chain held in `image` from stack pointer `sp`, skipping
/// the first `suppress` frames, and accepting as links only addresses that
/// `region` contains.
pub fn backtrace_from_image(image: &StackImage, region: &RamRegion, sp: u32, suppress: u32) -> (r: [Option<usize>; MAX_BACKTRACE_ADDRESSES])
    ensures
        r@ == dense(walk(*image, *region, sp, suppress as nat)),
{
    let mut w = Walker::new(sp, suppress);
    while !w.is_finished()
        invariant
            w.inv(),
            run(*image, *region, w@) == run(*image, *region, start_state(sp, suppress as nat)),
        decreases walk_measure(w@),
    {
        let raw_return = image.read_word(w.return_address_slot());
        let next_fp = image.read_word(w.next_frame_slot());
        let plausible = region.contains(next_fp);
        w.step(raw_return, next_fp, plausible);
    }
    w.addresses()
}

} // verus!
