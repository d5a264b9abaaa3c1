use esp_backtrace::walk::{
    backtrace_from_image, sanitize_address, RamRegion, StackImage, Walker,
    MAX_BACKTRACE_ADDRESSES,
};

const BASE: u32 = 0x3ffb_0000;
const REGION: RamRegion = RamRegion { start: 0x3ffb_0000, end: 0x3ffc_0000 };

fn frame(i: u32) -> u32 {
    BASE + 0x40 * (i + 1)
}

fn ret(i: u32) -> u32 {
    0x400d_0000 + 0x10 * i
}

fn put(image: &mut StackImage, address: u32, value: u32) {
    image.words[((address - image.base) / 4) as usize] = value;
}

/// A stack of `n` frames, frame `i` at `frame(i)` returning to `ret(i)`;
/// the frame after the last has a null link.
fn chain(n: u32) -> StackImage {
    let mut image = StackImage { base: BASE, words: vec![0; 0x40 * 20] };
    for i in 0..n {
        put(&mut image, frame(i) - 16, ret(i));
        put(&mut image, frame(i) - 12, frame(i + 1));
    }
    put(&mut image, frame(n) - 16, ret(n));
    put(&mut image, frame(n) - 12, 0);
    image
}

fn expected(frames: std::ops::Range<u32>) -> [Option<usize>; MAX_BACKTRACE_ADDRESSES] {
    let mut out = [None; MAX_BACKTRACE_ADDRESSES];
    for (slot, i) in frames.enumerate() {
        out[slot] = Some(ret(i) as usize);
    }
    out
}

#[test]
fn sanitize_clears_cache_bits() {
    assert_eq!(sanitize_address(0x800d_1234), 0x400d_1234);
    assert_eq!(sanitize_address(0xc00d_1234), 0x400d_1234);
    assert_eq!(sanitize_address(0x000d_1234), 0x400d_1234);
    assert_eq!(sanitize_address(0x400d_1234), 0x400d_1234);
    assert_eq!(sanitize_address(0), 0x4000_0000);
    assert_eq!(sanitize_address(0xffff_ffff), 0x7fff_ffff);
}

#[test]
fn sanitize_is_idempotent_and_alias_free() {
    for a in [0u32, 1, 0x3fff_ffff, 0x4008_2000, 0x8008_2000, 0xdead_beef, 0xffff_ffff] {
        let once = sanitize_address(a);
        assert_eq!(sanitize_address(once), once);
        for tag in [0u32, 0x4000_0000, 0x8000_0000, 0xc000_0000] {
            assert_eq!(sanitize_address((a & 0x3fff_ffff) | tag), once);
        }
    }
}

#[test]
fn region_bounds() {
    assert!(REGION.contains(0x3ffb_0000));
    assert!(REGION.contains(0x3ffb_ff00));
    assert!(!REGION.contains(0x3ffc_0000));
    assert!(!REGION.contains(0x3ffa_fff0));
    assert!(!REGION.contains(0));
}

#[test]
fn image_reads() {
    let image = StackImage { base: 0x1000, words: vec![7, 8, 9] };
    assert_eq!(image.read_word(0x1000), 7);
    assert_eq!(image.read_word(0x1008), 9);
    assert_eq!(image.read_word(0x100c), 0);
    assert_eq!(image.read_word(0x1002), 0);
    assert_eq!(image.read_word(0x0ffc), 0);
}

#[test]
fn chain_of_three_frames() {
    let image = chain(3);
    assert_eq!(backtrace_from_image(&image, &REGION, frame(0), 0), expected(0..3));
}

#[test]
fn single_frame_chain() {
    let image = chain(1);
    assert_eq!(backtrace_from_image(&image, &REGION, frame(0), 0), expected(0..1));
}

#[test]
fn empty_chain() {
    let image = chain(0);
    assert_eq!(backtrace_from_image(&image, &REGION, frame(0), 0), [None; MAX_BACKTRACE_ADDRESSES]);
}

#[test]
fn suppress_skips_inner_frames() {
    let image = chain(5);
    assert_eq!(backtrace_from_image(&image, &REGION, frame(0), 2), expected(2..5));
    assert_eq!(backtrace_from_image(&image, &REGION, frame(0), 4), expected(4..5));
}

#[test]
fn suppress_past_chain_is_empty() {
    let image = chain(3);
    assert_eq!(backtrace_from_image(&image, &REGION, frame(0), 3), [None; MAX_BACKTRACE_ADDRESSES]);
    assert_eq!(backtrace_from_image(&image, &REGION, frame(0), 9), [None; MAX_BACKTRACE_ADDRESSES]);
}

#[test]
fn repeated_return_address_stops() {
    let mut image = chain(5);
    // Frame 2 returns to frame 1's address, seen through another cache alias.
    put(&mut image, frame(2) - 16, (ret(1) & 0x3fff_ffff) | 0x8000_0000);
    assert_eq!(backtrace_from_image(&image, &REGION, frame(0), 0), expected(0..2));
}

#[test]
fn self_linked_frame_stops() {
    let mut image = chain(5);
    put(&mut image, frame(1) - 12, frame(1));
    assert_eq!(backtrace_from_image(&image, &REGION, frame(0), 0), expected(0..2));
}

#[test]
fn implausible_link_stops() {
    let mut image = chain(5);
    put(&mut image, frame(2) - 12, 0x3ffc_0000);
    assert_eq!(backtrace_from_image(&image, &REGION, frame(0), 0), expected(0..2));
    put(&mut image, frame(2) - 12, 0x1000);
    assert_eq!(backtrace_from_image(&image, &REGION, frame(0), 1), expected(1..2));
}

#[test]
fn long_chain_fills_capacity() {
    let image = chain(15);
    assert_eq!(backtrace_from_image(&image, &REGION, frame(0), 0), expected(0..10));
    assert_eq!(backtrace_from_image(&image, &REGION, frame(0), 3), expected(3..13));
}

#[test]
fn chain_of_exactly_capacity() {
    let image = chain(10);
    assert_eq!(backtrace_from_image(&image, &REGION, frame(0), 0), expected(0..10));
}

#[test]
fn capacity_stops_before_corrupt_frames() {
    let mut image = chain(10);
    // Frame 10 would link back into frame 0; the walk never looks at it.
    put(&mut image, frame(10) - 12, frame(0));
    assert_eq!(backtrace_from_image(&image, &REGION, frame(0), 0), expected(0..10));
}

#[test]
fn zero_return_slot_is_sanitized_not_an_end() {
    let mut image = chain(3);
    put(&mut image, frame(1) - 16, 0);
    let trace = backtrace_from_image(&image, &REGION, frame(0), 0);
    assert_eq!(trace[0], Some(ret(0) as usize));
    assert_eq!(trace[1], Some(0x4000_0000));
    assert_eq!(trace[2], Some(ret(2) as usize));
    assert_eq!(trace[3], None);
}

#[test]
fn stack_pointer_outside_image() {
    let image = chain(3);
    assert_eq!(backtrace_from_image(&image, &REGION, 0x2000_0000, 0), [None; MAX_BACKTRACE_ADDRESSES]);
}

#[test]
fn walker_steps_by_hand() {
    let mut w = Walker::new(0x3ffb_0100, 1);
    assert!(!w.is_finished());
    assert_eq!(w.return_address_slot(), 0x3ffb_00f0);
    assert_eq!(w.next_frame_slot(), 0x3ffb_00f4);
    // Skipped frame.
    assert!(w.step(0x800d_0010, 0x3ffb_0200, true));
    assert_eq!(w.return_address_slot(), 0x3ffb_01f0);
    // Recorded frame.
    assert!(w.step(0x800d_0020, 0x3ffb_0300, true));
    // Implausible link ends the walk.
    assert!(!w.step(0x800d_0030, 0x3ffb_0400, false));
    assert!(w.is_finished());
    let mut want = [None; MAX_BACKTRACE_ADDRESSES];
    want[0] = Some(0x400d_0020);
    assert_eq!(w.addresses(), want);
}

#[test]
fn walker_null_link_ends() {
    let mut w = Walker::new(0x3ffb_0100, 0);
    assert!(!w.step(0x400d_0010, 0, true));
    assert_eq!(w.addresses(), [None; MAX_BACKTRACE_ADDRESSES]);
}
