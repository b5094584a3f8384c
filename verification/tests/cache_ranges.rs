use igb_driver::cache::{dcache_clean_range, dcache_invalidate_range, dcache_line_size, CacheOp};

#[test]
fn line_size_from_ctr() {
    assert_eq!(dcache_line_size(0), 4);
    // DminLine = 4: 16 words of 4 bytes.
    assert_eq!(dcache_line_size(0x8444_C004), 64);
    assert_eq!(dcache_line_size(0x0004_0000), 64);
    assert_eq!(dcache_line_size(0x000F_0000), 0x20000);
    // Bits outside 16..=19 do not matter.
    assert_eq!(dcache_line_size(0xFFF0_FFFF), 4);
}

#[test]
fn invalidate_rounds_out_to_lines() {
    let r = dcache_invalidate_range(0x1003, 0x10, 0x0004_0000);
    assert_eq!(r.op, CacheOp::Invalidate);
    assert_eq!(r.line_size, 64);
    assert_eq!(r.start, 0x1000);
    assert_eq!(r.end, 0x1040);
}

#[test]
fn clean_spanning_two_lines() {
    let r = dcache_clean_range(0x103C, 0x8, 0x0004_0000);
    assert_eq!(r.op, CacheOp::Clean);
    assert_eq!(r.start, 0x1000);
    assert_eq!(r.end, 0x1080);
}

#[test]
fn aligned_range_is_unchanged() {
    let r = dcache_clean_range(0x2000, 0x100, 0x0004_0000);
    assert_eq!((r.start, r.end), (0x2000, 0x2100));
}

#[test]
fn empty_range() {
    let r = dcache_invalidate_range(0x2000, 0, 0x0004_0000);
    assert_eq!((r.start, r.end), (0x2000, 0x2000));
    let r = dcache_invalidate_range(0x2001, 0, 0x0004_0000);
    assert_eq!((r.start, r.end), (0x2000, 0x2040));
}

#[test]
fn ranges_cover_and_stay_within_a_line() {
    for ctr in [0u64, 0x0002_0000, 0x0004_0000, 0x0005_0000] {
        let line = dcache_line_size(ctr);
        for addr in [0usize, 1, 63, 64, 100, 0x1234] {
            for size in [0usize, 1, 15, 64, 200] {
                let r = dcache_invalidate_range(addr, size, ctr);
                assert_eq!(r.start % line, 0);
                assert_eq!(r.end % line, 0);
                assert!(r.start <= addr && addr - r.start < line);
                assert!(addr + size <= r.end && r.end - (addr + size) < line);
            }
        }
    }
}

#[test]
fn line_addresses() {
    let r = dcache_clean_range(0x103C, 0x48, 0x0004_0000);
    assert_eq!(r.lines(), vec![0x1000, 0x1040, 0x1080]);
    let r = dcache_invalidate_range(0x2000, 0, 0x0004_0000);
    assert_eq!(r.lines(), Vec::<usize>::new());
    let r = dcache_invalidate_range(0x7, 0x2, 0);
    assert_eq!(r.lines(), vec![0x4, 0x8]);
}
