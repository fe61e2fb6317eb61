use file_transfer::engine::scheduler::plan_chunk_ranges;
use file_transfer::engine::CHUNK_SIZE;

#[test]
fn splits_into_full_chunks() {
    let ranges = plan_chunk_ranges(CHUNK_SIZE as u64 * 2);
    assert_eq!(ranges, vec![(0, CHUNK_SIZE as u64), (CHUNK_SIZE as u64, CHUNK_SIZE as u64 * 2)]);
}

#[test]
fn truncates_last_chunk() {
    let ranges = plan_chunk_ranges(CHUNK_SIZE as u64 + 100);
    assert_eq!(ranges, vec![(0, CHUNK_SIZE as u64), (CHUNK_SIZE as u64, CHUNK_SIZE as u64 + 100)]);
}

#[test]
fn empty_file_is_one_zero_length_range() {
    assert_eq!(plan_chunk_ranges(0), vec![(0, 0)]);
}

#[test]
fn chunk_size_is_one_mebibyte() {
    assert_eq!(CHUNK_SIZE, 1024 * 1024);
}

#[test]
fn smaller_than_one_chunk_is_one_range() {
    assert_eq!(plan_chunk_ranges(1), vec![(0, 1)]);
    assert_eq!(plan_chunk_ranges(CHUNK_SIZE as u64 - 1), vec![(0, CHUNK_SIZE as u64 - 1)]);
}

#[test]
fn ranges_cover_the_file_contiguously() {
    let size = CHUNK_SIZE as u64 * 5 + 7;
    let ranges = plan_chunk_ranges(size);
    assert_eq!(ranges.len(), 6);
    assert_eq!(ranges[0].0, 0);
    assert_eq!(ranges[5], (CHUNK_SIZE as u64 * 5, size));
    for w in ranges.windows(2) {
        assert_eq!(w[0].1, w[1].0);
        assert!(w[0].1 - w[0].0 <= CHUNK_SIZE as u64);
    }
}
