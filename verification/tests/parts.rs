use storyboard::parts::{part_count, part_range, MULTIPART_CHUNK_SIZE, MULTIPART_THRESHOLD};

#[test]
fn sizes_are_in_mebibytes() {
    assert_eq!(MULTIPART_THRESHOLD, 100 * 1024 * 1024);
    assert_eq!(MULTIPART_CHUNK_SIZE, 10 * 1024 * 1024);
}

#[test]
fn part_counts_round_up() {
    assert_eq!(part_count(0), 0);
    assert_eq!(part_count(1), 1);
    assert_eq!(part_count(MULTIPART_CHUNK_SIZE), 1);
    assert_eq!(part_count(MULTIPART_CHUNK_SIZE + 1), 2);
    assert_eq!(part_count(MULTIPART_THRESHOLD + 1), 11);
    assert_eq!(part_count(u64::MAX), u64::MAX.div_ceil(MULTIPART_CHUNK_SIZE));
}

#[test]
fn parts_tile_the_file() {
    for size in [1, MULTIPART_CHUNK_SIZE - 1, MULTIPART_CHUNK_SIZE, MULTIPART_THRESHOLD + 7] {
        let mut end = 0;
        for part in 1..=part_count(size) {
            let (start, len) = part_range(size, part);
            assert_eq!(start, end);
            assert!(0 < len && len <= MULTIPART_CHUNK_SIZE);
            end = start + len;
        }
        assert_eq!(end, size);
    }
}

#[test]
fn the_last_part_is_what_is_left() {
    assert_eq!(part_range(MULTIPART_THRESHOLD + 7, 11), (MULTIPART_THRESHOLD, 7));
    assert_eq!(part_range(MULTIPART_THRESHOLD + 7, 2), (MULTIPART_CHUNK_SIZE, MULTIPART_CHUNK_SIZE));
}

#[test]
fn every_byte_lies_in_one_part() {
    let size = 3 * MULTIPART_CHUNK_SIZE + 1;
    for at in [0, MULTIPART_CHUNK_SIZE - 1, MULTIPART_CHUNK_SIZE, size - 1] {
        let holders = (1..=part_count(size))
            .map(|part| part_range(size, part))
            .filter(|(start, len)| *start <= at && at < start + len)
            .count();
        assert_eq!(holders, 1);
    }
}
