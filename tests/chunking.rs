use gdbloader::text::decimal_text;
use gdbloader::chunking::{checksum, chunk_bounds, chunk_count};

#[test]
fn checksum_examples() {
    assert_eq!(checksum(&[1, 2, 3, 255]), 261);
    assert_eq!(checksum(&[]), 0);
}

#[test]
fn checksum_wraps_around() {
    let data = vec![255u8; 16_843_010];
    // 255 * 16843010 = 4294967550 = 2^32 + 254
    assert_eq!(checksum(&data), 254);
}

#[test]
fn checksum_ignores_order() {
    assert_eq!(checksum(&[9, 200, 1, 77]), checksum(&[77, 1, 200, 9]));
}

#[test]
fn checksum_adds_up() {
    let a = [10u8, 20, 30];
    let b = [250u8, 250];
    let all = [10u8, 20, 30, 250, 250];
    assert_eq!(checksum(&all), checksum(&a).wrapping_add(checksum(&b)));
}

#[test]
fn chunk_count_rounds_up() {
    assert_eq!(chunk_count(150_000, 65_536), 3);
    assert_eq!(chunk_count(131_072, 65_536), 2);
    assert_eq!(chunk_count(0, 65_536), 0);
    assert_eq!(chunk_count(1, 65_536), 1);
    assert_eq!(chunk_count(7, 1), 7);
    assert_eq!(chunk_count(usize::MAX, 2), usize::MAX / 2 + 1);
}

#[test]
fn chunk_bounds_cover_file() {
    for (total, size) in [(150_000usize, 65_536usize), (10, 3), (9, 3), (1, 5), (5, 1)] {
        let n = chunk_count(total, size);
        let mut next = 0;
        for i in 0..n {
            let (start, end) = chunk_bounds(total, size, i);
            assert_eq!(start, next);
            assert!(end > start);
            if i + 1 < n {
                assert_eq!(end - start, size);
            }
            next = end;
        }
        assert_eq!(next, total);
    }
}

#[test]
fn chunk_bounds_of_example_file() {
    assert_eq!(chunk_bounds(150_000, 65_536, 0), (0, 65_536));
    assert_eq!(chunk_bounds(150_000, 65_536, 1), (65_536, 131_072));
    assert_eq!(chunk_bounds(150_000, 65_536, 2), (131_072, 150_000));
}

#[test]
fn decimal_spelling() {
    assert_eq!(decimal_text(0), "0");
    assert_eq!(decimal_text(7), "7");
    assert_eq!(decimal_text(10), "10");
    assert_eq!(decimal_text(65_536), "65536");
    assert_eq!(decimal_text(u64::MAX), "18446744073709551615");
}
