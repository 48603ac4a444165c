use psxemcee::find_haystack_end;

const ACK: [u8; 2] = [0x5c, 0x5d];

#[test]
fn marker_at_the_start() {
    assert_eq!(find_haystack_end(&ACK, &[0x5c, 0x5d, 0x00]), Some(2));
}

#[test]
fn marker_behind_other_bytes() {
    assert_eq!(find_haystack_end(&ACK, &[0x00, 0x5c, 0x5d, 0x01, 0x02]), Some(3));
    assert_eq!(find_haystack_end(&ACK, &[0xff, 0x08, 0x00, 0x5a, 0x5d, 0x5c, 0x5d]), Some(7));
}

#[test]
fn first_of_two_markers_wins() {
    assert_eq!(find_haystack_end(&ACK, &[0x5c, 0x5d, 0x5c, 0x5d]), Some(2));
}

#[test]
fn no_marker_in_the_data() {
    assert_eq!(find_haystack_end(&ACK, &[]), None);
    assert_eq!(find_haystack_end(&ACK, &[0x5c]), None);
    assert_eq!(find_haystack_end(&ACK, &[0x5d, 0x5c]), None);
    assert_eq!(find_haystack_end(&ACK, &[0x5c, 0x00, 0x5d]), None);
    assert_eq!(find_haystack_end(&ACK, &[0u8; 300]), None);
}

#[test]
fn byte_that_breaks_a_match_may_start_the_next() {
    assert_eq!(find_haystack_end(&ACK, &[0x5c, 0x5c, 0x5d]), Some(3));
    assert_eq!(find_haystack_end(&ACK, &[0x5c, 0x5c, 0x5c, 0x5d, 0x5c, 0x5d]), Some(4));
    assert_eq!(find_haystack_end(&ACK, &[0x5c, 0x5c, 0x5c]), None);
    assert_eq!(find_haystack_end(&ACK, &[0x5d, 0x5c, 0x5c, 0x00, 0x5c, 0x5d]), Some(6));
}

#[test]
fn longer_and_shorter_needles() {
    assert_eq!(find_haystack_end(&[0x47], &[0x01, 0x47, 0x47]), Some(2));
    assert_eq!(find_haystack_end(&[0x47], &[0x47]), Some(1));
    assert_eq!(find_haystack_end(&[0x47], &[0x46, 0x48]), None);
    assert_eq!(find_haystack_end(&[1, 2, 3], &[0, 1, 2, 3, 4]), Some(4));
    assert_eq!(find_haystack_end(&[1, 2, 3], &[1, 2, 1, 2, 3]), Some(5));
    assert_eq!(find_haystack_end(&[1, 2, 3], &[1, 1, 2, 3]), Some(4));
    assert_eq!(find_haystack_end(&[1, 2, 2], &[1, 2, 1, 2, 2, 2]), Some(5));
    assert_eq!(find_haystack_end(&[1, 2, 3], &[1, 2]), None);
    assert_eq!(find_haystack_end(&[1, 2, 3], &[1, 2, 4, 1, 2]), None);
}

#[test]
fn result_is_the_end_of_the_first_copy() {
    let needle = [0x5c, 0x5d];
    for len in 0..7usize {
        for code in 0..(1u32 << (2 * len)) {
            let data: Vec<u8> = (0..len)
                .map(|i| match (code >> (2 * i)) & 3 {
                    0 => 0x5c,
                    1 => 0x5d,
                    2 => 0x00,
                    _ => 0x47,
                })
                .collect();
            let want = (2..=len).find(|e| data[e - 2..*e] == needle);
            assert_eq!(find_haystack_end(&needle, &data), want);
        }
    }
}
