//! Finding the end of a marker in a stream of bytes.
//!
//! The scan walks the stream once and counts how many bytes of the marker
//! it has matched in a row. A byte that does not continue the match starts
//! a new one if it is the marker's first byte, and resets the count to
//! zero if it is not. For a marker whose first byte does not come again
//! inside it, that finds the first place where the marker stands.

use vstd::prelude::*;

verus! {

/// Whether a copy of `needle` stands in `data` and ends just before index
/// `end`.
pub open spec fn ends_at(needle: Seq<u8>, data: Seq<u8>, end: int) -> bool {
    needle.len() <= end <= data.len() && data.subrange(end - needle.len(), end) == needle
}

/// Whether the first copy of `needle` in `data` ends just before index
/// `end`.
pub open spec fn is_first_end(needle: Seq<u8>, data: Seq<u8>, end: int) -> bool {
    ends_at(needle, data, end) && forall|e: int| e < end ==> !ends_at(needle, data, e)
}

/// The index just behind the first copy of `needle` in `data`; `None`
/// where `data` holds no copy.
pub open spec fn haystack_end(needle: Seq<u8>, data: Seq<u8>) -> Option<int> {
    if exists|end: int| is_first_end(needle, data, end) {
        Some(choose|end: int| is_first_end(needle, data, end))
    } else {
        None
    }
}

/// Whether the first byte of `needle` comes only once in it.
pub open spec fn first_byte_unique(needle: Seq<u8>) -> bool {
    forall|k: int| 1 <= k < needle.len() ==> #[trigger] needle[k] != needle[0]
}

/// The first copy ends where it ends, and nowhere else.
pub proof fn lemma_haystack_end_is(needle: Seq<u8>, data: Seq<u8>, end: int)
    requires
        is_first_end(needle, data, end),
    ensures
        haystack_end(needle, data) == Some(end),
{
    let chosen = choose|e: int| is_first_end(needle, data, e);
    assert(is_first_end(needle, data, chosen));
    if chosen < end {
        assert(!ends_at(needle, data, chosen));
    }
    if end < chosen {
        assert(!ends_at(needle, data, end));
    }
}

/// Where no copy ends anywhere, there is no first one.
pub proof fn lemma_haystack_end_none(needle: Seq<u8>, data: Seq<u8>)
    requires
        forall|e: int| !ends_at(needle, data, e),
    ensures
        haystack_end(needle, data).is_none(),
{
    if exists|end: int| is_first_end(needle, data, end) {
        let end = choose|end: int| is_first_end(needle, data, end);
        assert(ends_at(needle, data, end));
    }
}

/// What `haystack_end` reports is a real copy, and the first; where it
/// reports none, there is none.
pub proof fn lemma_haystack_end_sound(needle: Seq<u8>, data: Seq<u8>)
    ensures
        match haystack_end(needle, data) {
            Some(end) => is_first_end(needle, data, end),
            None => forall|e: int| !ends_at(needle, data, e),
        },
{
    if haystack_end(needle, data).is_none() {
        assert forall|e: int| !ends_at(needle, data, e) by {
            if ends_at(needle, data, e) {
                lemma_least_end(needle, data, e);
            }
        }
    }
}

/// Where a copy ends somewhere, a first copy ends somewhere.
proof fn lemma_least_end(needle: Seq<u8>, data: Seq<u8>, end: int)
    requires
        ends_at(needle, data, end),
    ensures
        exists|first: int| is_first_end(needle, data, first),
    decreases end,
{
    if exists|e: int| e < end && ends_at(needle, data, e) {
        let e = choose|e: int| e < end && ends_at(needle, data, e);
        lemma_least_end(needle, data, e);
    } else {
        assert(is_first_end(needle, data, end));
    }
}

/// Seeks the end of the first copy of `needle` in `data`.
pub fn find_haystack_end(needle: &[u8], data: &[u8]) -> (r: Option<usize>)
    requires
        needle@.len() > 0,
        first_byte_unique(needle@),
    ensures
        match r {
            Some(end) => ends_at(needle@, data@, end as int) && forall|e: int|
                e < end ==> !ends_at(needle@, data@, e),
            None => forall|e: int| !ends_at(needle@, data@, e),
        },
        haystack_end(needle@, data@) == (match r {
            Some(end) => Some(end as int),
            None => None,
        }),
{
    let mut idx: usize = 0;
    let mut i: usize = 0;
    while i < data.len()
        invariant
            needle@.len() > 0,
            first_byte_unique(needle@),
            idx < needle.len(),
            idx <= i <= data.len(),
            forall|j: int| 0 <= j < idx ==> data@[i - idx + j] == #[trigger] needle@[j],
            forall|e: int| e < i - idx + needle@.len() ==> !ends_at(needle@, data@, e),
        decreases data.len() - i,
    {
        let ghost len = needle@.len() as int;
        if needle[idx] == data[i] {
            idx += 1;
            if idx >= needle.len() {
                proof {
                    let end = i + 1;
                    assert(data@.subrange(end - len, end) =~= needle@);
                    lemma_haystack_end_is(needle@, data@, end);
                }
                return Some(i + 1);
            }
        } else {
            let ghost old_idx = idx as int;
            if needle[0] == data[i] {
                idx = 1;
            } else {
                idx = 0;
            }
            proof {
                assert forall|e: int| e < i + 1 - idx + len implies !ends_at(
                    needle@,
                    data@,
                    e,
                ) by {
                    if ends_at(needle@, data@, e) {
                        let s = e - len;
                        let copy = data@.subrange(s, e);
                        assert(copy == needle@);
                        if s == i - old_idx {
                            assert(copy[old_idx] == data@[i as int]);
                        } else if s < i {
                            assert(copy[0] == data@[s]);
                            assert(data@[i - old_idx + (s - (i - old_idx))] == needle@[s - (i
                                - old_idx)]);
                        } else {
                            assert(copy[0] == data@[i as int]);
                        }
                    }
                }
            }
        }
        i += 1;
    }
    proof {
        lemma_haystack_end_none(needle@, data@);
    }
    None
}

} // verus!
