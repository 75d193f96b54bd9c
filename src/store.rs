//! The frame store's naming rule: frame `n` is the file `n.<ext>`.
//!
//! Frames are numbered `1..=N`, where `N` is the number of frame files found.
//! The numbering is taken to be contiguous: should a number in that range be
//! missing, reading that frame fails and playback stops there.

use vstd::prelude::*;
use crate::config::{extension_text, Extension};

verus! {

/// A decimal numeral of a positive number without leading zeros.
pub open spec fn is_positive_numeral(s: Seq<char>) -> bool {
    &&& s.len() >= 1
    &&& s[0] != '0'
    &&& forall|i: int| 0 <= i < s.len() ==> '0' <= #[trigger] s[i] <= '9'
}

/// A frame's file name: a positive numeral, a dot and the format's suffix.
pub open spec fn is_frame_name(name: Seq<char>, ext: Extension) -> bool {
    let e = extension_text(ext);
    let k = name.len() - e.len() - 1;
    &&& k >= 1
    &&& name[k] == '.'
    &&& name.subrange(k + 1, name.len() as int) == e
    &&& is_positive_numeral(name.subrange(0, k))
}

/// How many of the names are frame names.
pub open spec fn count_frames_spec(names: Seq<Seq<char>>, ext: Extension) -> nat
    decreases names.len(),
{
    if names.len() == 0 {
        0
    } else {
        count_frames_spec(names.drop_last(), ext) + if is_frame_name(names.last(), ext) {
            1nat
        } else {
            0nat
        }
    }
}

/// Whether `name` is the file name of a frame in format `ext`.
pub fn frame_name_matches(name: &str, ext: Extension) -> (r: bool)
    ensures
        r == is_frame_name(name@, ext),
{
    let e = ext.as_str();
    let n = name.unicode_len();
    let el = e.unicode_len();
    if n < el + 2 {
        return false;
    }
    let k = n - el - 1;
    if name.get_char(k) != '.' {
        return false;
    }
    let mut j: usize = 0;
    while j < el
        invariant
            n == name@.len(),
            el == e@.len(),
            e@ == extension_text(ext),
            k == n - el - 1,
            j <= el,
            forall|t: int| 0 <= t < j ==> name@[k + 1 + t] == e@[t],
        decreases el - j,
    {
        if name.get_char(k + 1 + j) != e.get_char(j) {
            assert(name@.subrange(k + 1, n as int)[j as int] != e@[j as int]);
            return false;
        }
        j = j + 1;
    }
    assert(name@.subrange(k + 1, n as int) =~= e@);
    if name.get_char(0) == '0' {
        assert(name@.subrange(0, k as int)[0] == '0');
        return false;
    }
    let mut i: usize = 0;
    while i < k
        invariant
            n == name@.len(),
            el == e@.len(),
            e@ == extension_text(ext),
            k == n - el - 1,
            i <= k,
            forall|t: int| 0 <= t < i ==> '0' <= #[trigger] name@[t] <= '9',
        decreases k - i,
    {
        let c = name.get_char(i);
        if c < '0' || c > '9' {
            assert(name@.subrange(0, k as int)[i as int] == c);
            return false;
        }
        i = i + 1;
    }
    assert(is_positive_numeral(name@.subrange(0, k as int)));
    true
}

/// Counts the names that are frame names in format `ext`: each is a frame file
/// `1.<ext>`, `2.<ext>`, ... Other entries, and entries in other formats, are
/// not counted.
pub fn count_frames(names: &Vec<String>, ext: Extension) -> (r: usize)
    ensures
        r == count_frames_spec(names@.map_values(|s: String| s@), ext),
{
    let ghost all = names@.map_values(|s: String| s@);
    let mut count: usize = 0;
    let mut i: usize = 0;
    while i < names.len()
        invariant
            all == names@.map_values(|s: String| s@),
            i <= names@.len(),
            count <= i,
            count == count_frames_spec(all.take(i as int), ext),
        decreases names@.len() - i,
    {
        assert(all.take(i as int + 1).drop_last() =~= all.take(i as int));
        if frame_name_matches(names[i].as_str(), ext) {
            count = count + 1;
        }
        i = i + 1;
    }
    assert(all.take(i as int) =~= all);
    count
}

} // verus!
