//! Byte-string helpers: suffix stripping, path-segment extraction and
//! substring search, used for window display names and process-list scans.
use vstd::prelude::*;

verus! {

/// True when `s` ends with `suffix`.
pub open spec fn seq_ends_with(s: Seq<u8>, suffix: Seq<u8>) -> bool {
    s.len() >= suffix.len() && s.subrange(s.len() - suffix.len(), s.len() as int) == suffix
}

/// `s` with every trailing repetition of `suffix` removed.
pub open spec fn strip_all(s: Seq<u8>, suffix: Seq<u8>) -> Seq<u8>
    decreases s.len(),
{
    if suffix.len() > 0 && seq_ends_with(s, suffix) {
        strip_all(s.subrange(0, s.len() - suffix.len()), suffix)
    } else {
        s
    }
}

/// A `::` separator starts at position `i` of `s`.
pub open spec fn has_sep_at(s: Seq<u8>, i: int) -> bool {
    0 <= i && i + 2 <= s.len() && s[i] == 58u8 && s[i + 1] == 58u8
}

/// Some `::` separator occurs in `s`.
pub open spec fn contains_sep(s: Seq<u8>) -> bool {
    exists|i: int| has_sep_at(s, i)
}

/// The part of `s` after the last `::` separator, where separators are
/// consumed left to right; `s` itself when no separator occurs.
pub open spec fn last_segment(s: Seq<u8>) -> Seq<u8>
    decreases s.len(),
{
    if s.len() >= 2 && s[0] == 58u8 && s[1] == 58u8 {
        last_segment(s.subrange(2, s.len() as int))
    } else if s.len() >= 1 && contains_sep(s.subrange(1, s.len() as int)) {
        last_segment(s.subrange(1, s.len() as int))
    } else {
        s
    }
}

/// The bytes of the suffix `Window`.
pub open spec fn window_suffix() -> Seq<u8> {
    seq![87u8, 105u8, 110u8, 100u8, 111u8, 119u8]
}

/// The bytes of the separator `::`.
pub open spec fn sep_bytes() -> Seq<u8> {
    seq![58u8, 58u8]
}

/// The display name a window type gets from its type path: trailing
/// `Window` repetitions go, then trailing `::` repetitions, and the last
/// `::`-separated segment of what is left is the name.
pub open spec fn display_name(s: Seq<u8>) -> Seq<u8> {
    last_segment(strip_all(strip_all(s, window_suffix()), sep_bytes()))
}

/// `needle` occurs in `s` starting at position `i`.
pub open spec fn occurs_at(s: Seq<u8>, needle: Seq<u8>, i: int) -> bool {
    0 <= i && i + needle.len() <= s.len() && s.subrange(i, i + needle.len()) == needle
}

/// `needle` occurs somewhere in `s`.
pub open spec fn contains_seq(s: Seq<u8>, needle: Seq<u8>) -> bool {
    exists|i: int| occurs_at(s, needle, i)
}

/// True when `s` ends with `suffix`.
pub fn ends_with(s: &Vec<u8>, suffix: &Vec<u8>) -> (r: bool)
    ensures
        r == seq_ends_with(s@, suffix@),
{
    if suffix.len() > s.len() {
        assert(!seq_ends_with(s@, suffix@));
        return false;
    }
    let offset = s.len() - suffix.len();
    let mut i: usize = 0;
    while i < suffix.len()
        invariant
            0 <= i <= suffix.len(),
            suffix.len() <= s.len(),
            offset == s.len() - suffix.len(),
            forall|j: int| 0 <= j < i ==> s@[offset + j] == suffix@[j],
        decreases suffix.len() - i,
    {
        if s[offset + i] != suffix[i] {
            assert(s@.subrange(s@.len() - suffix@.len(), s@.len() as int)[i as int]
                != suffix@[i as int]);
            return false;
        }
        i = i + 1;
    }
    assert(s@.subrange(s@.len() - suffix@.len(), s@.len() as int) =~= suffix@);
    true
}

/// Removes every trailing repetition of `suffix` from `s`.
pub fn strip_suffix_all(s: &mut Vec<u8>, suffix: &Vec<u8>)
    ensures
        final(s)@ == strip_all(old(s)@, suffix@),
{
    if suffix.len() == 0 {
        return;
    }
    loop
        invariant
            suffix@.len() > 0,
            strip_all(s@, suffix@) == strip_all(old(s)@, suffix@),
        ensures
            s@ == strip_all(old(s)@, suffix@),
        decreases s@.len(),
    {
        if !ends_with(s, suffix) {
            assert(s@ == strip_all(s@, suffix@));
            return;
        }
        let keep = s.len() - suffix.len();
        s.truncate(keep);
    }
}

/// Copies `s[from..to]` into a fresh vector.
pub fn copy_range(s: &Vec<u8>, from: usize, to: usize) -> (r: Vec<u8>)
    requires
        from <= to <= s@.len(),
    ensures
        r@ == s@.subrange(from as int, to as int),
{
    let mut r: Vec<u8> = Vec::new();
    let mut i = from;
    while i < to
        invariant
            from <= i <= to <= s@.len(),
            r@ == s@.subrange(from as int, i as int),
        decreases to - i,
    {
        r.push(s[i]);
        assert(r@ =~= s@.subrange(from as int, i + 1 as int));
        i = i + 1;
    }
    r
}

proof fn lemma_skip_to_sep(s: Seq<u8>, a: int, b: int)
    requires
        0 <= a <= b,
        has_sep_at(s, b),
        forall|j: int| a <= j < b ==> !has_sep_at(s, j),
    ensures
        last_segment(s.subrange(a, s.len() as int))
            == last_segment(s.subrange(b + 2, s.len() as int)),
    decreases b - a,
{
    let sub = s.subrange(a, s.len() as int);
    if a == b {
        assert(sub.len() >= 2 && sub[0] == 58u8 && sub[1] == 58u8);
        assert(sub.subrange(2, sub.len() as int) =~= s.subrange(b + 2, s.len() as int));
    } else {
        assert(!has_sep_at(s, a));
        assert(!(sub.len() >= 2 && sub[0] == 58u8 && sub[1] == 58u8));
        let tail = sub.subrange(1, sub.len() as int);
        assert(tail =~= s.subrange(a + 1, s.len() as int));
        assert(has_sep_at(tail, b - (a + 1)));
        assert(contains_sep(tail));
        lemma_skip_to_sep(s, a + 1, b);
    }
}

proof fn lemma_no_sep_tail(s: Seq<u8>, a: int)
    requires
        0 <= a <= s.len(),
        forall|j: int| a <= j ==> !has_sep_at(s, j),
    ensures
        last_segment(s.subrange(a, s.len() as int)) == s.subrange(a, s.len() as int),
{
    let sub = s.subrange(a, s.len() as int);
    assert(!(sub.len() >= 2 && sub[0] == 58u8 && sub[1] == 58u8)) by {
        assert(!has_sep_at(s, a));
    }
    if sub.len() >= 1 {
        let tail = sub.subrange(1, sub.len() as int);
        assert(!contains_sep(tail)) by {
            assert forall|i: int| !has_sep_at(tail, i) by {
                if 0 <= i && i + 2 <= tail.len() {
                    assert(tail[i] == s[a + 1 + i]);
                    assert(tail[i + 1] == s[a + 1 + i + 1]);
                    assert(!has_sep_at(s, a + 1 + i));
                }
            }
        }
    }
}

/// Returns the part of `s` after the last `::` separator.
pub fn last_path_segment(s: &Vec<u8>) -> (r: Vec<u8>)
    ensures
        r@ == last_segment(s@),
{
    let n = s.len();
    let mut i: usize = 0;
    let mut seg_start: usize = 0;
    assert(s@.subrange(0, s@.len() as int) =~= s@);
    while i < n && i + 1 < n
        invariant
            n == s@.len(),
            0 <= seg_start <= i <= n,
            last_segment(s@) == last_segment(s@.subrange(seg_start as int, s@.len() as int)),
            forall|j: int| seg_start <= j < i ==> !has_sep_at(s@, j),
        decreases s@.len() - i,
    {
        if s[i] == 58 && s[i + 1] == 58 {
            proof {
                lemma_skip_to_sep(s@, seg_start as int, i as int);
            }
            i = i + 2;
            seg_start = i;
        } else {
            assert(!has_sep_at(s@, i as int));
            i = i + 1;
        }
    }
    proof {
        assert forall|j: int| seg_start <= j implies !has_sep_at(s@, j) by {
            if j + 2 <= s@.len() {
                assert(j < i);
            }
        }
        lemma_no_sep_tail(s@, seg_start as int);
    }
    let end = s.len();
    copy_range(s, seg_start, end)
}

fn window_suffix_vec() -> (v: Vec<u8>)
    ensures
        v@ == window_suffix(),
{
    let mut v: Vec<u8> = Vec::new();
    v.push(87);
    v.push(105);
    v.push(110);
    v.push(100);
    v.push(111);
    v.push(119);
    assert(v@ =~= window_suffix());
    v
}

fn sep_vec() -> (v: Vec<u8>)
    ensures
        v@ == sep_bytes(),
{
    let mut v: Vec<u8> = Vec::new();
    v.push(58);
    v.push(58);
    assert(v@ =~= sep_bytes());
    v
}

/// The display name a window type gets from the bytes of its type path,
/// as [`display_name`] states it.
pub fn window_display_name(type_path: &Vec<u8>) -> (r: Vec<u8>)
    ensures
        r@ == display_name(type_path@),
{
    let mut stripped: Vec<u8> = copy_range(type_path, 0, type_path.len());
    assert(stripped@ =~= type_path@);
    let suffix = window_suffix_vec();
    strip_suffix_all(&mut stripped, &suffix);
    let sep = sep_vec();
    strip_suffix_all(&mut stripped, &sep);
    last_path_segment(&stripped)
}

/// `needle` occurs at position `i` of `s`.
fn occurs_here(s: &Vec<u8>, needle: &Vec<u8>, i: usize) -> (r: bool)
    requires
        i + needle@.len() <= s@.len(),
    ensures
        r == occurs_at(s@, needle@, i as int),
{
    let n = s.len();
    let mut j: usize = 0;
    while j < needle.len()
        invariant
            n == s@.len(),
            0 <= j <= needle@.len(),
            i + needle@.len() <= s@.len(),
            forall|k: int| 0 <= k < j ==> s@[i + k] == needle@[k],
        decreases needle@.len() - j,
    {
        if s[i + j] != needle[j] {
            assert(s@.subrange(i as int, i + needle@.len())[j as int] != needle@[j as int]);
            return false;
        }
        j = j + 1;
    }
    assert(s@.subrange(i as int, i + needle@.len()) =~= needle@);
    true
}

/// True when `needle` occurs somewhere in `s`.
pub fn contains_bytes(s: &Vec<u8>, needle: &Vec<u8>) -> (r: bool)
    ensures
        r == contains_seq(s@, needle@),
{
    if needle.len() > s.len() {
        assert(forall|i: int| !occurs_at(s@, needle@, i));
        return false;
    }
    if needle.len() == 0 {
        assert(s@.subrange(0, 0) =~= needle@);
        assert(occurs_at(s@, needle@, 0));
        return true;
    }
    let n = s.len();
    let last = n - needle.len();
    let mut i: usize = 0;
    while i <= last
        invariant
            n == s@.len(),
            needle@.len() >= 1,
            0 <= i <= last + 1,
            last == s@.len() - needle@.len(),
            forall|k: int| 0 <= k < i ==> !occurs_at(s@, needle@, k),
        decreases last - i + 1,
    {
        if occurs_here(s, needle, i) {
            return true;
        }
        i = i + 1;
    }
    assert(forall|k: int| !occurs_at(s@, needle@, k));
    false
}

} // verus!
