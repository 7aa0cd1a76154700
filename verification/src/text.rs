//! Verified text helpers: character-level string comparison, substring
//! search, path-segment extraction and decimal rendering of integers. The
//! partition planner and the folder installer build their command text and
//! classify mount points with these.
use vstd::prelude::*;

verus! {

/// Character-for-character string equality.
pub fn str_eq(a: &str, b: &str) -> (r: bool)
    ensures
        r == (a@ == b@),
{
    let a_len = a.unicode_len();
    let b_len = b.unicode_len();
    if a_len != b_len {
        return false;
    }
    let mut i: usize = 0;
    while i < a_len
        invariant
            a_len == a@.len(),
            b_len == b@.len(),
            a_len == b_len,
            0 <= i <= a_len,
            forall|j: int| 0 <= j < i ==> a@[j] == b@[j],
        decreases a_len - i,
    {
        if a.get_char(i) != b.get_char(i) {
            return false;
        }
        i = i + 1;
    }
    proof {
        assert(a@ =~= b@);
    }
    true
}

/// The needle occurs in the haystack starting at position `i`.
pub open spec fn spec_match_at(hay: Seq<char>, needle: Seq<char>, i: int) -> bool {
    0 <= i && i + needle.len() <= hay.len() && hay.subrange(i, i + needle.len()) == needle
}

/// The needle occurs somewhere in the haystack.
pub open spec fn spec_contains(hay: Seq<char>, needle: Seq<char>) -> bool {
    exists|i: int| spec_match_at(hay, needle, i)
}

fn match_at(hay: &str, needle: &str, i: usize) -> (r: bool)
    requires
        i + needle@.len() <= hay@.len(),
    ensures
        r == spec_match_at(hay@, needle@, i as int),
{
    let hay_len = hay.unicode_len();
    let needle_len = needle.unicode_len();
    let mut k: usize = 0;
    while k < needle_len
        invariant
            hay_len == hay@.len(),
            needle_len == needle@.len(),
            i + needle_len <= hay_len,
            0 <= k <= needle_len,
            forall|j: int| 0 <= j < k ==> hay@[i + j] == needle@[j],
        decreases needle_len - k,
    {
        if hay.get_char(i + k) != needle.get_char(k) {
            proof {
                assert(hay@.subrange(i as int, i + needle@.len())[k as int] != needle@[k as int]);
            }
            return false;
        }
        k = k + 1;
    }
    proof {
        assert(hay@.subrange(i as int, i + needle@.len()) =~= needle@);
    }
    true
}

/// Substring search: whether the needle occurs anywhere in the haystack.
pub fn contains_substring(hay: &str, needle: &str) -> (r: bool)
    ensures
        r == spec_contains(hay@, needle@),
{
    let hay_len = hay.unicode_len();
    let needle_len = needle.unicode_len();
    if needle_len > hay_len {
        return false;
    }
    if needle_len == 0 {
        proof {
            assert(hay@.subrange(0, 0) =~= needle@);
            assert(spec_match_at(hay@, needle@, 0));
        }
        return true;
    }
    let mut i: usize = 0;
    while i <= hay_len - needle_len
        invariant
            hay_len == hay@.len(),
            needle_len == needle@.len(),
            0 < needle_len <= hay_len,
            0 <= i <= hay_len - needle_len + 1,
            forall|j: int| 0 <= j < i ==> !spec_match_at(hay@, needle@, j),
        decreases hay_len - needle_len + 1 - i,
    {
        if match_at(hay, needle, i) {
            return true;
        }
        i = i + 1;
    }
    false
}

/// The position of the first occurrence of the needle at or after `from`,
/// or -1 when there is none.
pub open spec fn spec_find(hay: Seq<char>, needle: Seq<char>, from: int) -> int
    decreases hay.len() - from + 1
        when from >= 0
{
    if from + needle.len() > hay.len() {
        -1
    } else if hay.subrange(from, from + needle.len()) == needle {
        from
    } else {
        spec_find(hay, needle, from + 1)
    }
}

proof fn lemma_find_props(hay: Seq<char>, needle: Seq<char>, from: int)
    requires
        0 <= from,
    ensures
        spec_find(hay, needle, from) == -1 || (from <= spec_find(hay, needle, from) && spec_find(
            hay,
            needle,
            from,
        ) + needle.len() <= hay.len() && spec_match_at(
            hay,
            needle,
            spec_find(hay, needle, from),
        )),
    decreases hay.len() - from + 1,
{
    if from + needle.len() > hay.len() {
    } else if hay.subrange(from, from + needle.len()) == needle {
    } else {
        lemma_find_props(hay, needle, from + 1);
    }
}

/// The position of the first occurrence of the needle in the haystack.
pub fn find_substring(hay: &str, needle: &str) -> (r: Option<usize>)
    ensures
        match r {
            Some(i) => i as int == spec_find(hay@, needle@, 0),
            None => spec_find(hay@, needle@, 0) == -1,
        },
{
    let hay_len = hay.unicode_len();
    let needle_len = needle.unicode_len();
    if needle_len > hay_len {
        return None;
    }
    if needle_len == 0 {
        proof {
            assert(hay@.subrange(0, 0) =~= needle@);
        }
        return Some(0);
    }
    let mut i: usize = 0;
    while i <= hay_len - needle_len
        invariant
            hay_len == hay@.len(),
            needle_len == needle@.len(),
            0 < needle_len <= hay_len,
            0 <= i <= hay_len - needle_len + 1,
            spec_find(hay@, needle@, 0) == spec_find(hay@, needle@, i as int),
        decreases hay_len - needle_len + 1 - i,
    {
        if match_at(hay, needle, i) {
            return Some(i);
        }
        i = i + 1;
    }
    None
}

/// The parts of a string around every occurrence of a separator, in order:
/// one part more than there are occurrences, the empty part where two
/// occurrences touch or one sits at an end.
pub open spec fn spec_split(s: Seq<char>, sep: Seq<char>) -> Seq<Seq<char>>
    decreases s.len()
        when sep.len() >= 1
        via spec_split_decreases
{
    let idx = spec_find(s, sep, 0);
    if idx < 0 {
        seq![s]
    } else {
        seq![s.subrange(0, idx)] + spec_split(s.subrange(idx + sep.len(), s.len() as int), sep)
    }
}

#[via_fn]
proof fn spec_split_decreases(s: Seq<char>, sep: Seq<char>) {
    lemma_find_props(s, sep, 0);
}

/// A split has at least one part: the text before the first occurrence, or
/// the whole string.
pub proof fn lemma_split_has_a_part(s: Seq<char>, sep: Seq<char>)
    requires
        sep.len() >= 1,
    ensures
        spec_split(s, sep).len() >= 1,
{
}

/// Splits a string around every occurrence of a separator.
pub fn split_by(s: &str, sep: &str) -> (r: Vec<String>)
    requires
        sep@.len() >= 1,
    ensures
        r.deep_view() == spec_split(s@, sep@),
{
    let mut parts: Vec<String> = Vec::new();
    let mut rest: &str = s;
    let mut done = false;
    while !done
        invariant
            sep@.len() >= 1,
            !done ==> spec_split(s@, sep@) == parts.deep_view() + spec_split(rest@, sep@),
            done ==> parts.deep_view() == spec_split(s@, sep@),
        decreases rest@.len() + (if done {
            0int
        } else {
            1int
        }),
    {
        match find_substring(rest, sep) {
            Some(idx) => {
                proof {
                    lemma_find_props(rest@, sep@, 0);
                }
                let rest_len = rest.unicode_len();
                let sep_len = sep.unicode_len();
                let head = rest.substring_char(0, idx);
                let tail = rest.substring_char(idx + sep_len, rest_len);
                proof {
                    assert(spec_split(rest@, sep@) == seq![head@] + spec_split(tail@, sep@));
                }
                parts.push(head.to_owned());
                proof {
                    assert(parts.deep_view() + spec_split(tail@, sep@) =~= spec_split(s@, sep@));
                }
                rest = tail;
            },
            None => {
                parts.push(rest.to_owned());
                done = true;
                proof {
                    assert(parts.deep_view() =~= spec_split(s@, sep@));
                }
            },
        }
    }
    parts
}

/// The non-empty parts, in order: what remains of a space-split line once
/// the empty parts between consecutive separators are dropped.
pub open spec fn spec_nonempty_parts(parts: Seq<Seq<char>>) -> Seq<Seq<char>>
    decreases parts.len(),
{
    if parts.len() == 0 {
        Seq::empty()
    } else {
        spec_nonempty_parts(parts.drop_last()) + (if parts.last().len() > 0 {
            seq![parts.last()]
        } else {
            Seq::empty()
        })
    }
}

/// Drops the empty parts of a split.
pub fn nonempty_parts(parts: &Vec<String>) -> (r: Vec<String>)
    ensures
        r.deep_view() == spec_nonempty_parts(parts.deep_view()),
{
    let ghost all = parts.deep_view();
    let mut kept: Vec<String> = Vec::new();
    let mut i: usize = 0;
    while i < parts.len()
        invariant
            all == parts.deep_view(),
            0 <= i <= parts.len(),
            kept.deep_view() == spec_nonempty_parts(all.take(i as int)),
        decreases parts.len() - i,
    {
        if !parts[i].as_str().is_empty() {
            kept.push(parts[i].clone());
        }
        proof {
            assert(all.take(i as int + 1).drop_last() =~= all.take(i as int));
            assert(all.take(i as int + 1).last() == all[i as int]);
            assert(kept.deep_view() =~= spec_nonempty_parts(all.take(i as int + 1)));
        }
        i = i + 1;
    }
    proof {
        assert(all.take(parts.len() as int) =~= all);
    }
    kept
}

/// A path-separator character: the forward slash of Unix mount points or the
/// backslash of Windows drive roots.
pub open spec fn spec_is_separator(c: char) -> bool {
    c == '/' || c == '\\'
}

/// The last segment of a path: everything after the final separator, the
/// whole path when it has none, and empty after a trailing separator.
pub open spec fn spec_last_segment(s: Seq<char>) -> Seq<char>
    decreases s.len(),
{
    if s.len() == 0 {
        s
    } else if spec_is_separator(s.last()) {
        Seq::empty()
    } else {
        spec_last_segment(s.drop_last()).push(s.last())
    }
}

proof fn lemma_last_segment_subrange(s: Seq<char>, start: int)
    requires
        0 <= start <= s.len(),
        forall|j: int| start <= j < s.len() ==> !spec_is_separator(s[j]),
        start == 0 || spec_is_separator(s[start - 1]),
    ensures
        spec_last_segment(s) == s.subrange(start, s.len() as int),
    decreases s.len(),
{
    if start == s.len() {
        if s.len() > 0 {
            assert(spec_is_separator(s.last()));
        }
        assert(s.subrange(start, s.len() as int) =~= Seq::empty());
    } else {
        assert(!spec_is_separator(s.last()));
        lemma_last_segment_subrange(s.drop_last(), start);
        assert(s.drop_last().subrange(start, s.len() - 1) =~= s.subrange(start, s.len() - 1));
        assert(s.subrange(start, s.len() - 1).push(s.last()) =~= s.subrange(
            start,
            s.len() as int,
        ));
    }
}

/// Extracts the last segment of a path: the part after the final `/` or `\`.
pub fn last_path_segment(path: &str) -> (r: &str)
    ensures
        r@ == spec_last_segment(path@),
{
    let len = path.unicode_len();
    let mut start = len;
    let mut found = false;
    while start > 0 && !found
        invariant
            len == path@.len(),
            0 <= start <= len,
            forall|j: int| start <= j < len ==> !spec_is_separator(path@[j]),
            found ==> start >= 1 && spec_is_separator(path@[start - 1]),
        decreases start + (if found {
            0int
        } else {
            1int
        }),
    {
        let c = path.get_char(start - 1);
        if c == '/' || c == '\\' {
            found = true;
        } else {
            start = start - 1;
        }
    }
    proof {
        lemma_last_segment_subrange(path@, start as int);
    }
    path.substring_char(start, len)
}

/// The decimal digits of a number, most significant first.
pub open spec fn spec_u64_decimal(n: nat) -> Seq<char>
    decreases n,
{
    if n < 10 {
        seq![spec_digit_char(n)]
    } else {
        spec_u64_decimal(n / 10).push(spec_digit_char(n % 10))
    }
}

/// The character of one decimal digit.
pub open spec fn spec_digit_char(d: nat) -> char {
    if d == 0 {
        '0'
    } else if d == 1 {
        '1'
    } else if d == 2 {
        '2'
    } else if d == 3 {
        '3'
    } else if d == 4 {
        '4'
    } else if d == 5 {
        '5'
    } else if d == 6 {
        '6'
    } else if d == 7 {
        '7'
    } else if d == 8 {
        '8'
    } else {
        '9'
    }
}

fn digit_str(d: u64) -> (r: &'static str)
    requires
        d < 10,
    ensures
        r@ =~= seq![spec_digit_char(d as nat)],
{
    proof {
        reveal_strlit("0");
        reveal_strlit("1");
        reveal_strlit("2");
        reveal_strlit("3");
        reveal_strlit("4");
        reveal_strlit("5");
        reveal_strlit("6");
        reveal_strlit("7");
        reveal_strlit("8");
        reveal_strlit("9");
    }
    if d == 0 {
        "0"
    } else if d == 1 {
        "1"
    } else if d == 2 {
        "2"
    } else if d == 3 {
        "3"
    } else if d == 4 {
        "4"
    } else if d == 5 {
        "5"
    } else if d == 6 {
        "6"
    } else if d == 7 {
        "7"
    } else if d == 8 {
        "8"
    } else {
        "9"
    }
}

/// Renders a number in decimal.
pub fn u64_to_string(n: u64) -> (r: String)
    ensures
        r@ == spec_u64_decimal(n as nat),
    decreases n,
{
    if n < 10 {
        digit_str(n).to_owned()
    } else {
        let mut s = u64_to_string(n / 10);
        s.append(digit_str(n % 10));
        proof {
            assert(s@ =~= spec_u64_decimal(n as nat));
        }
        s
    }
}

} // verus!
