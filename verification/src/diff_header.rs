use vstd::prelude::*;

verus! {

/// The literal that opens a diff file header, up to the first path.
pub open spec fn header_lit() -> Seq<char> {
    seq!['d', 'i', 'f', 'f', ' ', '-', '-', 'g', 'i', 't', ' ', 'a', '/']
}

/// The literal that separates the two paths of a diff file header.
pub open spec fn sep_lit() -> Seq<char> {
    seq![' ', 'b', '/']
}

/// The literal `lit` occurs in `s` at position `p`.
pub open spec fn lit_at(s: Seq<char>, p: int, lit: Seq<char>) -> bool {
    0 <= p && p + lit.len() <= s.len() && s.subrange(p, p + lit.len() as int) == lit
}

/// The first position `i` at or after `from` where the path separator
/// ` b/` occurs followed by at least one further character, if any.
pub open spec fn first_sep_from(s: Seq<char>, from: int) -> Option<int>
    recommends
        0 <= from,
    decreases s.len() - from when 0 <= from
{
    if from + 4 > s.len() {
        None
    } else if lit_at(s, from, sep_lit()) {
        Some(from)
    } else {
        first_sep_from(s, from + 1)
    }
}

/// The first capture of the header pattern in `s` at or after position `p`:
/// at the earliest position where the opening literal occurs and is followed,
/// after at least one path character, by the separator ` b/` and at least one
/// further character, the capture is the shortest non-empty path before the
/// earliest such separator.
pub open spec fn capture_from(s: Seq<char>, p: int) -> Option<Seq<char>>
    recommends
        0 <= p,
    decreases s.len() - p when 0 <= p
{
    if p + header_lit().len() > s.len() {
        None
    } else if lit_at(s, p, header_lit()) {
        match first_sep_from(s, p + header_lit().len() + 1) {
            Some(i) => Some(s.subrange(p + header_lit().len(), i)),
            None => capture_from(s, p + 1),
        }
    } else {
        capture_from(s, p + 1)
    }
}

/// The canonical path of a diff file-header line: the first capture of the
/// header pattern anywhere in the line, if the line matches at all.
pub open spec fn header_capture(s: Seq<char>) -> Option<Seq<char>> {
    capture_from(s, 0)
}

/// Whether the literal `lit` occurs in `s` at position `p`.
fn lit_match_at(s: &str, s_len: usize, p: usize, lit: &str, lit_len: usize) -> (r: bool)
    requires
        s_len == s@.len(),
        lit_len == lit@.len(),
    ensures
        r == lit_at(s@, p as int, lit@),
{
    if p > s_len || s_len - p < lit_len {
        return false;
    }
    let mut j: usize = 0;
    while j < lit_len
        invariant
            0 <= j <= lit_len,
            s_len == s@.len(),
            lit_len == lit@.len(),
            p + lit_len <= s_len,
            forall|a: int| 0 <= a < j ==> s@[p + a] == lit@[a],
        decreases lit_len - j,
    {
        if s.get_char(p + j) != lit.get_char(j) {
            assert(s@.subrange(p as int, p + lit@.len() as int)[j as int] != lit@[j as int]);
            return false;
        }
        j = j + 1;
    }
    proof {
        assert(s@.subrange(p as int, p + lit@.len() as int) =~= lit@);
    }
    true
}

/// The earliest occurrence of the separator at or after `from`, if any.
fn find_sep_from(s: &str, s_len: usize, from: usize) -> (r: Option<usize>)
    requires
        s_len == s@.len(),
    ensures
        match r {
            Some(i) => first_sep_from(s@, from as int) == Some(i as int) && from <= i && i + 3
                <= s_len,
            None => first_sep_from(s@, from as int) is None,
        },
{
    let sep = " b/";
    proof {
        reveal_strlit(" b/");
        assert(sep@ =~= sep_lit());
    }
    if from > s_len {
        proof {
            assert(first_sep_from(s@, from as int) is None);
        }
        return None;
    }
    let mut i: usize = from;
    while s_len - i >= 4
        invariant
            from <= i <= s_len,
            s_len == s@.len(),
            sep@ == sep_lit(),
            first_sep_from(s@, from as int) == first_sep_from(s@, i as int),
        decreases s_len - i,
    {
        if lit_match_at(s, s_len, i, sep, 3) {
            return Some(i);
        }
        proof {
            assert(first_sep_from(s@, i as int) == first_sep_from(s@, i as int + 1));
        }
        i = i + 1;
    }
    proof {
        assert(first_sep_from(s@, i as int) is None);
    }
    None
}

/// The canonical path of a diff file-header line, if the line matches the
/// header pattern: the first capture, as `header_capture` states it.
pub fn parse_diff_header(s: &str) -> (r: Option<String>)
    ensures
        match r {
            Some(path) => header_capture(s@) == Some(path@),
            None => header_capture(s@) is None,
        },
{
    let head = "diff --git a/";
    proof {
        reveal_strlit("diff --git a/");
        assert(head@ =~= header_lit());
    }
    let s_len = s.unicode_len();
    let mut p: usize = 0;
    while p <= s_len && s_len - p >= 13
        invariant
            0 <= p <= s@.len() + 1,
            s_len == s@.len(),
            head@ == header_lit(),
            capture_from(s@, 0) == capture_from(s@, p as int),
        decreases s_len - p,
    {
        if lit_match_at(s, s_len, p, head, 13) {
            let p13 = p + 13;
            if s_len - p13 >= 1 {
                match find_sep_from(s, s_len, p13 + 1) {
                    Some(i) => {
                        let path = s.substring_char(p13, i);
                        proof {
                            assert(capture_from(s@, p as int) == Some(
                                s@.subrange(p as int + 13, i as int),
                            ));
                        }
                        return Some(path.to_owned());
                    },
                    None => {
                        proof {
                            assert(capture_from(s@, p as int) == capture_from(
                                s@,
                                p as int + 1,
                            ));
                        }
                    },
                }
            } else {
                proof {
                    assert(first_sep_from(s@, p as int + 14) is None);
                    assert(capture_from(s@, p as int) == capture_from(s@, p as int + 1));
                }
            }
        } else {
            proof {
                assert(capture_from(s@, p as int) == capture_from(s@, p as int + 1));
            }
        }
        p = p + 1;
    }
    proof {
        assert(capture_from(s@, p as int) is None);
    }
    None
}

} // verus!
