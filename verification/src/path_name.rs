//! The base file name of a path.
//!
//! The archive summary reports the archive's own file name: the final
//! segment of the path it was read from.  Trailing separators are ignored,
//! and a path whose final segment is empty, `.` or `..` has no base name.

use vstd::prelude::*;
use vstd::string::StrSliceExecFns;

verus! {

/// The path separator.
pub open spec fn is_sep(c: char) -> bool {
    c == '/'
}

/// The path with its trailing separators removed.
pub open spec fn trim_seps(s: Seq<char>) -> Seq<char>
    decreases s.len(),
{
    if s.len() > 0 && is_sep(s.last()) {
        trim_seps(s.drop_last())
    } else {
        s
    }
}

/// The characters after the last separator: the whole path when it has no
/// separator.
pub open spec fn tail_segment(s: Seq<char>) -> Seq<char>
    decreases s.len(),
{
    if s.len() == 0 {
        s
    } else if is_sep(s.last()) {
        Seq::empty()
    } else {
        tail_segment(s.drop_last()).push(s.last())
    }
}

/// The base file name of the path: the final segment once trailing
/// separators are dropped, and none when that segment is empty, `.`
/// or `..`.
pub open spec fn base_name_of(path: Seq<char>) -> Option<Seq<char>> {
    let seg = tail_segment(trim_seps(path));
    if seg.len() == 0 || seg == seq!['.'] || seg == seq!['.', '.'] {
        None
    } else {
        Some(seg)
    }
}

proof fn lemma_trim_drops_sep(s: Seq<char>, e: int)
    requires
        0 < e <= s.len(),
        is_sep(s[e - 1]),
    ensures
        trim_seps(s.subrange(0, e)) == trim_seps(s.subrange(0, e - 1)),
{
    let t = s.subrange(0, e);
    assert(t.last() == s[e - 1]);
    assert(t.drop_last() =~= s.subrange(0, e - 1));
}

proof fn lemma_tail_takes_char(s: Seq<char>, e: int)
    requires
        0 < e <= s.len(),
        !is_sep(s[e - 1]),
    ensures
        tail_segment(s.subrange(0, e)) == tail_segment(s.subrange(0, e - 1)).push(s[e - 1]),
{
    let t = s.subrange(0, e);
    assert(t.last() == s[e - 1]);
    assert(t.drop_last() =~= s.subrange(0, e - 1));
}

/// The base file name of `path`, or `None` when the path has no
/// extractable file-name component.
pub fn base_name(path: &str) -> (r: Option<String>)
    ensures
        match r {
            Some(s) => base_name_of(path@) == Some(s@),
            None => base_name_of(path@) is None,
        },
{
    let n = path.unicode_len();
    proof {
        assert(path@.subrange(0, n as int) =~= path@);
    }
    let mut end: usize = n;
    while end > 0 && path.get_char(end - 1) == '/'
        invariant
            end <= n == path@.len(),
            trim_seps(path@) == trim_seps(path@.subrange(0, end as int)),
        decreases end,
    {
        proof {
            lemma_trim_drops_sep(path@, end as int);
        }
        end = end - 1;
    }
    proof {
        if end > 0 {
            assert(!is_sep(path@.subrange(0, end as int).last()));
        }
        assert(trim_seps(path@) == path@.subrange(0, end as int));
    }
    let mut start: usize = end;
    while start > 0 && path.get_char(start - 1) != '/'
        invariant
            start <= end <= path@.len(),
            trim_seps(path@) == path@.subrange(0, end as int),
            tail_segment(path@.subrange(0, end as int)) == tail_segment(
                path@.subrange(0, start as int),
            ) + path@.subrange(start as int, end as int),
        decreases start,
    {
        proof {
            lemma_tail_takes_char(path@, start as int);
            assert(tail_segment(path@.subrange(0, (start - 1) as int)) + path@.subrange(
                (start - 1) as int,
                end as int,
            ) =~= tail_segment(path@.subrange(0, (start - 1) as int)).push(path@[start - 1])
                + path@.subrange(start as int, end as int));
        }
        start = start - 1;
    }
    proof {
        if start == 0 {
            assert(path@.subrange(0, 0) =~= Seq::<char>::empty());
            assert(tail_segment(path@.subrange(0, 0)) + path@.subrange(0, end as int)
                =~= path@.subrange(0, end as int));
        } else {
            assert(is_sep(path@.subrange(0, start as int).last()));
            assert(tail_segment(path@.subrange(0, start as int)) + path@.subrange(
                start as int,
                end as int,
            ) =~= path@.subrange(start as int, end as int));
        }
        assert(tail_segment(trim_seps(path@)) == path@.subrange(start as int, end as int));
    }
    let seg = path.substring_char(start, end);
    let len = end - start;
    if len == 0 {
        proof {
            assert(tail_segment(trim_seps(path@)).len() == 0);
        }
        None
    } else if len == 1 && seg.get_char(0) == '.' {
        proof {
            assert(seg@ =~= seq!['.']);
        }
        None
    } else if len == 2 && seg.get_char(0) == '.' && seg.get_char(1) == '.' {
        proof {
            assert(seg@ =~= seq!['.', '.']);
        }
        None
    } else {
        proof {
            let b = tail_segment(trim_seps(path@));
            assert(b == seg@);
            if b == seq!['.'] {
                assert(b.len() == 1 && b[0] == '.');
            }
            if b == seq!['.', '.'] {
                assert(b.len() == 2 && b[0] == '.' && b[1] == '.');
            }
        }
        Some(seg.to_owned())
    }
}

} // verus!
