use vstd::prelude::*;
use vstd::string::StrSliceExecFns;

verus! {

/// The path with trailing separators and trailing lone-dot segments
/// removed: what remains ends in a real component (or is empty).
pub open spec fn trim_tail(s: Seq<char>) -> Seq<char>
    decreases s.len(),
{
    if s.len() == 0 {
        s
    } else if s.last() == '/' {
        trim_tail(s.drop_last())
    } else if s.last() == '.' && (s.len() == 1 || s[s.len() - 2] == '/') {
        trim_tail(s.drop_last())
    } else {
        s
    }
}

/// The characters after the last separator; the whole sequence when there
/// is none, and empty when the separator comes last.
pub open spec fn suffix_after_slash(s: Seq<char>) -> Seq<char>
    decreases s.len(),
{
    if s.len() == 0 {
        s
    } else if s.last() == '/' {
        Seq::empty()
    } else {
        suffix_after_slash(s.drop_last()).push(s.last())
    }
}

/// The name a path is displayed under: its final component, or the path
/// itself when no component can be taken (an empty path, a bare
/// separator, or a path ending in a parent-directory segment).
pub open spec fn file_name_chars(s: Seq<char>) -> Seq<char> {
    let c = suffix_after_slash(trim_tail(s));
    if c.len() == 0 || c == seq!['.', '.'] {
        s
    } else {
        c
    }
}

proof fn lemma_suffix_after_slash(t: Seq<char>, b: int)
    requires
        0 <= b <= t.len(),
        forall|j: int| b <= j < t.len() ==> t[j] != '/',
        b > 0 ==> t[b - 1] == '/',
    ensures
        suffix_after_slash(t) == t.subrange(b, t.len() as int),
    decreases t.len(),
{
    if t.len() == 0 {
        assert(t.subrange(0, 0) =~= t);
    } else if t.last() == '/' {
        assert(b == t.len());
        assert(t.subrange(b, t.len() as int) =~= Seq::<char>::empty());
    } else {
        lemma_suffix_after_slash(t.drop_last(), b);
        assert(t.subrange(b, t.len() as int) =~= t.drop_last().subrange(
            b,
            (t.len() - 1) as int,
        ).push(t.last()));
    }
}

/// Extracts the display name of a path, as `file_name_chars` states it.
pub fn file_name_of<'a>(path: &'a str) -> (r: &'a str)
    ensures
        r@ == file_name_chars(path@),
{
    let n = path.unicode_len();
    let mut e: usize = n;
    let mut done = false;
    proof {
        assert(path@.take(n as int) =~= path@);
    }
    while !done
        invariant
            e <= n,
            n == path@.len(),
            trim_tail(path@) == trim_tail(path@.take(e as int)),
            done ==> trim_tail(path@.take(e as int)) == path@.take(e as int),
        decreases e + (if done {
            0int
        } else {
            1int
        }),
    {
        if e == 0 {
            done = true;
        } else {
            let c = path.get_char(e - 1);
            if c == '/' {
                proof {
                    assert(path@.take(e as int).drop_last() =~= path@.take(e - 1 as int));
                }
                e = e - 1;
            } else if c == '.' && (e == 1 || path.get_char(e - 2) == '/') {
                proof {
                    assert(path@.take(e as int).drop_last() =~= path@.take(e - 1 as int));
                }
                e = e - 1;
            } else {
                done = true;
            }
        }
    }
    let mut b: usize = e;
    while b > 0 && path.get_char(b - 1) != '/'
        invariant
            b <= e,
            e <= n,
            n == path@.len(),
            forall|j: int| b <= j < e ==> path@[j] != '/',
        decreases b,
    {
        b = b - 1;
    }
    proof {
        lemma_suffix_after_slash(path@.take(e as int), b as int);
        assert(path@.take(e as int).subrange(b as int, e as int) =~= path@.subrange(
            b as int,
            e as int,
        ));
    }
    if e == b {
        return path;
    }
    if e - b == 2 && path.get_char(b) == '.' && path.get_char(b + 1) == '.' {
        proof {
            assert(path@.subrange(b as int, e as int) =~= seq!['.', '.']);
        }
        return path;
    }
    proof {
        assert(path@.subrange(b as int, e as int) != seq!['.', '.']);
    }
    path.substring_char(b, e)
}

} // verus!
