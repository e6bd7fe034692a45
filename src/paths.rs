//! Reference paths: joining a path onto a base directory, and the directory
//! part of a path.
use vstd::prelude::*;
use crate::text::{chars_of, string_of};

verus! {

/// `p` read from the directory `base`: `p` itself when `base` is empty or
/// `p` is absolute, else `base/p`.
pub open spec fn join_path(base: Seq<char>, p: Seq<char>) -> Seq<char> {
    if base.len() == 0 || (p.len() > 0 && p[0] == '/') {
        p
    } else {
        base + seq!['/'] + p
    }
}

/// The index of the last `/` in `p`, or -1 when there is none.
pub open spec fn last_slash(p: Seq<char>) -> int
    decreases p.len(),
{
    if p.len() == 0 {
        -1
    } else if p[p.len() - 1] == '/' {
        p.len() - 1
    } else {
        last_slash(p.subrange(0, p.len() - 1))
    }
}

/// `p` without the `/` characters at its end.
pub open spec fn trim_slashes(p: Seq<char>) -> Seq<char>
    decreases p.len(),
{
    if p.len() > 0 && p[p.len() - 1] == '/' {
        trim_slashes(p.subrange(0, p.len() - 1))
    } else {
        p
    }
}

/// The directory part of `p`, as `dirname` reads it: trailing `/` are
/// ignored, and the part before the last name loses its own trailing `/`.
/// It is `/` when only the root stands before the name, and empty when no
/// directory does (a bare name, the root itself, or the empty path).
pub open spec fn parent_dir(p: Seq<char>) -> Seq<char> {
    let q = trim_slashes(p);
    let k = last_slash(q);
    if k < 0 {
        Seq::empty()
    } else {
        let head = trim_slashes(q.subrange(0, k));
        if head.len() == 0 {
            seq!['/']
        } else {
            head
        }
    }
}

/// Reads `p` from the directory `base`.
pub fn join_path_exec(base: &str, p: &str) -> (r: String)
    ensures
        r@ == join_path(base@, p@),
{
    let b = chars_of(base);
    let mut q = chars_of(p);
    if b.len() == 0 || (q.len() > 0 && q[0] == '/') {
        string_of(&q)
    } else {
        let mut cs = b;
        cs.push('/');
        cs.append(&mut q);
        string_of(&cs)
    }
}

/// The length of `trim_slashes` of the first `end` characters of `cs`.
fn trimmed_len(cs: &Vec<char>, end: usize) -> (r: usize)
    requires
        end <= cs.len(),
    ensures
        r <= end,
        cs@.subrange(0, r as int) == trim_slashes(cs@.subrange(0, end as int)),
{
    let mut e = end;
    while e > 0 && cs[e - 1] == '/'
        invariant
            e <= end <= cs.len(),
            trim_slashes(cs@.subrange(0, e as int)) == trim_slashes(cs@.subrange(0, end as int)),
        decreases e,
    {
        assert(cs@.subrange(0, e as int).subrange(0, e - 1) =~= cs@.subrange(0, e - 1));
        e = e - 1;
    }
    e
}

/// Where the last `/` among the first `end` characters of `cs` stands.
fn last_slash_before(cs: &Vec<char>, end: usize) -> (r: Option<usize>)
    requires
        end <= cs.len(),
    ensures
        match r {
            Some(k) => k as int == last_slash(cs@.subrange(0, end as int)) && k < end,
            None => last_slash(cs@.subrange(0, end as int)) == -1,
        },
{
    let mut found: Option<usize> = None;
    for i in 0..end
        invariant
            end <= cs.len(),
            match found {
                Some(k) => k as int == last_slash(cs@.subrange(0, i as int)) && k < i,
                None => last_slash(cs@.subrange(0, i as int)) == -1,
            },
    {
        assert(cs@.subrange(0, i + 1).subrange(0, i as int) =~= cs@.subrange(0, i as int));
        if cs[i] == '/' {
            found = Some(i);
        }
    }
    found
}

/// The directory part of `p`.
pub fn parent_dir_exec(p: &str) -> (r: String)
    ensures
        r@ == parent_dir(p@),
{
    let cs = chars_of(p);
    let q = trimmed_len(&cs, cs.len());
    assert(cs@.subrange(0, cs.len() as int) =~= cs@);
    let ghost qs = cs@.subrange(0, q as int);
    match last_slash_before(&cs, q) {
        None => String::new(),
        Some(k) => {
            let h = trimmed_len(&cs, k);
            assert(qs.subrange(0, k as int) =~= cs@.subrange(0, k as int));
            let mut out: Vec<char> = Vec::new();
            if h == 0 {
                out.push('/');
                assert(out@ =~= seq!['/']);
            } else {
                for j in 0..h
                    invariant
                        h <= cs.len(),
                        out@ =~= cs@.subrange(0, j as int),
                {
                    out.push(cs[j]);
                }
            }
            string_of(&out)
        },
    }
}

} // verus!
