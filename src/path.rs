//! Paths held as plain strings, with `/` as the separator.
use vstd::prelude::*;

verus! {

/// Position of the last separator in `p`, or -1 when it holds none.
pub open spec fn last_sep(p: Seq<char>) -> int
    decreases p.len(),
{
    if p.len() == 0 {
        -1
    } else if p.last() == '/' {
        p.len() - 1
    } else {
        last_sep(p.drop_last())
    }
}

/// `name` placed under `root`: an absolute `name` stands alone, an empty
/// `root` adds nothing, and a single separator goes between the two.
pub open spec fn join_path(root: Seq<char>, name: Seq<char>) -> Seq<char> {
    if name.len() > 0 && name[0] == '/' {
        name
    } else if root.len() == 0 {
        name
    } else if root.last() == '/' {
        root + name
    } else {
        root + seq!['/'] + name
    }
}

/// The directory that holds `p`: everything before its last separator,
/// `/` itself for a file at the root, and empty for a bare file name.
pub open spec fn parent_dir(p: Seq<char>) -> Seq<char> {
    let i = last_sep(p);
    if i < 0 {
        Seq::empty()
    } else if i == 0 {
        seq!['/']
    } else {
        p.subrange(0, i)
    }
}

/// The last separator of `p` is the one at `i` when `p` holds none after it.
pub(crate) proof fn lemma_last_sep_is(p: Seq<char>, i: int)
    requires
        -1 <= i < p.len(),
        i >= 0 ==> p[i] == '/',
        forall|j: int| i < j < p.len() ==> p[j] != '/',
    ensures
        last_sep(p) == i,
    decreases p.len(),
{
    if p.len() > 0 && i != p.len() - 1 {
        lemma_last_sep_is(p.drop_last(), i);
    }
}

/// Joins `name` onto `root` as the file system would.
pub fn join(root: &String, name: &String) -> (r: String)
    ensures
        r@ == join_path(root@, name@),
{
    let rs = root.as_str();
    let ns = name.as_str();
    let rlen = rs.unicode_len();
    let nlen = ns.unicode_len();
    if nlen > 0 && ns.get_char(0) == '/' {
        name.clone()
    } else if rlen == 0 {
        name.clone()
    } else if rs.get_char(rlen - 1) == '/' {
        let mut r = root.clone();
        r.append(ns);
        r
    } else {
        let mut r = root.clone();
        proof {
            reveal_strlit("/");
        }
        r.append("/");
        r.append(ns);
        r
    }
}

/// The directory that holds the file at `p`.
pub fn parent(p: &String) -> (r: String)
    ensures
        r@ == parent_dir(p@),
{
    let s = p.as_str();
    let n = s.unicode_len();
    let mut i: usize = n;
    while i > 0 && s.get_char(i - 1) != '/'
        invariant
            i <= n,
            n == p@.len(),
            s@ == p@,
            forall|j: int| i <= j < n ==> p@[j] != '/',
        decreases i,
    {
        i = i - 1;
    }
    proof {
        lemma_last_sep_is(p@, i - 1);
    }
    if i == 0 {
        String::new()
    } else if i == 1 {
        proof {
            reveal_strlit("/");
        }
        String::from_str("/")
    } else {
        String::from_str(s.substring_char(0, i - 1))
    }
}

} // verus!
