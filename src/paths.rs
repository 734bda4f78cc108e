use vstd::prelude::*;

use crate::text::has_char;

verus! {

/// `base` joined with `p`: `p` itself when it is absolute or `base` is empty,
/// else the two with one `/` between them.
pub open spec fn join_path(base: Seq<char>, p: Seq<char>) -> Seq<char> {
    if (p.len() > 0 && p[0] == '/') || base.len() == 0 {
        p
    } else if base.last() == '/' {
        base + p
    } else {
        base + "/"@ + p
    }
}

/// The parts of a text between its colons, empty parts included.
pub open spec fn split_colons(s: Seq<char>) -> Seq<Seq<char>>
    decreases s.len(),
{
    if s.len() == 0 {
        seq![Seq::empty()]
    } else {
        let p = split_colons(s.drop_last());
        if s.last() == ':' {
            p.push(Seq::empty())
        } else {
            p.update(p.len() - 1, p.last().push(s.last()))
        }
    }
}

proof fn lemma_split_nonempty(s: Seq<char>)
    ensures
        split_colons(s).len() >= 1,
    decreases s.len(),
{
    if s.len() > 0 {
        lemma_split_nonempty(s.drop_last());
    }
}

pub fn join_path_text(base: &str, p: &str) -> (r: String)
    ensures
        r@ == join_path(base@, p@),
{
    let pn = p.unicode_len();
    let bn = base.unicode_len();
    if (pn > 0 && p.get_char(0) == '/') || bn == 0 {
        p.to_owned()
    } else if base.get_char(bn - 1) == '/' {
        base.to_owned().concat(p)
    } else {
        base.to_owned().concat("/").concat(p)
    }
}

/// The parts of `s` between its colons.
pub fn split_at_colons(s: &str) -> (r: Vec<String>)
    ensures
        r@.map_values(|x: String| x@) == split_colons(s@),
{
    let n = s.unicode_len();
    let mut parts: Vec<String> = Vec::new();
    let mut start: usize = 0;
    let mut i: usize = 0;
    assert(s@.subrange(0, 0) =~= Seq::<char>::empty());
    while i < n
        invariant
            n == s@.len(),
            start <= i <= n,
            parts@.map_values(|x: String| x@).push(s@.subrange(start as int, i as int)) == split_colons(
                s@.subrange(0, i as int),
            ),
        decreases n - i,
    {
        let c = s.get_char(i);
        let ghost pre = s@.subrange(0, i as int);
        let ghost cur = s@.subrange(0, i + 1);
        assert(cur.drop_last() =~= pre);
        assert(cur.last() == c);
        if c == ':' {
            parts.push(s.substring_char(start, i).to_owned());
            start = i + 1;
            i = i + 1;
            assert(s@.subrange(start as int, i as int) =~= Seq::<char>::empty());
            assert(parts@.map_values(|x: String| x@).push(s@.subrange(start as int, i as int))
                =~= split_colons(cur));
        } else {
            i = i + 1;
            proof {
                lemma_split_nonempty(pre);
                let old_parts = split_colons(pre);
                assert(s@.subrange(start as int, i as int) =~= s@.subrange(
                    start as int,
                    i - 1,
                ).push(c));
                assert(parts@.map_values(|x: String| x@).push(s@.subrange(start as int, i as int))
                    =~= old_parts.update(old_parts.len() - 1, old_parts.last().push(c)));
            }
        }
    }
    parts.push(s.substring_char(start, n).to_owned());
    assert(s@.subrange(0, n as int) =~= s@);
    parts
}

/// Where a command word is looked for: the word itself when it holds a `/`,
/// else the word joined to each directory of the search path, in order.
pub open spec fn candidates_of(name: Seq<char>, search: Seq<char>) -> Seq<Seq<char>> {
    if name.contains('/') {
        seq![name]
    } else {
        split_colons(search).map_values(|d: Seq<char>| join_path(d, name))
    }
}

pub fn candidates(name: &str, search: &str) -> (r: Vec<String>)
    ensures
        r@.map_values(|x: String| x@) == candidates_of(name@, search@),
{
    if has_char(name, '/') {
        let mut r: Vec<String> = Vec::new();
        r.push(name.to_owned());
        assert(r@.map_values(|x: String| x@) =~= seq![name@]);
        return r;
    }
    let dirs = split_at_colons(search);
    let ghost ds = dirs@.map_values(|x: String| x@);
    let mut r: Vec<String> = Vec::new();
    let mut i: usize = 0;
    while i < dirs.len()
        invariant
            i <= dirs.len(),
            ds == dirs@.map_values(|x: String| x@),
            ds == split_colons(search@),
            r.len() == i,
            forall|j: int| 0 <= j < i ==> (#[trigger] r@[j])@ == join_path(ds[j], name@),
        decreases dirs.len() - i,
    {
        assert(dirs@[i as int]@ == ds[i as int]);
        r.push(join_path_text(dirs[i].as_str(), name));
        i = i + 1;
    }
    assert(r@.map_values(|x: String| x@) =~= candidates_of(name@, search@));
    r
}

} // verus!
