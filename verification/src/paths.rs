//! Paths as texts with `/` between their components.

use vstd::prelude::*;

use crate::text::begins_with;
use crate::text::plus;

verus! {

/// `rel` taken from the directory `base`. An absolute `rel` stands for itself.
pub open spec fn path_join(base: Seq<char>, rel: Seq<char>) -> Seq<char> {
    if rel.len() > 0 && rel[0] == '/' {
        rel
    } else if base.len() == 0 || base.last() == '/' {
        base + rel
    } else {
        base + "/"@ + rel
    }
}

/// Two relative paths that lead to the same place from a directory are the same.
pub proof fn lemma_join_injective(base: Seq<char>, a: Seq<char>, b: Seq<char>)
    requires
        a.len() > 0 ==> a[0] != '/',
        b.len() > 0 ==> b[0] != '/',
        path_join(base, a) == path_join(base, b),
    ensures
        a == b,
{
    let n = path_join(base, a).len() - a.len();
    assert(a =~= path_join(base, a).skip(n));
    assert(b =~= path_join(base, b).skip(n));
}

/// Joins a path to a directory.
pub fn join_path(base: &str, rel: &str) -> (r: String)
    ensures
        r@ == path_join(base@, rel@),
{
    proof {
        reveal_strlit("/");
    }
    let b = crate::text::chars_of(base);
    if begins_with(rel, "/") {
        assert("/"@[0] == rel@[0]);
        rel.to_owned()
    } else {
        assert(rel@.len() > 0 && rel@[0] == '/' ==> "/"@ =~= rel@.take(1));
        if b.len() == 0 || b[b.len() - 1] == '/' {
            plus(base, rel)
        } else {
            plus(plus(base, "/").as_str(), rel)
        }
    }
}

/// A relative path taken from a directory begins with the directory and ends with the path. Between
/// them stands one `/` if the directory is not empty and has none at its end, and nothing else.
pub proof fn law_join_relative(base: Seq<char>, rel: Seq<char>)
    requires
        rel.len() > 0 ==> rel[0] != '/',
    ensures
        ({
            let p = path_join(base, rel);
            let slash = base.len() > 0 && base.last() != '/';
            &&& base.is_prefix_of(p)
            &&& p.skip(p.len() - rel.len()) == rel
            &&& slash ==> p.len() == base.len() + 1 + rel.len() && p[base.len() as int] == '/'
            &&& !slash ==> p.len() == base.len() + rel.len()
        }),
{
    reveal_strlit("/");
    let p = path_join(base, rel);
    assert(p.take(base.len() as int) =~= base);
    assert(p.skip(p.len() - rel.len()) =~= rel);
}

/// An absolute path is the same from every directory: itself.
pub proof fn law_join_absolute(base: Seq<char>, rel: Seq<char>)
    requires
        rel.len() > 0,
        rel[0] == '/',
    ensures
        path_join(base, rel) == rel,
{
}

} // verus!
