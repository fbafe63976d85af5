//! Small verified helpers on text.

use vstd::prelude::*;
use vstd::string::StringExecFns;

verus! {

/// The texts of a list of string pairs.
pub open spec fn pairs_view(p: Seq<(String, String)>) -> Seq<(Seq<char>, Seq<char>)> {
    p.map_values(|q: (String, String)| (q.0@, q.1@))
}

/// Whether the owned string `a` holds exactly the characters of `b`.
pub fn same_text(a: &String, b: &str) -> (r: bool)
    ensures
        r == (a@ == b@),
{
    let t: String = b.to_owned();
    *a == t
}

/// `words` separated by `sep`.
pub open spec fn join_spec(words: Seq<Seq<char>>, sep: Seq<char>) -> Seq<char>
    decreases words.len(),
{
    if words.len() == 0 {
        Seq::empty()
    } else if words.len() == 1 {
        words[0]
    } else {
        join_spec(words.drop_last(), sep) + sep + words.last()
    }
}

pub open spec fn strings_view(v: Seq<String>) -> Seq<Seq<char>> {
    v.map_values(|s: String| s@)
}

/// Joins words with a separator.
pub fn join(words: &Vec<String>, sep: &str) -> (r: String)
    ensures
        r@ == join_spec(strings_view(words@), sep@),
{
    let ghost w = strings_view(words@);
    let mut out = String::new();
    let mut i: usize = 0;
    while i < words.len()
        invariant
            i <= words.len(),
            w == strings_view(words@),
            out@ == join_spec(w.take(i as int), sep@),
        decreases words.len() - i,
    {
        if i > 0 {
            out.append(sep);
        }
        out.append(words[i].as_str());
        assert(w.take(i + 1).drop_last() =~= w.take(i as int));
        i = i + 1;
    }
    assert(w.take(words.len() as int) =~= w);
    out
}

} // verus!
