//! Small helpers on strings and on sequences of strings that the other
//! modules state their contracts over.

use vstd::prelude::*;

verus! {

/// The character sequences of a sequence of strings.
pub open spec fn str_views(s: Seq<String>) -> Seq<Seq<char>> {
    s.map_values(|x: String| x@)
}

/// Appending one string appends its character sequence to the views.
pub proof fn lemma_str_views_push(s: Seq<String>, x: String)
    ensures
        str_views(s.push(x)) == str_views(s).push(x@),
{
    assert(str_views(s.push(x)) =~= str_views(s).push(x@));
}

/// Concatenating strings concatenates their character sequences.
pub proof fn lemma_str_views_concat(a: Seq<String>, b: Seq<String>)
    ensures
        str_views(a + b) == str_views(a) + str_views(b),
{
    assert(str_views(a + b) =~= str_views(a) + str_views(b));
}

/// Whether a file name carries the `md` extension: it ends in `.md` and has
/// a nonempty stem before the dot, so a bare `.md` does not count.
pub open spec fn has_md_suffix(name: Seq<char>) -> bool {
    &&& name.len() >= 4
    &&& name[name.len() - 3] == '.'
    &&& name[name.len() - 2] == 'm'
    &&& name[name.len() - 1] == 'd'
}

/// Tests a file name for the `md` extension.
pub fn name_has_md_suffix(name: &String) -> (r: bool)
    ensures
        r == has_md_suffix(name@),
{
    let n = name.as_str().unicode_len();
    if n < 4 {
        return false;
    }
    name.as_str().get_char(n - 3) == '.' && name.as_str().get_char(n - 2) == 'm'
        && name.as_str().get_char(n - 1) == 'd'
}

/// Whether `s` starts with `prefix`.
pub open spec fn starts_with(s: Seq<char>, prefix: Seq<char>) -> bool {
    &&& s.len() >= prefix.len()
    &&& s.subrange(0, prefix.len() as int) == prefix
}

} // verus!
