//! Narrowing a list of choices by a search term.

use vstd::prelude::*;

verus! {

/// Whether `pat` occurs in `s` as a run of consecutive characters.
pub open spec fn occurs_in(s: Seq<char>, pat: Seq<char>) -> bool {
    exists|i: int| 0 <= i && i + pat.len() <= s.len() && #[trigger] s.subrange(i, i + pat.len()) == pat
}

/// The choices that contain `pat`, in their order.
pub open spec fn matching(opts: Seq<Seq<char>>, pat: Seq<char>) -> Seq<Seq<char>>
    decreases opts.len(),
{
    if opts.len() == 0 {
        Seq::empty()
    } else if occurs_in(opts.last(), pat) {
        matching(opts.drop_last(), pat).push(opts.last())
    } else {
        matching(opts.drop_last(), pat)
    }
}

/// The views of a list of strings.
pub open spec fn views(v: Seq<String>) -> Seq<Seq<char>> {
    v.map_values(|s: String| s@)
}

/// Relies on str::contains with a string pattern, which tells whether the
/// pattern matches a sub-slice of the string.
#[verifier::external_body]
fn contains_text(s: &str, pat: &str) -> (r: bool)
    ensures
        r == occurs_in(s@, pat@),
{
    s.contains(pat)
}

/// The choices that contain `input`, in the order given.
pub fn filter_options(options: &Vec<String>, input: &str) -> (r: Vec<String>)
    ensures
        views(r@) == matching(views(options@), input@),
{
    let mut out: Vec<String> = Vec::new();
    let mut i: usize = 0;
    while i < options.len()
        invariant
            i <= options@.len(),
            views(out@) == matching(views(options@.take(i as int)), input@),
        decreases options@.len() - i,
    {
        let keep = contains_text(options[i].as_str(), input);
        assert(views(options@.take(i + 1)).drop_last() =~= views(options@.take(i as int)));
        assert(views(options@.take(i + 1)).last() == options@[i as int]@);
        if keep {
            out.push(String::from_str(options[i].as_str()));
            assert(views(out@) =~= matching(views(options@.take(i as int)), input@).push(
                options@[i as int]@,
            ));
        }
        i = i + 1;
    }
    assert(options@.take(i as int) =~= options@);
    out
}

} // verus!
