//! Executable names: the base filename of a path, and comparison without
//! regard to letter case.

use vstd::prelude::*;
use vstd::string::*;

verus! {

/// Whether `c` separates the components of a Windows path.
pub open spec fn is_separator(c: char) -> bool {
    c == '\\' || c == '/'
}

/// The index at which the base filename of `path` begins: just after its last
/// separator, or 0 when it has none.
pub open spec fn base_start(path: Seq<char>) -> int
    decreases path.len(),
{
    if path.len() == 0 {
        0
    } else if is_separator(path.last()) {
        path.len() as int
    } else {
        base_start(path.drop_last())
    }
}

/// The base filename of `path`: what follows its last separator. It is the
/// whole of a path without separators, and empty for one that ends in a
/// separator.
pub open spec fn base_name_of(path: Seq<char>) -> Seq<char> {
    path.skip(base_start(path))
}

/// What [`base_start`] denotes: a position within the path, directly behind
/// a separator unless it is 0, with no separator from there on.
pub proof fn lemma_base_start(path: Seq<char>)
    ensures
        0 <= base_start(path) <= path.len(),
        base_start(path) > 0 ==> is_separator(path[base_start(path) - 1]),
        forall|i: int| base_start(path) <= i < path.len() ==> !is_separator(#[trigger] path[i]),
    decreases path.len(),
{
    if path.len() > 0 && !is_separator(path.last()) {
        let front = path.drop_last();
        lemma_base_start(front);
        assert forall|i: int| base_start(path) <= i < path.len() implies !is_separator(
            #[trigger] path[i],
        ) by {
            if i < front.len() {
                assert(front[i] == path[i]);
            }
        }
    }
}

/// The lowercase form of a text as `str::to_lowercase` computes it. It has no
/// definition here: contracts speak of it by this name only.
pub uninterp spec fn lowercase_of(text: Seq<char>) -> Seq<char>;

/// Whether two names are the same but for letter case.
pub open spec fn same_name(a: Seq<char>, b: Seq<char>) -> bool {
    lowercase_of(a) == lowercase_of(b)
}

/// `str::to_lowercase`: the lowercase equivalent of `text` as a new string.
/// The contract only names the result; nothing is claimed of its contents.
#[verifier::external_body]
pub(crate) fn to_lowercase(text: &str) -> (lower: String)
    ensures
        lower@ == lowercase_of(text@),
{
    text.to_lowercase()
}

/// The base filename of `path`, as a slice of it.
pub fn base_name(path: &str) -> (name: &str)
    ensures
        name@ == base_name_of(path@),
{
    let total = path.unicode_len();
    let mut start: usize = 0;
    let mut count: usize = 0;
    for c in it: path.chars()
        invariant
            it.seq() == path@,
            total == path@.len(),
            count == it.index(),
            start == base_start(path@.take(it.index())),
    {
        proof {
            let i = it.index();
            assert(path@.take(i + 1).drop_last() == path@.take(i));
            assert(path@.take(i + 1).last() == c);
        }
        count = count + 1;
        if c == '\\' || c == '/' {
            start = count;
        }
    }
    proof {
        assert(path@.take(path@.len() as int) == path@);
        lemma_base_start(path@);
    }
    let name = path.substring_char(start, total);
    assert(name@ == path@.skip(start as int));
    name
}

/// The candidate name of a resolved path: its base filename in lowercase.
pub fn candidate_name(path: &str) -> (candidate: String)
    ensures
        candidate@ == lowercase_of(base_name_of(path@)),
{
    to_lowercase(base_name(path))
}

} // verus!
