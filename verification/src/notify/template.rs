//! What a message template may not do: call another template.

use vstd::prelude::*;
use vstd::std_specs::iter::IteratorSpec;

verus! {

/// What may stand between the opening braces of a tag and the sign that
/// makes it a call: white space, `~` and `#`.
pub open spec fn filler(c: char) -> bool {
    c == ' ' || c == '\t' || c == '\n' || c == '\r' || c == '~' || c == '#'
}

/// Whether the characters before position `end` end in an opened tag: two
/// opening braces followed by nothing but filler.
pub open spec fn tag_open(source: Seq<char>, end: int) -> bool {
    exists|start: int|
        0 <= start && start + 2 <= end <= source.len() && #[trigger] source[start] == '{'
            && source[start + 1] == '{' && forall|k: int|
            start + 2 <= k < end ==> filler(#[trigger] source[k])
}

/// Whether the source calls another template: somewhere two opening braces
/// are followed, after nothing but filler, by `>`.
pub open spec fn calls_template(source: Seq<char>) -> bool {
    exists|at: int| 0 <= at < source.len() && #[trigger] source[at] == '>' && tag_open(source, at)
}

/// Scans a template source for a call of another template.
pub fn has_template_call(source: &str) -> (found: bool)
    ensures
        found == calls_template(source@),
{
    let mut open = false;
    let mut brace = false;
    for c in it: source.chars()
        invariant
            it.seq() == source@,
            open == tag_open(source@, it.index()),
            brace == (it.index() >= 1 && source@[it.index() - 1] == '{'),
            forall|at: int|
                0 <= at < it.index() ==> !(#[trigger] source@[at] == '>' && tag_open(source@, at)),
    {
        if open && c == '>' {
            return true;
        }
        let fill = c == ' ' || c == '\t' || c == '\n' || c == '\r' || c == '~' || c == '#';
        let next = (open && fill) || (brace && c == '{');
        open = next;
        brace = c == '{';
    }
    false
}

} // verus!
