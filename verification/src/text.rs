//! Text comparison and trimming.

use vstd::prelude::*;

verus! {

/// Whether both texts are the same.
pub(crate) fn same_text(left: &str, right: &str) -> (equal: bool)
    ensures
        equal == (left@ == right@),
{
    left.to_owned() == right.to_owned()
}

/// Three texts in a row.
pub(crate) fn join_three(first: &str, second: &str, third: &str) -> (joined: String)
    ensures
        joined@ == first@ + second@ + third@,
{
    let mut joined: String = first.to_owned();
    joined.append(second);
    joined.append(third);
    joined
}

/// `c` has the Unicode property White_Space.
pub open spec fn white_space(c: char) -> bool {
    let code = c as u32;
    ||| 0x0009 <= code <= 0x000d
    ||| code == 0x0020
    ||| code == 0x0085
    ||| code == 0x00a0
    ||| code == 0x1680
    ||| 0x2000 <= code <= 0x200a
    ||| code == 0x2028
    ||| code == 0x2029
    ||| code == 0x202f
    ||| code == 0x205f
    ||| code == 0x3000
}

/// `trimmed` is `text` without its leading and trailing whitespace.
pub open spec fn is_trimmed(text: Seq<char>, trimmed: Seq<char>) -> bool {
    exists|start: int, end: int| #[trigger] trims_to(text, trimmed, start, end)
}

/// `trimmed` stands in `text` from `start` to `end`, with whitespace alone around it.
pub open spec fn trims_to(text: Seq<char>, trimmed: Seq<char>, start: int, end: int) -> bool {
    &&& 0 <= start <= end <= text.len()
    &&& trimmed == text.subrange(start, end)
    &&& forall|i: int| 0 <= i < start ==> white_space(#[trigger] text[i])
    &&& forall|i: int| end <= i < text.len() ==> white_space(#[trigger] text[i])
}

/// Calls `str::trim`.
///
/// Claims what its documentation says: the result is the text with leading and trailing
/// whitespace removed, where whitespace is what has the Unicode property White_Space.
#[verifier::external_body]
fn trim(text: &str) -> (trimmed: &str)
    ensures
        is_trimmed(text@, trimmed@),
        trimmed@.len() > 0 ==> !white_space(trimmed@[0]) && !white_space(trimmed@.last()),
{
    text.trim()
}

/// `text` holds nothing but whitespace.
pub open spec fn blank(text: Seq<char>) -> bool {
    forall|i: int| 0 <= i < text.len() ==> white_space(#[trigger] text[i])
}

/// Whether `text` holds nothing but whitespace.
pub fn is_blank(text: &str) -> (empty: bool)
    ensures
        empty == blank(text@),
{
    let trimmed: &str = trim(text);
    proof {
        let (start, end) = choose|start: int, end: int| #[trigger]
            trims_to(text@, trimmed@, start, end);
        assert(trims_to(text@, trimmed@, start, end));
    }
    trimmed.is_empty()
}

/// The empty text is blank, a single character is where it is whitespace, and two texts in a row
/// are where both are.
pub proof fn law_blank_texts_are_made_of_whitespace(one: Seq<char>, other: Seq<char>, c: char)
    ensures
        blank(Seq::empty()),
        blank(seq![c]) <==> white_space(c),
        blank(one + other) <==> blank(one) && blank(other),
{
    assert(seq![c][0] == c);
    let both = one + other;
    if blank(both) {
        assert forall|i: int| 0 <= i < one.len() implies white_space(#[trigger] one[i]) by {
            assert(both[i] == one[i]);
        }
        assert forall|i: int| 0 <= i < other.len() implies white_space(#[trigger] other[i]) by {
            assert(both[one.len() + i] == other[i]);
        }
    }
}

} // verus!
