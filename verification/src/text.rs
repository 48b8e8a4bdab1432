//! What the crate needs of text beyond comparing and joining it: letter case,
//! and cutting a repeated character off the end.

use vstd::prelude::*;

verus! {

/// The lowercase form of `text`, as Unicode defines it.
pub uninterp spec fn lowercase(text: Seq<char>) -> Seq<char>;

/// `str::to_lowercase` of the standard library.
///
/// Trusted: the result is `lowercase` of the text, that is, it depends on the
/// text alone.
pub assume_specification[ str::to_lowercase ](text: &str) -> (lowered: String)
    ensures
        lowered@ == lowercase(text@),
;

/// Whether two texts are equal once letter case is set aside.
pub open spec fn same_ignoring_case(a: Seq<char>, b: Seq<char>) -> bool {
    lowercase(a) == lowercase(b)
}

/// `text` without the unbroken run of `c` at its end.
pub open spec fn without_trailing(text: Seq<char>, c: char) -> Seq<char>
    decreases text.len(),
{
    if text.len() > 0 && text.last() == c {
        without_trailing(text.drop_last(), c)
    } else {
        text
    }
}

/// Cuts every `c` off the end of `text`.
pub fn trim_end_matches(text: &str, c: char) -> (trimmed: &str)
    ensures
        trimmed@ == without_trailing(text@, c),
{
    let mut end: usize = text.unicode_len();
    assert(text@.subrange(0, end as int) == text@);
    while end > 0 && text.get_char(end - 1) == c
        invariant
            end <= text@.len(),
            without_trailing(text@, c) == without_trailing(text@.subrange(0, end as int), c),
        decreases end,
    {
        proof {
            let head = text@.subrange(0, end as int);
            assert(head.drop_last() == text@.subrange(0, end - 1));
        }
        end -= 1;
    }
    text.substring_char(0, end)
}

/// What is left after the cut does not end in `c`, is the start of `text`,
/// and what was cut off holds nothing but `c`.
pub proof fn lemma_without_trailing(text: Seq<char>, c: char)
    ensures
        without_trailing(text, c).len() <= text.len(),
        without_trailing(text, c) == text.subrange(0, without_trailing(text, c).len() as int),
        without_trailing(text, c).len() > 0 ==> without_trailing(text, c).last() != c,
        forall|i: int| without_trailing(text, c).len() <= i < text.len() ==> text[i] == c,
    decreases text.len(),
{
    if text.len() > 0 && text.last() == c {
        let head = text.drop_last();
        let kept = without_trailing(head, c);
        lemma_without_trailing(head, c);
        assert forall|i: int| kept.len() <= i < text.len() implies text[i] == c by {
            if i < head.len() {
                assert(head[i] == c);
            }
        }
    }
}

} // verus!
