//! What searching, lower case and trimming make of a text.

use vstd::prelude::*;

use crate::text::{blank, contains, lower, occurs_at, trimmed, white_space};

verus! {

/// Whether a text is a needle between two other texts.
pub open spec fn holds(
    text: Seq<char>,
    front: Seq<char>,
    needle: Seq<char>,
    back: Seq<char>,
) -> bool {
    text == front + needle + back
}

/// A text contains whatever stands between a front and a back of it.
pub proof fn parts_are_contained(front: Seq<char>, needle: Seq<char>, back: Seq<char>)
    ensures
        contains(front + needle + back, needle),
{
    let text = front + needle + back;
    let from = front.len() as int;
    assert(text.subrange(from, from + needle.len()) =~= needle);
    assert(occurs_at(text, needle, front.len() as int));
}

/// A text that contains another is a front, the other and a back.
pub proof fn contained_texts_are_parts(text: Seq<char>, needle: Seq<char>)
    requires
        contains(text, needle),
    ensures
        exists|front: Seq<char>, back: Seq<char>| #[trigger] holds(text, front, needle, back),
{
    let i = choose|i: int| #[trigger] occurs_at(text, needle, i);
    let front = text.subrange(0, i);
    let back = text.subrange(i + needle.len(), text.len() as int);
    assert(text =~= front + needle + back) by {
        assert forall|k: int| 0 <= k < text.len() implies text[k] == (front + needle + back)[k] by {
            if i <= k < i + needle.len() {
                assert(text.subrange(i, i + needle.len())[k - i] == text[k]);
            }
        }
    }
    assert(holds(text, front, needle, back));
}

/// Lower case changes the letters from `A` to `Z` and nothing else, each in its place.
pub proof fn letters_become_small(text: Seq<char>, i: int)
    requires
        0 <= i < text.len(),
    ensures
        lower(text).len() == text.len(),
        65 <= text[i] as u32 <= 90 ==> lower(text)[i] as u32 == text[i] as u32 + 32,
        !(65 <= text[i] as u32 <= 90) ==> lower(text)[i] == text[i],
{
}

/// The characters that count as white space.
pub proof fn white_characters(c: char)
    ensures
        white_space(c) <==> {
            let code = c as u32;
            ||| 9 <= code <= 13
            ||| code == 32
            ||| code == 133
            ||| code == 160
            ||| code == 5760
            ||| 8192 <= code <= 8202
            ||| code == 8232
            ||| code == 8233
            ||| code == 8239
            ||| code == 8287
            ||| code == 12288
        },
{
}

/// A text is blank exactly when each of its characters is white space.
pub proof fn blank_texts_are_white(text: Seq<char>)
    ensures
        blank(text) <==> forall|i: int| 0 <= i < text.len() ==> white_space(#[trigger] text[i]),
{
}

/// Trimming takes away white space at the two ends and nothing else.
pub proof fn ends_are_trimmed(front: Seq<char>, inner: Seq<char>, back: Seq<char>)
    requires
        forall|i: int| 0 <= i < front.len() ==> white_space(#[trigger] front[i]),
        forall|i: int| 0 <= i < back.len() ==> white_space(#[trigger] back[i]),
        inner.len() > 0 ==> !white_space(inner[0]) && !white_space(inner[inner.len() - 1]),
    ensures
        trimmed(front + inner + back) == inner,
    decreases front.len() + back.len(),
{
    let text = front + inner + back;
    if front.len() > 0 {
        let less = front.drop_first();
        assert forall|i: int| 0 <= i < less.len() implies white_space(#[trigger] less[i]) by {
            assert(less[i] == front[i + 1]);
        }
        ends_are_trimmed(less, inner, back);
        assert(text.drop_first() =~= less + inner + back);
        assert(text.first() == front[0]);
    } else if inner.len() > 0 {
        assert(text.first() == inner[0]);
        if back.len() > 0 {
            let less = back.drop_last();
            assert forall|i: int| 0 <= i < less.len() implies white_space(#[trigger] less[i]) by {
                assert(less[i] == back[i]);
            }
            ends_are_trimmed(front, inner, less);
            assert(text.drop_last() =~= front + inner + less);
            assert(text.last() == back[back.len() - 1]);
        } else {
            assert(text =~= inner);
        }
    } else if back.len() > 0 {
        let less = back.drop_first();
        assert forall|i: int| 0 <= i < less.len() implies white_space(#[trigger] less[i]) by {
            assert(less[i] == back[i + 1]);
        }
        ends_are_trimmed(front, inner, less);
        assert(text.drop_first() =~= front + inner + less);
        assert(text.first() == back[0]);
    } else {
        assert(text =~= inner);
    }
}

} // verus!
