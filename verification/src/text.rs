//! White space at the ends of a text: what trimming leaves, and when a text is
//! blank.

use vstd::prelude::*;

verus! {

/// What `char::is_whitespace` answers for a character.
pub uninterp spec fn is_whitespace(c: char) -> bool;

/// The text without its leading white space.
pub open spec fn trim_start(text: Seq<char>) -> Seq<char>
    decreases text.len(),
{
    if text.len() > 0 && is_whitespace(text[0]) {
        trim_start(text.drop_first())
    } else {
        text
    }
}

/// The text without its trailing white space.
pub open spec fn trim_end(text: Seq<char>) -> Seq<char>
    decreases text.len(),
{
    if text.len() > 0 && is_whitespace(text.last()) {
        trim_end(text.drop_last())
    } else {
        text
    }
}

/// The text without the white space at either end.
pub open spec fn trimmed(text: Seq<char>) -> Seq<char> {
    trim_end(trim_start(text))
}

/// A text of white space only; the empty text is blank.
pub open spec fn is_blank(text: Seq<char>) -> bool {
    forall|i: int| 0 <= i < text.len() ==> is_whitespace(#[trigger] text[i])
}

/// `char::is_whitespace`: whether the character has the Unicode property
/// White_Space.
#[verifier::external_body]
fn is_space(c: char) -> (space: bool)
    ensures
        space == is_whitespace(c),
{
    c.is_whitespace()
}

/// Trimming at the start drops a blank prefix and stops at the first
/// character that is not white space.
pub proof fn lemma_trim_start_shape(text: Seq<char>)
    ensures
        trim_start(text).len() <= text.len(),
        trim_start(text) == text.skip(text.len() - trim_start(text).len()),
        is_blank(text.take(text.len() - trim_start(text).len())),
        trim_start(text).len() > 0 ==> !is_whitespace(trim_start(text)[0]),
    decreases text.len(),
{
    if text.len() > 0 && is_whitespace(text[0]) {
        let rest = text.drop_first();
        lemma_trim_start_shape(rest);
        let kept = trim_start(rest);
        let dropped = rest.len() - kept.len();
        assert(rest.skip(dropped) == text.skip(dropped + 1));
        assert forall|i: int| 0 <= i < dropped + 1 implies is_whitespace(
            #[trigger] text.take(dropped + 1)[i],
        ) by {
            if i > 0 {
                assert(text.take(dropped + 1)[i] == rest.take(dropped)[i - 1]);
            }
        }
    } else {
        assert(text.skip(0) == text);
    }
}

/// Trimming at the end drops a blank suffix and stops at the last character
/// that is not white space.
pub proof fn lemma_trim_end_shape(text: Seq<char>)
    ensures
        trim_end(text).len() <= text.len(),
        trim_end(text) == text.take(trim_end(text).len() as int),
        is_blank(text.skip(trim_end(text).len() as int)),
        trim_end(text).len() > 0 ==> !is_whitespace(trim_end(text).last()),
    decreases text.len(),
{
    if text.len() > 0 && is_whitespace(text.last()) {
        let rest = text.drop_last();
        lemma_trim_end_shape(rest);
        let kept = trim_end(rest).len() as int;
        assert(rest.take(kept) == text.take(kept));
        assert forall|i: int| 0 <= i < text.len() - kept implies is_whitespace(
            #[trigger] text.skip(kept)[i],
        ) by {
            if i < rest.len() - kept {
                assert(text.skip(kept)[i] == rest.skip(kept)[i]);
            }
        }
    } else {
        assert(text.take(text.len() as int) == text);
    }
}

/// Trimming leaves nothing exactly of a blank text.
pub proof fn lemma_trimmed_is_empty_iff_blank(text: Seq<char>)
    ensures
        trimmed(text).len() == 0 <==> is_blank(text),
{
    let head = trim_start(text);
    let cut = text.len() - head.len();
    lemma_trim_start_shape(text);
    lemma_trim_end_shape(head);
    if is_blank(text) {
        if head.len() > 0 {
            assert(head[0] == text[cut]);
        }
    }
    if trimmed(text).len() == 0 {
        if head.len() > 0 {
            assert(head.skip(0)[0] == head[0]);
        }
        assert forall|i: int| 0 <= i < text.len() implies is_whitespace(#[trigger] text[i]) by {
            assert(text[i] == text.take(cut)[i]);
        }
    }
}

/// A cut after a blank prefix that stops before a character that is not
/// white space is where trimming at the start cuts.
pub proof fn lemma_trim_start_at(text: Seq<char>, cut: int)
    requires
        0 <= cut <= text.len(),
        is_blank(text.take(cut)),
        cut < text.len() ==> !is_whitespace(text[cut]),
    ensures
        trim_start(text) == text.skip(cut),
    decreases cut,
{
    if cut == 0 {
        assert(text.skip(0) == text);
    } else {
        let rest = text.drop_first();
        assert(text[0] == text.take(cut)[0]);
        assert forall|i: int| 0 <= i < cut - 1 implies is_whitespace(
            #[trigger] rest.take(cut - 1)[i],
        ) by {
            assert(rest.take(cut - 1)[i] == text.take(cut)[i + 1]);
        }
        lemma_trim_start_at(rest, cut - 1);
        assert(rest.skip(cut - 1) == text.skip(cut));
    }
}

/// A cut before a blank suffix that stops after a character that is not
/// white space is where trimming at the end cuts.
pub proof fn lemma_trim_end_at(text: Seq<char>, cut: int)
    requires
        0 <= cut <= text.len(),
        is_blank(text.skip(cut)),
        cut > 0 ==> !is_whitespace(text[cut - 1]),
    ensures
        trim_end(text) == text.take(cut),
    decreases text.len() - cut,
{
    if cut == text.len() {
        assert(text.take(cut) == text);
    } else {
        let rest = text.drop_last();
        assert(text.last() == text.skip(cut)[text.len() - 1 - cut]);
        assert forall|i: int| 0 <= i < rest.len() - cut implies is_whitespace(
            #[trigger] rest.skip(cut)[i],
        ) by {
            assert(rest.skip(cut)[i] == text.skip(cut)[i]);
        }
        lemma_trim_end_at(rest, cut);
        assert(rest.take(cut) == text.take(cut));
    }
}

/// The text without the white space at either end, as `str::trim` gives it.
pub fn trim<'a>(text: &'a str) -> (core: &'a str)
    ensures
        core@ == trimmed(text@),
{
    let length = text.unicode_len();
    let mut start: usize = 0;
    let mut end: usize = 0;
    let mut index: usize = 0;
    for c in it: text.chars()
        invariant
            it.seq() == text@,
            index == it.index(),
            text@.len() == length,
            start <= end <= index,
            end == 0 ==> start == 0 && is_blank(text@.take(index as int)),
            end > 0 ==> start < end && is_blank(text@.take(start as int)) && !is_whitespace(
                text@[start as int],
            ) && !is_whitespace(text@[end - 1]) && is_blank(
                text@.subrange(end as int, index as int),
            ),
    {
        if !is_space(c) {
            if end == 0 {
                start = index;
            }
            end = index + 1;
        } else {
            proof {
                if end == 0 {
                    assert forall|i: int| 0 <= i < index + 1 implies is_whitespace(
                        #[trigger] text@.take(index + 1)[i],
                    ) by {
                        if i < index {
                            assert(text@.take(index + 1)[i] == text@.take(index as int)[i]);
                        }
                    }
                } else {
                    assert forall|i: int| 0 <= i < index + 1 - end implies is_whitespace(
                        #[trigger] text@.subrange(end as int, index + 1)[i],
                    ) by {
                        if i < index - end {
                            assert(text@.subrange(end as int, index + 1)[i] == text@.subrange(
                                end as int,
                                index as int,
                            )[i]);
                        }
                    }
                }
            }
        }
        index = index + 1;
    }
    proof {
        let whole = text@;
        if end == 0 {
            assert(whole.take(length as int) == whole);
            lemma_trimmed_is_empty_iff_blank(whole);
            assert(whole.subrange(0, 0) == trimmed(whole));
        } else {
            lemma_trim_start_at(whole, start as int);
            let tail = whole.skip(start as int);
            assert forall|i: int| 0 <= i < tail.len() - (end - start) implies is_whitespace(
                #[trigger] tail.skip(end - start)[i],
            ) by {
                assert(tail.skip(end - start)[i] == whole.subrange(end as int, length as int)[i]);
            }
            assert(tail[end - start - 1] == whole[end - 1]);
            lemma_trim_end_at(tail, end - start);
            assert(tail.take(end - start) == whole.subrange(start as int, end as int));
        }
    }
    text.substring_char(start, end)
}

/// Whether the text holds nothing but white space.
pub fn blank(text: &str) -> (blank: bool)
    ensures
        blank == is_blank(text@),
{
    for c in it: text.chars()
        invariant
            it.seq() == text@,
            forall|i: int| 0 <= i < it.index() ==> is_whitespace(#[trigger] text@[i]),
    {
        if !is_space(c) {
            return false;
        }
    }
    true
}

} // verus!
