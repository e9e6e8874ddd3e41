//! Picking the latest sentence out of running text.

use vstd::prelude::*;

use crate::text::to_chars;

verus! {

/// The Unicode `White_Space` property.
pub open spec fn is_white_space(c: char) -> bool {
    ||| '\u{9}' <= c <= '\u{d}'
    ||| c == '\u{20}'
    ||| c == '\u{85}'
    ||| c == '\u{a0}'
    ||| c == '\u{1680}'
    ||| '\u{2000}' <= c <= '\u{200a}'
    ||| c == '\u{2028}'
    ||| c == '\u{2029}'
    ||| c == '\u{202f}'
    ||| c == '\u{205f}'
    ||| c == '\u{3000}'
}

/// `char::is_whitespace` of std: whether the character has the Unicode
/// `White_Space` property, which `PropList.txt` of the Unicode Character
/// Database lists code point by code point.
pub assume_specification[ char::is_whitespace ](c: char) -> (space: bool)
    ensures
        space == is_white_space(c),
;

/// The punctuation that ends a sentence wherever it stands.
pub open spec fn is_sentence_end(c: char) -> bool {
    c == '。' || c == '！' || c == '？' || c == '；' || c == '…' || c == '!' || c == '?'
}

/// What is cut off the end of a text before its last sentence is looked for.
pub open spec fn is_trailing(c: char) -> bool {
    c == '.' || is_white_space(c) || is_sentence_end(c)
}

/// Whether the character at `i` closes a sentence. A full stop does so only at
/// the end of the text or before white space, so that `3.5` and `a.cc` stay whole.
pub open spec fn closes_at(text: Seq<char>, i: int) -> bool {
    if text[i] == '.' {
        i + 1 == text.len() || is_white_space(text[i + 1])
    } else {
        text[i] == '\n' || is_sentence_end(text[i])
    }
}

/// `text` without the longest run of trailing characters at its end.
pub open spec fn trimmed(text: Seq<char>) -> Seq<char>
    decreases text.len(),
{
    if text.len() > 0 && is_trailing(text.last()) {
        trimmed(text.drop_last())
    } else {
        text
    }
}

/// One past the last of the first `n` positions that closes a sentence, or 0.
pub open spec fn sentence_start(text: Seq<char>, n: nat) -> nat
    decreases n,
{
    if n == 0 || closes_at(text, n - 1) {
        n
    } else {
        sentence_start(text, (n - 1) as nat)
    }
}

/// The last sentence of `text`: what follows the last closing character once the
/// end is trimmed. There is none when nothing is left after trimming.
pub open spec fn sentence_of(text: Seq<char>) -> Option<Seq<char>> {
    let body = trimmed(text);
    if body.len() == 0 {
        None
    } else {
        Some(body.skip(sentence_start(body, body.len()) as int))
    }
}

fn sentence_end(c: char) -> (ends: bool)
    ensures
        ends == is_sentence_end(c),
{
    c == '。' || c == '！' || c == '？' || c == '；' || c == '…' || c == '!' || c == '?'
}

/// The last sentence of `text`.
pub fn last_sentence(text: &str) -> (sentence: Option<&str>)
    ensures
        sentence is Some <==> sentence_of(text@) is Some,
        sentence is Some ==> Some(sentence->0@) == sentence_of(text@),
{
    let chars = to_chars(text);
    let mut end: usize = chars.len();
    assert(text@.take(end as int) =~= text@);
    while end > 0 && (chars[end - 1] == '.' || chars[end - 1].is_whitespace() || sentence_end(
        chars[end - 1],
    ))
        invariant
            end <= chars.len(),
            chars@ == text@,
            trimmed(text@.take(end as int)) == trimmed(text@),
        decreases end,
    {
        assert(text@.take(end as int).drop_last() =~= text@.take(end - 1));
        end = end - 1;
    }
    let ghost body = text@.take(end as int);
    assert(trimmed(text@) == body);
    if end == 0 {
        return None;
    }
    let mut start: usize = end;
    while start > 0 && !closes(&chars, end, start - 1)
        invariant
            start <= end <= chars.len(),
            chars@ == text@,
            body == text@.take(end as int),
            sentence_start(body, start as nat) == sentence_start(body, end as nat),
        decreases start,
    {
        start = start - 1;
    }
    assert(body.skip(start as int) =~= text@.subrange(start as int, end as int));
    Some(text.substring_char(start, end))
}

fn closes(chars: &Vec<char>, end: usize, i: usize) -> (closing: bool)
    requires
        i < end <= chars.len(),
    ensures
        closing == closes_at(chars@.take(end as int), i as int),
{
    let c = chars[i];
    if c == '.' {
        i + 1 == end || chars[i + 1].is_whitespace()
    } else {
        c == '\n' || sentence_end(c)
    }
}

/// Trimming removes a run of trailing characters and stops at the first
/// character, from the end, that is none.
pub proof fn law_trimming(text: Seq<char>)
    ensures
        trimmed(text).len() <= text.len(),
        trimmed(text) == text.take(trimmed(text).len() as int),
        forall|i: int| trimmed(text).len() <= i < text.len() ==> is_trailing(#[trigger] text[i]),
        trimmed(text).len() > 0 ==> !is_trailing(trimmed(text).last()),
    decreases text.len(),
{
    if text.len() > 0 && is_trailing(text.last()) {
        let init = text.drop_last();
        law_trimming(init);
        assert(trimmed(text) =~= text.take(trimmed(text).len() as int));
        assert forall|i: int| trimmed(text).len() <= i < text.len() implies is_trailing(
            #[trigger] text[i],
        ) by {
            if i < init.len() {
                assert(init[i] == text[i]);
            }
        }
    } else {
        assert(text =~= text.take(text.len() as int));
    }
}

/// The start of a sentence is 0 or follows a closing character, and nothing
/// from it on closes a sentence.
proof fn lemma_sentence_start(text: Seq<char>, n: nat)
    ensures
        sentence_start(text, n) <= n,
        sentence_start(text, n) > 0 ==> closes_at(text, sentence_start(text, n) - 1),
        forall|i: int| sentence_start(text, n) <= i < n ==> !#[trigger] closes_at(text, i),
    decreases n,
{
    if n > 0 && !closes_at(text, n - 1) {
        lemma_sentence_start(text, (n - 1) as nat);
    }
}

/// A position with those properties is the start of the sentence.
proof fn lemma_sentence_start_unique(text: Seq<char>, n: nat, start: nat)
    requires
        start <= n,
        start > 0 ==> closes_at(text, start - 1),
        forall|i: int| start <= i < n ==> !#[trigger] closes_at(text, i),
    ensures
        sentence_start(text, n) == start,
    decreases n,
{
    if n > start {
        assert(!closes_at(text, n - 1));
        lemma_sentence_start_unique(text, (n - 1) as nat, start);
    }
}

/// A split of `text` around its last sentence: `rest` is trailing characters
/// only, `sentence` ends in a character that is not trailing and closes nowhere,
/// and `head` is empty or ends in a character that closes a sentence of `text`.
pub open spec fn splits_at_last_sentence(
    text: Seq<char>,
    head: Seq<char>,
    sentence: Seq<char>,
    rest: Seq<char>,
) -> bool {
    &&& text == head + sentence + rest
    &&& head.len() > 0 ==> closes_at(text, head.len() - 1)
    &&& sentence.len() > 0
    &&& !is_trailing(sentence.last())
    &&& forall|i: int| 0 <= i < sentence.len() ==> !#[trigger] closes_at(sentence, i)
    &&& forall|i: int| 0 <= i < rest.len() ==> is_trailing(#[trigger] rest[i])
}

/// The last sentence is the middle of such a split.
pub proof fn law_last_sentence_splits_text(text: Seq<char>)
    requires
        sentence_of(text) is Some,
    ensures
        exists|head: Seq<char>, rest: Seq<char>|
            splits_at_last_sentence(text, head, sentence_of(text)->0, rest),
{
    law_trimming(text);
    let body = trimmed(text);
    let start = sentence_start(body, body.len());
    lemma_sentence_start(body, body.len());
    if start == body.len() {
        assert(closes_at(body, body.len() - 1));
        assert(is_trailing(body.last()));
    }
    let head = body.take(start as int);
    let sentence = body.skip(start as int);
    let rest = text.skip(body.len() as int);
    assert(text =~= head + sentence + rest);
    assert forall|i: int| 0 <= i < sentence.len() implies !#[trigger] closes_at(sentence, i) by {
        assert(!closes_at(body, start + i));
    }
    assert(splits_at_last_sentence(text, head, sentence, rest));
    assert(sentence_of(text)->0 == sentence);
}

/// There is only one such split: whatever stands in the middle of one is what
/// `last_sentence` returns.
pub proof fn law_split_is_unique(
    text: Seq<char>,
    head: Seq<char>,
    sentence: Seq<char>,
    rest: Seq<char>,
)
    requires
        splits_at_last_sentence(text, head, sentence, rest),
    ensures
        sentence_of(text) == Some(sentence),
{
    let body = head + sentence;
    law_trailing_end_is_ignored(body, rest);
    assert(body.last() == sentence.last());
    assert(trimmed(body) == body);
    assert forall|i: int| head.len() <= i < body.len() implies !#[trigger] closes_at(body, i) by {
        assert(!closes_at(sentence, i - head.len()));
    }
    if head.len() > 0 {
        assert(body[head.len() - 1] == text[head.len() - 1]);
        assert(body[head.len() as int] == text[head.len() as int]);
    }
    lemma_sentence_start_unique(body, body.len(), head.len());
    assert(body.skip(head.len() as int) =~= sentence);
}

/// Text has no last sentence exactly when it holds nothing but white space and
/// sentence punctuation.
pub proof fn law_no_sentence_in_punctuation(text: Seq<char>)
    ensures
        sentence_of(text) is None <==> forall|i: int|
            0 <= i < text.len() ==> is_trailing(#[trigger] text[i]),
{
    law_trimming(text);
    if sentence_of(text) is Some {
        assert(!is_trailing(text[trimmed(text).len() - 1]));
    }
}

/// White space and sentence punctuation at the end change nothing.
pub proof fn law_trailing_end_is_ignored(text: Seq<char>, rest: Seq<char>)
    requires
        forall|i: int| 0 <= i < rest.len() ==> is_trailing(#[trigger] rest[i]),
    ensures
        trimmed(text + rest) == trimmed(text),
        sentence_of(text + rest) == sentence_of(text),
    decreases rest.len(),
{
    if rest.len() == 0 {
        assert(text + rest =~= text);
    } else {
        let init = rest.drop_last();
        assert((text + rest).drop_last() =~= text + init);
        assert((text + rest).last() == rest.last());
        assert(forall|i: int| 0 <= i < init.len() ==> #[trigger] init[i] == rest[i]);
        law_trailing_end_is_ignored(text, init);
    }
}

/// A character closes a sentence of the end of a text where it does so in the
/// whole text.
proof fn lemma_closes_in_end(text: Seq<char>, from: int, i: int)
    requires
        0 <= from,
        0 <= i,
        from + i < text.len(),
    ensures
        closes_at(text.skip(from), i) == closes_at(text, from + i),
{
}

/// What stands before a closing character does not matter once a further
/// sentence has begun after it.
#[verifier::spinoff_prover]
pub proof fn law_earlier_sentences_are_ignored(text: Seq<char>, k: int)
    requires
        0 <= k < text.len(),
        closes_at(text, k),
        sentence_of(text.skip(k + 1)) is Some,
    ensures
        sentence_of(text) == sentence_of(text.skip(k + 1)),
{
    let after = text.skip(k + 1);
    law_last_sentence_splits_text(after);
    let sentence = sentence_of(after)->0;
    let (head, rest) = choose|head: Seq<char>, rest: Seq<char>|
        splits_at_last_sentence(after, head, sentence, rest);
    let full = text.take(k + 1) + head;
    assert(text =~= text.take(k + 1) + after);
    assert(after == head + sentence + rest);
    assert(text =~= full + sentence + rest);
    if head.len() > 0 {
        lemma_closes_in_end(text, k + 1, head.len() - 1);
    }
    law_split_is_unique(text, full, sentence, rest);
}

/// Text in which nothing closes a sentence is one sentence, up to its end.
pub proof fn law_text_without_ends_is_one_sentence(text: Seq<char>)
    requires
        text.len() > 0,
        !is_trailing(text.last()),
        forall|i: int| 0 <= i < text.len() ==> !#[trigger] closes_at(text, i),
    ensures
        sentence_of(text) == Some(text),
{
    let none = Seq::<char>::empty();
    assert(text =~= none + text + none);
    law_split_is_unique(text, none, text, none);
}

/// The last sentence of a last sentence is itself.
pub proof fn law_last_sentence_is_idempotent(text: Seq<char>)
    requires
        sentence_of(text) is Some,
    ensures
        sentence_of(sentence_of(text)->0) == sentence_of(text),
{
    law_last_sentence_splits_text(text);
    law_text_without_ends_is_one_sentence(sentence_of(text)->0);
}

/// A last sentence is not empty. It holds no sentence punctuation and no line
/// break, and a full stop in it never stands before white space or at the end; nor
/// does it end in white space.
pub proof fn law_sentence_holds_no_end(text: Seq<char>)
    requires
        sentence_of(text) is Some,
    ensures
        ({
            let s = sentence_of(text)->0;
            &&& s.len() > 0
            &&& forall|i: int|
                0 <= i < s.len() ==> !(#[trigger] s[i] == '。' || s[i] == '！' || s[i] == '？' || s[i] == '；' || s[i] == '…' || s[i] == '!' || s[i] == '?' || s[i] == '\n')
            &&& forall|i: int|
                0 <= i < s.len() && #[trigger] s[i] == '.' ==> i + 1 < s.len()
                    && !is_white_space(s[i + 1])
            &&& !is_white_space(s[s.len() - 1])
        }),
{
    law_last_sentence_splits_text(text);
    let s = sentence_of(text)->0;
    assert forall|i: int| 0 <= i < s.len() implies !(#[trigger] s[i] == '。' || s[i] == '！' || s[i] == '？' || s[i] == '；' || s[i] == '…' || s[i] == '!' || s[i] == '?' || s[i] == '\n') by {
        assert(!closes_at(s, i));
    }
    assert forall|i: int| 0 <= i < s.len() && #[trigger] s[i] == '.' implies i + 1 < s.len()
        && !is_white_space(s[i + 1]) by {
        assert(!closes_at(s, i));
    }
}

/// Where the last sentence of a text stands is settled by the characters alone.
/// After it come only full stops, white space and sentence punctuation; before it
/// comes the beginning of the text, a line break, sentence punctuation of any kind,
/// or a full stop that white space follows; and none of these stands in it.
pub proof fn law_sentence_stands_between_ends(text: Seq<char>, start: int, end: int)
    requires
        0 <= start < end <= text.len(),
        start == 0 || (text[start - 1] == '。' || text[start - 1] == '！' || text[start - 1] == '？' || text[start - 1] == '；' || text[start - 1] == '…' || text[start - 1] == '!' || text[start - 1] == '?' || text[start - 1] == '\n') || (text[start - 1] == '.' && is_white_space(
            text[start],
        )),
        forall|i: int|
            start <= i < end ==> !(#[trigger] text[i] == '。' || text[i] == '！' || text[i] == '？' || text[i] == '；' || text[i] == '…' || text[i] == '!' || text[i] == '?' || text[i] == '\n'),
        forall|i: int|
            start <= i < end && #[trigger] text[i] == '.' ==> i + 1 < end && !is_white_space(
                text[i + 1],
            ),
        !is_white_space(text[end - 1]),
        forall|i: int|
            end <= i < text.len() ==> (#[trigger] text[i] == '。' || text[i] == '！' || text[i] == '？' || text[i] == '；' || text[i] == '…' || text[i] == '!' || text[i] == '?') || text[i] == '.'
                || is_white_space(text[i]),
    ensures
        sentence_of(text) == Some(text.subrange(start, end)),
{
    let head = text.take(start);
    let s = text.subrange(start, end);
    let rest = text.skip(end);
    assert(text =~= head + s + rest);
    assert(s.last() == text[end - 1]);
    assert forall|i: int| 0 <= i < s.len() implies !#[trigger] closes_at(s, i) by {
        assert(s[i] == text[start + i]);
        if i + 1 < s.len() {
            assert(s[i + 1] == text[start + i + 1]);
        }
    }
    assert forall|i: int| 0 <= i < rest.len() implies is_trailing(#[trigger] rest[i]) by {
        assert(rest[i] == text[end + i]);
    }
    law_split_is_unique(text, head, s, rest);
}

/// Each of the sentence ends, and a line break, closes a sentence whatever
/// follows it: what comes after the last of them is the last sentence, white space
/// at its beginning and all.
pub proof fn law_end_closes_whatever_follows(a: Seq<char>, end: char, b: Seq<char>)
    requires
        end == '。' || end == '！' || end == '？' || end == '；' || end == '…' || end == '!' || end == '?' || end == '\n',
        b.len() > 0,
        !is_white_space(b[b.len() - 1]),
        forall|i: int|
            0 <= i < b.len() ==> !(#[trigger] b[i] == '。' || b[i] == '！' || b[i] == '？' || b[i] == '；' || b[i] == '…' || b[i] == '!' || b[i] == '?' || b[i] == '\n'),
        forall|i: int|
            0 <= i < b.len() && #[trigger] b[i] == '.' ==> i + 1 < b.len() && !is_white_space(
                b[i + 1],
            ),
    ensures
        sentence_of(a + seq![end] + b) == Some(b),
{
    let text = a + seq![end] + b;
    let start = a.len() as int + 1;
    assert(text[start - 1] == end);
    assert(text.subrange(start, text.len() as int) =~= b);
    assert forall|i: int| start <= i < text.len() implies !(#[trigger] text[i] == '。' || text[i] == '！' || text[i] == '？' || text[i] == '；' || text[i] == '…' || text[i] == '!' || text[i] == '?' || text[i] == '\n') by {
        assert(text[i] == b[i - start]);
    }
    assert forall|i: int| start <= i < text.len() && #[trigger] text[i] == '.' implies i + 1
        < text.len() && !is_white_space(text[i + 1]) by {
        assert(text[i] == b[i - start]);
        assert(text[i + 1] == b[i - start + 1]);
    }
    law_sentence_stands_between_ends(text, start, text.len() as int);
}

/// A text has no last sentence exactly when every character of it is a full
/// stop, white space or sentence punctuation.
pub proof fn law_sentence_needs_a_character_of_its_own(text: Seq<char>)
    ensures
        sentence_of(text) is None <==> forall|i: int|
            0 <= i < text.len() ==> (#[trigger] text[i] == '。' || text[i] == '！' || text[i] == '？' || text[i] == '；' || text[i] == '…' || text[i] == '!' || text[i] == '?') || text[i] == '.'
                || is_white_space(text[i]),
{
    law_no_sentence_in_punctuation(text);
    if forall|i: int| 0 <= i < text.len() ==> is_trailing(#[trigger] text[i]) {
        assert forall|i: int| 0 <= i < text.len() implies (#[trigger] text[i] == '。' || text[i] == '！' || text[i] == '？' || text[i] == '；' || text[i] == '…' || text[i] == '!' || text[i] == '?') || text[i]
            == '.' || is_white_space(text[i]) by {
            assert(is_trailing(text[i]));
        }
    }
}

/// White space is the 25 code points that Unicode lists.
pub proof fn law_white_space_by_code_point(c: char)
    ensures
        is_white_space(c) <==> (0x9 <= c as u32 <= 0xd || c as u32 == 0x20 || c as u32 == 0x85
            || c as u32 == 0xa0 || c as u32 == 0x1680 || 0x2000 <= c as u32 <= 0x200a || c as u32
            == 0x2028 || c as u32 == 0x2029 || c as u32 == 0x202f || c as u32 == 0x205f || c as u32
            == 0x3000),
{
}

} // verus!
