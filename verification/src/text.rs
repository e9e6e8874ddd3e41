//! Character-level operations on strings, counted in Unicode scalar values.

use vstd::prelude::*;

verus! {

/// The last `count` characters of `text`, or all of it when it is shorter.
pub open spec fn last_chars(text: Seq<char>, count: nat) -> Seq<char> {
    if text.len() <= count {
        text
    } else {
        text.skip(text.len() - count)
    }
}

/// The characters of `text`, one element each.
pub(crate) fn to_chars(text: &str) -> (chars: Vec<char>)
    ensures
        chars@ == text@,
{
    let mut chars: Vec<char> = Vec::new();
    for c in it: text.chars()
        invariant
            chars@ == it.seq().take(it.index()),
            it.seq() == text@,
    {
        chars.push(c);
    }
    chars
}

/// The last `count` characters of `text`, cut on a character boundary.
pub(crate) fn tail(text: &str, count: usize) -> (end: &str)
    ensures
        end@ == last_chars(text@, count as nat),
{
    let len: usize = text.unicode_len();
    if len <= count {
        text
    } else {
        text.substring_char(len - count, len)
    }
}

/// Appends `text` to `buffer`, then drops characters from the front of the
/// buffer until at most `capacity` are left. An empty `text` leaves the buffer
/// as it is.
pub(crate) fn push_capped(buffer: &mut String, text: &str, capacity: usize)
    ensures
        final(buffer)@ == if text@.len() == 0 {
            old(buffer)@
        } else {
            last_chars(old(buffer)@ + text@, capacity as nat)
        },
{
    if text.is_empty() {
        return;
    }
    buffer.append(text);
    let count: usize = buffer.as_str().unicode_len();
    if count > capacity {
        let kept = tail(buffer.as_str(), capacity).to_owned();
        *buffer = kept;
    }
}

/// Cutting to `count` characters after every append keeps the same characters
/// as appending everything first and cutting once.
pub proof fn law_cutting_early_loses_nothing(a: Seq<char>, b: Seq<char>, count: nat)
    ensures
        last_chars(last_chars(a, count) + b, count) == last_chars(a + b, count),
{
}

/// The last characters of a text are as many as asked for and there are, and
/// they stand at its very end.
pub proof fn law_last_chars_are_the_end(text: Seq<char>, count: nat)
    ensures
        text.len() <= count ==> last_chars(text, count).len() == text.len(),
        text.len() > count ==> last_chars(text, count).len() == count,
        forall|i: int|
            0 <= i < last_chars(text, count).len() ==> #[trigger] last_chars(text, count)[i]
                == text[text.len() - last_chars(text, count).len() + i],
{
}

} // verus!
