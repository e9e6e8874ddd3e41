//! The text committed in this session, kept in memory up to a capacity.

use vstd::prelude::*;

use crate::sentence;
use crate::text;

verus! {

/// How many characters a history keeps unless told otherwise.
pub const DEFAULT_CAPACITY: usize = 4096;

/// Committed text in the order in which it was committed. When the capacity is
/// exceeded, the oldest characters go first.
#[derive(Debug)]
pub struct InputHistory {
    text: String,
    capacity: usize,
}

/// The characters that a history holds and how many it may hold.
#[verifier::ext_equal]
pub struct HistoryView {
    pub text: Seq<char>,
    pub capacity: nat,
}

impl View for InputHistory {
    type V = HistoryView;

    closed spec fn view(&self) -> HistoryView {
        HistoryView { text: self.text@, capacity: self.capacity as nat }
    }
}

impl HistoryView {
    /// A history with nothing in it.
    pub open spec fn empty(capacity: nat) -> HistoryView {
        HistoryView { text: Seq::empty(), capacity }
    }

    /// The history never holds more than its capacity.
    pub open spec fn wf(self) -> bool {
        self.text.len() <= self.capacity
    }

    /// The history after `text` was committed. Empty text is no commit.
    pub open spec fn record(self, text: Seq<char>) -> HistoryView {
        if text.len() == 0 {
            self
        } else {
            HistoryView { text: text::last_chars(self.text + text, self.capacity), ..self }
        }
    }

    /// The history after each of `texts` was committed in turn.
    pub open spec fn record_all(self, texts: Seq<Seq<char>>) -> HistoryView
        decreases texts.len(),
    {
        if texts.len() == 0 {
            self
        } else {
            self.record_all(texts.drop_last()).record(texts.last())
        }
    }
}

impl Clone for InputHistory {
    fn clone(&self) -> (copy: Self)
        ensures
            copy@ == self@,
    {
        InputHistory { text: self.text.clone(), capacity: self.capacity }
    }
}

impl Default for InputHistory {
    fn default() -> (history: Self)
        ensures
            history@ == HistoryView::empty(DEFAULT_CAPACITY as nat),
            history@.wf(),
    {
        Self::with_capacity(DEFAULT_CAPACITY)
    }
}

impl InputHistory {
    /// An empty history that holds at most `capacity` characters.
    pub fn with_capacity(capacity: usize) -> (history: Self)
        ensures
            history@ == HistoryView::empty(capacity as nat),
            history@.wf(),
    {
        InputHistory { text: String::new(), capacity }
    }

    /// Appends committed text and drops the oldest characters beyond the capacity.
    pub fn record(&mut self, text: &str)
        ensures
            final(self)@ == old(self)@.record(text@),
            old(self)@.wf() ==> final(self)@.wf(),
    {
        text::push_capped(&mut self.text, text, self.capacity);
    }

    /// The most recent `chars` characters.
    pub fn recent(&self, chars: usize) -> (recent: &str)
        ensures
            recent@ == text::last_chars(self@.text, chars as nat),
    {
        text::tail(self.text.as_str(), chars)
    }

    /// All that is kept.
    pub fn text(&self) -> (text: &str)
        ensures
            text@ == self@.text,
    {
        self.text.as_str()
    }

    /// The last sentence of what is kept.
    pub fn last_sentence(&self) -> (sentence: Option<&str>)
        ensures
            sentence is Some <==> sentence::sentence_of(self@.text) is Some,
            sentence is Some ==> Some(sentence->0@) == sentence::sentence_of(self@.text),
    {
        sentence::last_sentence(self.text.as_str())
    }

    /// Whether nothing is kept.
    pub fn is_empty(&self) -> (empty: bool)
        ensures
            empty == (self@.text.len() == 0),
    {
        self.text.as_str().is_empty()
    }

    /// Forgets everything; the capacity stays.
    pub fn clear(&mut self)
        ensures
            final(self)@ == HistoryView::empty(old(self)@.capacity),
            final(self)@.wf(),
    {
        self.text = String::new();
    }
}

/// After any number of commits the history holds the last `capacity` characters
/// of all that was committed, in order.
pub proof fn law_history_is_the_end_of_everything(capacity: nat, texts: Seq<Seq<char>>)
    ensures
        HistoryView::empty(capacity).record_all(texts) == (HistoryView {
            text: text::last_chars(texts.flatten(), capacity),
            capacity,
        }),
        HistoryView::empty(capacity).record_all(texts).wf(),
    decreases texts.len(),
{
    if texts.len() > 0 {
        let init = texts.drop_last();
        law_history_is_the_end_of_everything(capacity, init);
        texts.lemma_flatten_and_flatten_alt_are_equivalent();
        init.lemma_flatten_and_flatten_alt_are_equivalent();
        assert(texts.flatten() == init.flatten() + texts.last());
        text::law_cutting_early_loses_nothing(init.flatten(), texts.last(), capacity);
    }
}

/// Committing two texts in turn is committing them as one.
pub proof fn law_records_join(history: HistoryView, a: Seq<char>, b: Seq<char>)
    ensures
        history.record(a).record(b) == history.record(a + b),
{
    text::law_cutting_early_loses_nothing(history.text + a, b, history.capacity);
    assert(history.text + a + b =~= history.text + (a + b));
}

/// A commit never leaves more than the capacity, and loses nothing that fits it.
pub proof fn law_capacity_bounds_every_commit(history: HistoryView, text: Seq<char>)
    requires
        history.wf(),
    ensures
        history.record(text).wf(),
        history.text.len() + text.len() <= history.capacity ==> history.record(text).text
            == history.text + text,
{
}

/// What was just committed is what `recent` gives back, as long as it fits the
/// capacity.
pub proof fn law_recent_gives_back_the_last_record(history: HistoryView, text: Seq<char>)
    requires
        text.len() <= history.capacity,
    ensures
        text::last_chars(history.record(text).text, text.len()) == text,
{
    assert(text::last_chars(history.record(text).text, text.len()) =~= text);
}

/// A shorter look back is the end of a longer one.
pub proof fn law_shorter_recent_ends_longer(history: HistoryView, longer: nat, shorter: nat)
    requires
        shorter <= longer,
    ensures
        text::last_chars(text::last_chars(history.text, longer), shorter) == text::last_chars(
            history.text,
            shorter,
        ),
{
}

/// Every character that a commit leaves behind is accounted for: of the old
/// text and the new one, put end to end, as many stay as the capacity allows, and
/// they are the last ones.
pub proof fn law_commit_keeps_the_newest_characters(history: HistoryView, text: Seq<char>)
    requires
        history.text.len() <= history.capacity,
    ensures
        ({
            let all = history.text + text;
            let kept = history.record(text).text;
            &&& all.len() <= history.capacity ==> kept.len() == all.len()
            &&& all.len() > history.capacity ==> kept.len() == history.capacity
            &&& forall|i: int|
                0 <= i < kept.len() ==> #[trigger] kept[i] == all[all.len() - kept.len() + i]
            &&& history.record(text).capacity == history.capacity
        }),
{
}

/// A history begins, and begins again, with no text and the capacity it is
/// given; unless told otherwise that is 4096 characters. It is in order while it
/// holds no more than that.
pub proof fn law_history_begins_empty(capacity: nat, history: HistoryView)
    ensures
        HistoryView::empty(capacity).text.len() == 0,
        HistoryView::empty(capacity).capacity == capacity,
        DEFAULT_CAPACITY == 4096,
        history.wf() <==> history.text.len() <= history.capacity,
{
}

} // verus!
