//! What the candidate window shows and what a key press is answered with.

use vstd::prelude::*;

verus! {

/// The shell's number for a layout of the candidate window; only handed on.
#[derive(Debug, Clone, Copy, PartialEq, Eq, Structural)]
pub struct Layout {
    pub code: u32,
}

/// The shell's number for a colour theme; only handed on.
#[derive(Debug, Clone, Copy, PartialEq, Eq, Structural)]
pub struct Theme {
    pub code: u32,
}

/// A rectangle on the screen.
#[derive(Debug, Clone, Copy, PartialEq, Eq, Structural)]
pub struct Rect {
    pub left: i32,
    pub top: i32,
    pub right: i32,
    pub bottom: i32,
}

/// Where a candidate comes from.
#[derive(Debug, Clone, Copy, PartialEq, Eq, Structural)]
pub enum CandidateKind {
    Cloud,
}

#[derive(Debug)]
pub struct Candidate {
    pub text: String,
    pub kind: CandidateKind,
    pub syllables: Vec<String>,
    pub reading: Option<String>,
    pub translation: Option<String>,
}

#[derive(Debug)]
pub struct CandidateList {
    pub items: Vec<Candidate>,
}

/// The contents of the candidate window.
#[derive(Debug)]
pub struct Frame {
    pub preedit: Vec<String>,
    pub cursor: usize,
    pub candidates: CandidateList,
    pub highlight: usize,
    pub page: usize,
    pub page_count: usize,
    pub layout: Layout,
    pub theme: Theme,
    pub sentence: Option<String>,
    pub notice: Option<String>,
}

/// A connection of an application.
#[derive(Debug, Clone, Copy, PartialEq, Eq, Structural)]
pub struct SessionId(pub u64);

/// What became of a key press.
#[derive(Debug, Clone, Copy, PartialEq, Eq, Structural)]
pub enum KeyOutcome {
    /// The application is not to see it.
    Consumed,
}

/// An answer to an application.
#[derive(Debug)]
pub enum ServerMessage {
    KeyResult { session: SessionId, outcome: KeyOutcome, commit: Option<String>, frame: Frame },
}

#[verifier::ext_equal]
pub struct CandidateView {
    pub text: Seq<char>,
    pub kind: CandidateKind,
    pub syllables: Seq<Seq<char>>,
    pub reading: Option<Seq<char>>,
    pub translation: Option<Seq<char>>,
}

#[verifier::ext_equal]
pub struct FrameView {
    pub preedit: Seq<Seq<char>>,
    pub cursor: nat,
    pub candidates: Seq<CandidateView>,
    pub highlight: nat,
    pub page: nat,
    pub page_count: nat,
    pub layout: Layout,
    pub theme: Theme,
    pub sentence: Option<Seq<char>>,
    pub notice: Option<Seq<char>>,
}

#[verifier::ext_equal]
pub enum MessageView {
    KeyResult {
        session: SessionId,
        outcome: KeyOutcome,
        commit: Option<Seq<char>>,
        frame: FrameView,
    },
}

pub open spec fn optional_chars(text: Option<String>) -> Option<Seq<char>> {
    match text {
        Some(text) => Some(text@),
        None => None,
    }
}

impl View for Candidate {
    type V = CandidateView;

    open spec fn view(&self) -> CandidateView {
        CandidateView {
            text: self.text@,
            kind: self.kind,
            syllables: self.syllables@.map_values(|s: String| s@),
            reading: optional_chars(self.reading),
            translation: optional_chars(self.translation),
        }
    }
}

impl View for Frame {
    type V = FrameView;

    open spec fn view(&self) -> FrameView {
        FrameView {
            preedit: self.preedit@.map_values(|s: String| s@),
            cursor: self.cursor as nat,
            candidates: self.candidates.items@.map_values(|c: Candidate| c@),
            highlight: self.highlight as nat,
            page: self.page as nat,
            page_count: self.page_count as nat,
            layout: self.layout,
            theme: self.theme,
            sentence: optional_chars(self.sentence),
            notice: optional_chars(self.notice),
        }
    }
}

impl View for ServerMessage {
    type V = MessageView;

    open spec fn view(&self) -> MessageView {
        match *self {
            ServerMessage::KeyResult { session, outcome, commit, frame } => {
                MessageView::KeyResult {
                    session,
                    outcome,
                    commit: optional_chars(commit),
                    frame: frame@,
                }
            },
        }
    }
}

impl FrameView {
    /// Nothing to show.
    pub open spec fn empty() -> FrameView {
        FrameView {
            preedit: Seq::empty(),
            cursor: 0,
            candidates: Seq::empty(),
            highlight: 0,
            page: 0,
            page_count: 0,
            layout: Layout { code: 0 },
            theme: Theme { code: 0 },
            sentence: None,
            notice: None,
        }
    }

    /// A single candidate from the cloud on a single page, and nothing else.
    pub open spec fn single(text: Seq<char>, layout: Layout, theme: Theme) -> FrameView {
        FrameView {
            candidates: seq![
                CandidateView {
                    text,
                    kind: CandidateKind::Cloud,
                    syllables: Seq::empty(),
                    reading: None,
                    translation: None,
                },
            ],
            page_count: 1,
            layout,
            theme,
            ..FrameView::empty()
        }
    }
}

impl MessageView {
    /// The key is consumed, commits nothing and shows nothing.
    pub open spec fn consumed(session: SessionId) -> MessageView {
        MessageView::KeyResult {
            session,
            outcome: KeyOutcome::Consumed,
            commit: None,
            frame: FrameView::empty(),
        }
    }
}

impl Default for Frame {
    fn default() -> (frame: Self)
        ensures
            frame@ == FrameView::empty(),
    {
        Frame {
            preedit: Vec::new(),
            cursor: 0,
            candidates: CandidateList { items: Vec::new() },
            highlight: 0,
            page: 0,
            page_count: 0,
            layout: Layout { code: 0 },
            theme: Theme { code: 0 },
            sentence: None,
            notice: None,
        }
    }
}

impl Frame {
    /// A single candidate from the cloud on a single page, and nothing else.
    pub fn single(text: &str, layout: Layout, theme: Theme) -> (frame: Frame)
        ensures
            frame@ == FrameView::single(text@, layout, theme),
    {
        let candidate = Candidate {
            text: text.to_owned(),
            kind: CandidateKind::Cloud,
            syllables: Vec::new(),
            reading: None,
            translation: None,
        };
        let mut items: Vec<Candidate> = Vec::new();
        items.push(candidate);
        let frame = Frame {
            preedit: Vec::new(),
            cursor: 0,
            candidates: CandidateList { items },
            highlight: 0,
            page: 0,
            page_count: 1,
            layout,
            theme,
            sentence: None,
            notice: None,
        };
        assert(frame@ =~~= FrameView::single(text@, layout, theme));
        frame
    }
}

impl ServerMessage {
    /// The key is consumed, commits nothing and shows nothing.
    pub fn consumed(session: SessionId) -> (message: ServerMessage)
        ensures
            message@ == MessageView::consumed(session),
    {
        ServerMessage::KeyResult {
            session,
            outcome: KeyOutcome::Consumed,
            commit: None,
            frame: Frame::default(),
        }
    }
}

/// A frame for a text shows that text as its one candidate, from the cloud and
/// without syllables, reading or translation, on the first of one page, first in
/// line, in the layout and theme given, and nothing else.
pub proof fn law_single_shows_one_candidate(text: Seq<char>, layout: Layout, theme: Theme)
    ensures
        ({
            let frame = FrameView::single(text, layout, theme);
            &&& frame.candidates.len() == 1
            &&& frame.candidates[0].text == text
            &&& frame.candidates[0].kind == CandidateKind::Cloud
            &&& frame.candidates[0].syllables.len() == 0
            &&& frame.candidates[0].reading is None
            &&& frame.candidates[0].translation is None
            &&& frame.highlight == 0
            &&& frame.page == 0
            &&& frame.page_count == 1
            &&& frame.layout == layout
            &&& frame.theme == theme
            &&& frame.preedit.len() == 0
            &&& frame.cursor == 0
            &&& frame.sentence is None
            &&& frame.notice is None
        }),
{
}

/// A consumed key is answered to its own session, commits nothing, and shows no
/// preedit, no candidate, no page and no message.
pub proof fn law_consumed_key_shows_nothing(session: SessionId)
    ensures
        match MessageView::consumed(session) {
            MessageView::KeyResult { session: to, outcome, commit, frame } => {
                &&& to == session
                &&& outcome == KeyOutcome::Consumed
                &&& commit is None
                &&& frame == FrameView::empty()
                &&& frame.preedit.len() == 0
                &&& frame.cursor == 0
                &&& frame.candidates.len() == 0
                &&& frame.highlight == 0
                &&& frame.page == 0
                &&& frame.page_count == 0
                &&& frame.layout.code == 0
                &&& frame.theme.code == 0
                &&& frame.sentence is None
                &&& frame.notice is None
            },
        },
{
}

/// The model of a frame has each field of the frame in its place.
pub proof fn law_frame_is_modelled_field_by_field(frame: Frame)
    ensures
        frame@.preedit.len() == frame.preedit@.len(),
        forall|i: int|
            0 <= i < frame.preedit@.len() ==> #[trigger] frame@.preedit[i] == frame.preedit@[i]@,
        frame@.candidates.len() == frame.candidates.items@.len(),
        forall|i: int|
            0 <= i < frame.candidates.items@.len() ==> {
                let shown = #[trigger] frame@.candidates[i];
                let item = frame.candidates.items@[i];
                &&& shown.text == item.text@
                &&& shown.kind == item.kind
                &&& shown.syllables.len() == item.syllables@.len()
                &&& forall|j: int|
                    0 <= j < item.syllables@.len() ==> #[trigger] shown.syllables[j]
                        == item.syllables@[j]@
                &&& shown.reading is Some <==> item.reading is Some
                &&& shown.reading is Some ==> shown.reading->0 == item.reading->0@
                &&& shown.translation is Some <==> item.translation is Some
                &&& shown.translation is Some ==> shown.translation->0 == item.translation->0@
            },
        frame@.cursor == frame.cursor,
        frame@.highlight == frame.highlight,
        frame@.page == frame.page,
        frame@.page_count == frame.page_count,
        frame@.layout == frame.layout,
        frame@.theme == frame.theme,
        frame@.sentence is Some <==> frame.sentence is Some,
        frame@.sentence is Some ==> frame@.sentence->0 == frame.sentence->0@,
        frame@.notice is Some <==> frame.notice is Some,
        frame@.notice is Some ==> frame@.notice->0 == frame.notice->0@,
{
}

/// The model of an answer has each part of the answer in its place.
pub proof fn law_message_is_modelled_part_by_part(message: ServerMessage)
    ensures
        match (message, message@) {
            (
                ServerMessage::KeyResult { session, outcome, commit, frame },
                MessageView::KeyResult { session: to, outcome: what, commit: text, frame: shown },
            ) => {
                &&& to == session
                &&& what == outcome
                &&& text is Some <==> commit is Some
                &&& text is Some ==> text->0 == commit->0@
                &&& shown == frame@
            },
        },
{
}

} // verus!
