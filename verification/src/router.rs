//! Reading translations out: a key combination takes the latest committed
//! sentence, has it translated in the cloud, and hands the translation to the
//! speech thread. Meanwhile the candidate window shows how far that is.
//!
//! The router decides; what it wants done outside is left in order in
//! [`Router::take_effects`] for the shell to perform after each call. Time is
//! given as nanoseconds of a clock that never goes back.

use std::sync::mpsc::Sender;

use vstd::prelude::*;

use crate::frame::{Frame, FrameView, Layout, MessageView, Rect, ServerMessage, SessionId, Theme};
use crate::history::HistoryView;
use crate::key::{KeyCombo, KeyEvent};
use crate::sentence;
use crate::speech::{CommandView, Language, NoticeView, SpeechCommand, SpeechNotice};
use crate::text;
use crate::tts;
use crate::tts::{EventView, StepView};

verus! {

/// How many characters of committed text are kept: enough for a long sentence.
pub const COMMITTED_CAP: usize = 600;

/// How many characters of a sentence are translated, counted from its end.
pub const SENTENCE_CAP: usize = 500;

/// How long a translation may take, in nanoseconds: 12 seconds.
pub const TRANSLATE_TIMEOUT: u128 = 12_000_000_000;

/// How long a notice stays, in nanoseconds: 3 seconds.
pub const NOTICE_TIME: u128 = 3_000_000_000;

/// `std::sync::mpsc::Sender`, the sending end of a channel. It is only kept and
/// handed out; nothing is claimed of it.
#[verifier::external_type_specification]
#[verifier::external_body]
#[verifier::reject_recursive_types(T)]
pub struct ExSender<T>(Sender<T>);

/// The settings that the router reads.
#[derive(Debug, Clone, Copy, PartialEq, Eq, Structural)]
pub struct RouterConfig {
    /// The combination that reads the translation out.
    pub speak_translation: KeyCombo,
    pub layout: Layout,
    pub theme: Theme,
}

/// How far a reading has come.
#[derive(Debug)]
pub enum SpeakPhase {
    /// Waiting for the translation, until the deadline.
    Translating { target: Language, deadline: u128 },
    /// The speech thread has the translation.
    Speaking { text: String },
    /// Only a text is shown, until the deadline.
    Notice { text: String, deadline: u128 },
}

/// Something for the shell to do.
#[derive(Debug)]
pub enum Effect {
    /// Ask the cloud for a translation of this sentence.
    RequestTranslation(String),
    /// Send this to the speech thread.
    Speech(SpeechCommand),
    /// Show this in the candidate window, at this place.
    ShowCandidates { rect: Rect, frame: Frame },
    /// Hide the candidate window.
    HideCandidates,
    /// Drop the request to the cloud that is under way.
    CancelPrediction,
}

/// The part of the input method's router that reads translations out.
pub struct Router {
    config: RouterConfig,
    /// The latest committed text.
    committed: String,
    /// Whether what is typed is private.
    private: bool,
    /// Where text was last composed.
    last_caret: Option<Rect>,
    /// Where the candidate window was last placed.
    last_rect: Option<Rect>,
    speak: Option<SpeakPhase>,
    /// The way to the speech thread, where there is one.
    speech: Option<Sender<SpeechCommand>>,
    effects: Vec<Effect>,
}

#[verifier::ext_equal]
pub enum PhaseView {
    Translating { target: Language, deadline: u128 },
    Speaking { text: Seq<char> },
    Notice { text: Seq<char>, deadline: u128 },
}

#[verifier::ext_equal]
pub enum EffectView {
    RequestTranslation(Seq<char>),
    Speech(CommandView),
    ShowCandidates { rect: Rect, frame: FrameView },
    HideCandidates,
    CancelPrediction,
}

#[verifier::ext_equal]
pub struct RouterView {
    pub config: RouterConfig,
    pub committed: Seq<char>,
    pub private: bool,
    pub last_caret: Option<Rect>,
    pub last_rect: Option<Rect>,
    pub speak: Option<PhaseView>,
    pub speech: Option<Sender<SpeechCommand>>,
    pub effects: Seq<EffectView>,
}

impl View for SpeakPhase {
    type V = PhaseView;

    open spec fn view(&self) -> PhaseView {
        match *self {
            SpeakPhase::Translating { target, deadline } => PhaseView::Translating {
                target,
                deadline,
            },
            SpeakPhase::Speaking { text } => PhaseView::Speaking { text: text@ },
            SpeakPhase::Notice { text, deadline } => PhaseView::Notice { text: text@, deadline },
        }
    }
}

impl View for Effect {
    type V = EffectView;

    open spec fn view(&self) -> EffectView {
        match *self {
            Effect::RequestTranslation(sentence) => EffectView::RequestTranslation(sentence@),
            Effect::Speech(command) => EffectView::Speech(command@),
            Effect::ShowCandidates { rect, frame } => EffectView::ShowCandidates {
                rect,
                frame: frame@,
            },
            Effect::HideCandidates => EffectView::HideCandidates,
            Effect::CancelPrediction => EffectView::CancelPrediction,
        }
    }
}

pub open spec fn effects_view(effects: Seq<Effect>) -> Seq<EffectView> {
    effects.map_values(|e: Effect| e@)
}

impl View for Router {
    type V = RouterView;

    closed spec fn view(&self) -> RouterView {
        RouterView {
            config: self.config,
            committed: self.committed@,
            private: self.private,
            last_caret: self.last_caret,
            last_rect: self.last_rect,
            speak: match self.speak {
                Some(phase) => Some(phase@),
                None => None,
            },
            speech: self.speech,
            effects: effects_view(self.effects@),
        }
    }
}

/// What is shown while the translation is awaited.
pub open spec fn translating_text() -> Seq<char> {
    "正在翻译…"@
}

/// What is shown when nothing was committed yet.
pub open spec fn nothing_committed_text() -> Seq<char> {
    "还没有上屏的内容"@
}

impl RouterView {
    /// The committed text keeps to its capacity, and nothing is being read
    /// without a speech thread.
    pub open spec fn wf(self) -> bool {
        &&& self.committed.len() <= COMMITTED_CAP
        &&& self.speak matches Some(PhaseView::Speaking { .. }) ==> self.speech is Some
    }

    /// A router that has seen nothing yet.
    pub open spec fn initial(config: RouterConfig) -> RouterView {
        RouterView {
            config,
            committed: Seq::empty(),
            private: false,
            last_caret: None,
            last_rect: None,
            speak: None,
            speech: None,
            effects: Seq::empty(),
        }
    }

    pub open spec fn with_effect(self, effect: EffectView) -> RouterView {
        RouterView { effects: self.effects.push(effect), ..self }
    }

    pub open spec fn with_phase(self, phase: Option<PhaseView>) -> RouterView {
        RouterView { speak: phase, ..self }
    }

    /// The window moves to the last composition and shows the frame. Without a
    /// composition there is no place for it and nothing happens.
    pub open spec fn show(self, frame: FrameView) -> RouterView {
        match self.last_caret {
            Some(rect) => RouterView { last_rect: Some(rect), ..self }.with_effect(
                EffectView::ShowCandidates { rect, frame },
            ),
            None => self,
        }
    }

    /// The frame that shows a text in the course of a reading.
    pub open spec fn speak_frame(self, text: Seq<char>) -> FrameView {
        FrameView::single(text, self.config.layout, self.config.theme)
    }

    /// The sound is told to stop, where there is a speech thread.
    pub open spec fn stop_audio(self) -> RouterView {
        if self.speech is Some {
            self.with_effect(EffectView::Speech(CommandView::Stop))
        } else {
            self
        }
    }

    /// A text is shown for a while in place of whatever was going on.
    pub open spec fn notice(self, text: Seq<char>, now: u128) -> RouterView {
        self.with_phase(
            Some(PhaseView::Notice { text, deadline: (now + NOTICE_TIME) as u128 }),
        ).show(self.speak_frame(text))
    }

    /// The sentence to translate: the end of the last one committed.
    pub open spec fn last_committed_sentence(self) -> Option<Seq<char>> {
        match sentence::sentence_of(self.committed) {
            Some(sentence) => Some(text::last_chars(sentence, SENTENCE_CAP as nat)),
            None => None,
        }
    }

    /// A reading begins: it ends the one before, and either asks for the
    /// translation or says that there is nothing to translate.
    pub open spec fn start_speak(self, target: Language, now: u128) -> RouterView {
        let quiet = if self.speak is Some {
            self.stop_audio().with_phase(None)
        } else {
            self
        };
        match self.last_committed_sentence() {
            None => quiet.notice(nothing_committed_text(), now),
            Some(sentence) => quiet.with_effect(
                EffectView::RequestTranslation(sentence),
            ).with_phase(
                Some(
                    PhaseView::Translating {
                        target,
                        deadline: (now + TRANSLATE_TIMEOUT) as u128,
                    },
                ),
            ).show(self.speak_frame(translating_text())),
        }
    }

    /// Text was committed; private text leaves no trace, and empty text is none.
    pub open spec fn note_committed(self, text: Seq<char>) -> RouterView {
        if text.len() == 0 || self.private {
            self
        } else {
            RouterView {
                committed: text::last_chars(self.committed + text, COMMITTED_CAP as nat),
                ..self
            }
        }
    }

    /// The translation came. One that nobody waits for is dropped.
    pub open spec fn begin_speaking(self, text: Seq<char>, now: u128) -> RouterView {
        match self.speak {
            Some(PhaseView::Translating { target, .. }) => if self.speech is Some {
                self.with_effect(
                    EffectView::Speech(CommandView::Speak { text, language: target }),
                ).with_phase(Some(PhaseView::Speaking { text })).show(self.speak_frame(text))
            } else {
                self.notice(text, now)
            },
            _ => self,
        }
    }

    /// The text that the window shows on account of a reading.
    pub open spec fn current_speak_text(self) -> Option<Seq<char>> {
        match self.speak {
            Some(PhaseView::Speaking { text }) => Some(text),
            Some(PhaseView::Notice { text, .. }) => Some(text),
            Some(PhaseView::Translating { .. }) => Some(translating_text()),
            None => None,
        }
    }

    /// The reading ends, with its sound, its request and its window.
    pub open spec fn end_speak(self) -> RouterView {
        match self.speak {
            Some(phase) => {
                let quiet = if phase is Speaking {
                    self.stop_audio()
                } else {
                    self
                };
                quiet.with_phase(None).with_effect(EffectView::CancelPrediction).with_effect(
                    EffectView::HideCandidates,
                )
            },
            None => self,
        }
    }

    /// A receipt came: the window closes, or says why nothing was read. One
    /// that nobody waits for is dropped.
    pub open spec fn handle_speech_notice(self, notice: NoticeView, now: u128) -> RouterView {
        match (self.speak, notice) {
            (None, _) => self,
            (Some(_), NoticeView::Done) => self.with_phase(None).with_effect(
                EffectView::HideCandidates,
            ),
            (Some(_), NoticeView::Failed(message)) => self.notice(message, now),
        }
    }

    /// A receipt came from the thread itself. A `Done` while nothing is being
    /// read is that of a reading already given up, and is dropped.
    pub open spec fn take_receipt(self, notice: NoticeView, now: u128) -> RouterView {
        if notice is Done && !(self.speak matches Some(PhaseView::Speaking { .. })) {
            self
        } else {
            self.handle_speech_notice(notice, now)
        }
    }

    /// Whether the phase has run past its deadline. Reading has none.
    pub open spec fn expired(self, now: u128) -> bool {
        match self.speak {
            Some(PhaseView::Translating { deadline, .. }) => deadline < now,
            Some(PhaseView::Notice { deadline, .. }) => deadline < now,
            _ => false,
        }
    }

    /// A look at the clock ends what has expired.
    pub open spec fn poll_speak_deadline(self, now: u128) -> RouterView {
        if self.expired(now) {
            self.end_speak()
        } else {
            self
        }
    }
}

impl Router {
    /// A router that has seen nothing yet.
    pub fn new(config: RouterConfig) -> (router: Router)
        ensures
            router@ == RouterView::initial(config),
            router@.wf(),
    {
        let router = Router {
            config,
            committed: String::new(),
            private: false,
            last_caret: None,
            last_rect: None,
            speak: None,
            speech: None,
            effects: Vec::new(),
        };
        assert(router@ =~= RouterView::initial(config));
        router
    }

    fn push_effect(&mut self, effect: Effect)
        ensures
            final(self)@ == old(self)@.with_effect(effect@),
    {
        self.effects.push(effect);
        assert(self@ =~= old(self)@.with_effect(effect@));
    }

    /// Hands out what is to be done outside, in order, and forgets it.
    pub fn take_effects(&mut self) -> (effects: Vec<Effect>)
        ensures
            effects_view(effects@) == old(self)@.effects,
            final(self)@ == (RouterView { effects: Seq::empty(), ..old(self)@ }),
    {
        let mut effects: Vec<Effect> = Vec::new();
        std::mem::swap(&mut effects, &mut self.effects);
        assert(self@ =~= (RouterView { effects: Seq::empty(), ..old(self)@ }));
        effects
    }

    /// Says whether what is typed from now on is private.
    pub fn set_private(&mut self, private: bool)
        ensures
            final(self)@ == (RouterView { private, ..old(self)@ }),
    {
        self.private = private;
    }

    /// Says where text is being composed.
    pub fn set_caret(&mut self, rect: Rect)
        ensures
            final(self)@ == (RouterView { last_caret: Some(rect), ..old(self)@ }),
    {
        self.last_caret = Some(rect);
    }

    /// Sets the way to the speech thread.
    pub fn set_speech(&mut self, sender: Sender<SpeechCommand>)
        ensures
            final(self)@ == (RouterView { speech: Some(sender), ..old(self)@ }),
            old(self)@.wf() ==> final(self)@.wf(),
    {
        self.speech = Some(sender);
    }

    /// The way to the speech thread, where there is one.
    pub fn speech(&self) -> (sender: Option<&Sender<SpeechCommand>>)
        ensures
            sender == (match self@.speech {
                Some(sender) => Some(&sender),
                None => None,
            }),
    {
        self.speech.as_ref()
    }

    /// Whether a key press is the combination that reads the translation out.
    pub fn matches_speak_combo(&self, event: &KeyEvent) -> (same: bool)
        ensures
            same == self@.config.speak_translation.spec_matches(*event),
    {
        self.config.speak_translation.matches(event)
    }

    /// Begins to read the translation of the latest committed sentence. `target`
    /// is the language that this sentence is to be translated to; it is not
    /// looked at where there is no sentence.
    pub fn start_speak(&mut self, session: SessionId, target: Language, now: u128) -> (reply:
        ServerMessage)
        requires
            now + TRANSLATE_TIMEOUT <= u128::MAX,
        ensures
            final(self)@ == old(self)@.start_speak(target, now),
            old(self)@.wf() ==> final(self)@.wf(),
            reply@ == MessageView::consumed(session),
    {
        if self.speak.is_some() {
            self.stop_speech_audio();
        }
        self.speak = None;
        match self.last_committed_sentence() {
            None => self.speak_notice(session, "还没有上屏的内容", now),
            Some(sentence) => {
                self.push_effect(Effect::RequestTranslation(sentence));
                self.speak = Some(
                    SpeakPhase::Translating { target, deadline: now + TRANSLATE_TIMEOUT },
                );
                let frame = self.speak_frame("正在翻译…");
                self.show_speak_frame(frame);
                ServerMessage::consumed(session)
            },
        }
    }

    /// The latest committed sentence, cut to its end where it is long.
    pub fn last_committed_sentence(&self) -> (sentence: Option<String>)
        ensures
            sentence is Some <==> self@.last_committed_sentence() is Some,
            sentence is Some ==> Some(sentence->0@) == self@.last_committed_sentence(),
    {
        match sentence::last_sentence(self.committed.as_str()) {
            Some(sentence) => Some(text::tail(sentence, SENTENCE_CAP).to_owned()),
            None => None,
        }
    }

    /// Notes committed text, unless it is private, and drops the oldest
    /// characters beyond the capacity.
    pub fn note_committed(&mut self, text: &str)
        ensures
            final(self)@ == old(self)@.note_committed(text@),
            old(self)@.wf() ==> final(self)@.wf(),
    {
        if text.is_empty() || self.private {
            return;
        }
        text::push_capped(&mut self.committed, text, COMMITTED_CAP);
    }

    /// Takes the translation: it goes to the speech thread and into the window.
    /// Without a speech thread it is only shown.
    pub fn begin_speaking(&mut self, text: String, now: u128)
        requires
            now + NOTICE_TIME <= u128::MAX,
        ensures
            final(self)@ == old(self)@.begin_speaking(text@, now),
            old(self)@.wf() ==> final(self)@.wf(),
    {
        let target = match &self.speak {
            Some(SpeakPhase::Translating { target, .. }) => *target,
            _ => {
                return;
            },
        };
        if self.speech.is_some() {
            let frame = self.speak_frame(text.as_str());
            self.push_effect(
                Effect::Speech(SpeechCommand::Speak { text: text.clone(), language: target }),
            );
            self.speak = Some(SpeakPhase::Speaking { text });
            self.show_speak_frame(frame);
        } else {
            self.speak_notice_in_place(text, now);
        }
    }

    /// Answers a key press by showing a text for a while.
    pub fn speak_notice(&mut self, session: SessionId, text: &str, now: u128) -> (reply:
        ServerMessage)
        requires
            now + NOTICE_TIME <= u128::MAX,
        ensures
            final(self)@ == old(self)@.notice(text@, now),
            old(self)@.wf() ==> final(self)@.wf(),
            reply@ == MessageView::consumed(session),
    {
        self.speak_notice_in_place(text.to_owned(), now);
        ServerMessage::consumed(session)
    }

    /// Shows a text for a while in place of whatever was going on.
    pub fn speak_notice_in_place(&mut self, text: String, now: u128)
        requires
            now + NOTICE_TIME <= u128::MAX,
        ensures
            final(self)@ == old(self)@.notice(text@, now),
            old(self)@.wf() ==> final(self)@.wf(),
    {
        let frame = self.speak_frame(text.as_str());
        self.speak = Some(SpeakPhase::Notice { text, deadline: now + NOTICE_TIME });
        self.show_speak_frame(frame);
    }

    /// How far the reading has come, if there is one.
    pub fn phase(&self) -> (phase: Option<&SpeakPhase>)
        ensures
            phase is Some <==> self@.speak is Some,
            phase is Some ==> Some(phase->0@) == self@.speak,
    {
        self.speak.as_ref()
    }

    /// The text that the window shows on account of a reading, if there is one.
    pub fn current_speak_text(&self) -> (text: Option<String>)
        ensures
            text is Some <==> self@.current_speak_text() is Some,
            text is Some ==> Some(text->0@) == self@.current_speak_text(),
    {
        match &self.speak {
            Some(SpeakPhase::Speaking { text }) => Some(text.clone()),
            Some(SpeakPhase::Notice { text, .. }) => Some(text.clone()),
            Some(SpeakPhase::Translating { .. }) => Some("正在翻译…".to_owned()),
            None => None,
        }
    }

    /// The frame that shows a text in the course of a reading.
    pub fn speak_frame(&self, text: &str) -> (frame: Frame)
        ensures
            frame@ == self@.speak_frame(text@),
    {
        Frame::single(text, self.config.layout, self.config.theme)
    }

    /// Shows a frame where text was last composed.
    fn show_speak_frame(&mut self, frame: Frame)
        ensures
            final(self)@ == old(self)@.show(frame@),
    {
        if let Some(rect) = self.last_caret {
            self.last_rect = Some(rect);
            self.push_effect(Effect::ShowCandidates { rect, frame });
        }
    }

    /// Ends the reading: another key was pressed.
    pub fn end_speak(&mut self)
        ensures
            final(self)@ == old(self)@.end_speak(),
            old(self)@.wf() ==> final(self)@.wf(),
    {
        if let Some(phase) = self.speak.take() {
            if let SpeakPhase::Speaking { .. } = phase {
                self.stop_speech_audio();
            }
            self.push_effect(Effect::CancelPrediction);
            self.push_effect(Effect::HideCandidates);
        }
    }

    /// Takes a receipt as one for the reading that is going on, in whatever
    /// phase that is. A receipt does not say which text it is for, and every
    /// reading that is stopped gets a `Done`, which comes as a rule while the
    /// next text is being translated: what the speech thread sends goes through
    /// [`Router::take_receipt`].
    pub fn handle_speech_notice(&mut self, notice: SpeechNotice, now: u128)
        requires
            now + NOTICE_TIME <= u128::MAX,
        ensures
            final(self)@ == old(self)@.handle_speech_notice(notice@, now),
            old(self)@.wf() ==> final(self)@.wf(),
    {
        match notice {
            SpeechNotice::Done => {
                if self.speak.take().is_some() {
                    self.push_effect(Effect::HideCandidates);
                }
            },
            SpeechNotice::Failed(message) => {
                if self.speak.is_some() {
                    self.speak_notice_in_place(message, now);
                }
            },
        }
    }

    /// Takes what the speech thread sends. A `Done` counts only while a text is
    /// being read: otherwise it is for a reading that was stopped, and must not
    /// close the one that has begun since. An old `Done` that is still under way
    /// when the new text is handed over cannot be told from one for that text.
    pub fn take_receipt(&mut self, notice: SpeechNotice, now: u128)
        requires
            now + NOTICE_TIME <= u128::MAX,
        ensures
            final(self)@ == old(self)@.take_receipt(notice@, now),
            old(self)@.wf() ==> final(self)@.wf(),
    {
        let reading = match &self.speak {
            Some(SpeakPhase::Speaking { .. }) => true,
            _ => false,
        };
        let done = match &notice {
            SpeechNotice::Done => true,
            SpeechNotice::Failed(_) => false,
        };
        if !done || reading {
            self.handle_speech_notice(notice, now);
        }
    }

    /// Tells the speech thread to stop, where there is one.
    fn stop_speech_audio(&mut self)
        ensures
            final(self)@ == old(self)@.stop_audio(),
    {
        if self.speech.is_some() {
            self.push_effect(Effect::Speech(SpeechCommand::Stop));
        }
    }

    /// Ends what has run past its deadline.
    pub fn poll_speak_deadline(&mut self, now: u128)
        ensures
            final(self)@ == old(self)@.poll_speak_deadline(now),
            old(self)@.wf() ==> final(self)@.wf(),
    {
        let expired = match &self.speak {
            Some(SpeakPhase::Translating { deadline, .. }) => *deadline < now,
            Some(SpeakPhase::Notice { deadline, .. }) => *deadline < now,
            Some(SpeakPhase::Speaking { .. }) => false,
            None => false,
        };
        if expired {
            self.end_speak();
        }
    }
}

/// A reading from beginning to end: the sentence goes out to be translated, the
/// translation goes to the speech thread in the language asked for and into the
/// window, and the receipt closes the window.
pub proof fn law_reading_runs_through(
    router: RouterView,
    target: Language,
    text: Seq<char>,
    started: u128,
    translated: u128,
    finished: u128,
)
    requires
        router.last_committed_sentence() is Some,
        router.speech is Some,
    ensures
        ({
            let waiting = router.start_speak(target, started);
            let reading = waiting.begin_speaking(text, translated);
            let done = reading.take_receipt(NoticeView::Done, finished);
            &&& waiting.effects.contains(
                EffectView::RequestTranslation(router.last_committed_sentence()->0),
            )
            &&& waiting.current_speak_text() == Some(translating_text())
            &&& reading.effects[waiting.effects.len() as int] == EffectView::Speech(
                CommandView::Speak { text, language: target },
            )
            &&& reading.current_speak_text() == Some(text)
            &&& done.speak is None
            &&& done.effects == reading.effects.push(EffectView::HideCandidates)
        }),
{
    let asked = EffectView::RequestTranslation(router.last_committed_sentence()->0);
    let quiet = if router.speak is Some {
        router.stop_audio().with_phase(None)
    } else {
        router
    };
    let waiting = router.start_speak(target, started);
    assert(waiting.effects[quiet.effects.len() as int] == asked);
}

/// With nothing committed nothing goes out to be translated: a notice says so,
/// and it is gone after its time.
pub proof fn law_nothing_committed_is_said(router: RouterView, target: Language, now: u128)
    requires
        router.last_committed_sentence() is None,
        now + NOTICE_TIME <= u128::MAX,
    ensures
        ({
            let told = router.start_speak(target, now);
            &&& told.current_speak_text() == Some(nothing_committed_text())
            &&& forall|sentence: Seq<char>|
                told.effects.contains(EffectView::RequestTranslation(sentence))
                    ==> router.effects.contains(EffectView::RequestTranslation(sentence))
            &&& forall|later: u128|
                told.poll_speak_deadline(later).speak is None <==> later > now + NOTICE_TIME
        }),
{
    let told = router.start_speak(target, now);
    assert forall|sentence: Seq<char>|
        told.effects.contains(EffectView::RequestTranslation(sentence)) implies
        router.effects.contains(EffectView::RequestTranslation(sentence)) by {
        let i = choose|i: int|
            0 <= i < told.effects.len() && told.effects[i] == EffectView::RequestTranslation(
                sentence,
            );
        assert(i < router.effects.len());
        assert(router.effects[i] == told.effects[i]);
    }
}

/// A notice stands its time, and no longer.
pub proof fn law_notice_stands_its_time(
    router: RouterView,
    text: Seq<char>,
    now: u128,
    later: u128,
)
    requires
        now + NOTICE_TIME <= u128::MAX,
    ensures
        later <= now + NOTICE_TIME ==> router.notice(text, now).poll_speak_deadline(
            later,
        ).current_speak_text() == Some(text),
        later > now + NOTICE_TIME ==> router.notice(text, now).poll_speak_deadline(
            later,
        ).speak is None,
{
}

/// What the clock does to a phase depends on the phase alone: committed text,
/// the caret, the speech thread and the effects do not matter.
pub proof fn law_only_the_phase_expires(a: RouterView, b: RouterView, now: u128)
    requires
        a.speak == b.speak,
    ensures
        a.poll_speak_deadline(now).speak == b.poll_speak_deadline(now).speak,
        a.poll_speak_deadline(now).current_speak_text() == b.poll_speak_deadline(
            now,
        ).current_speak_text(),
{
}

/// A translation that does not come in time is given up, and not before.
pub proof fn law_translation_is_given_up_in_time(
    router: RouterView,
    target: Language,
    now: u128,
    later: u128,
)
    requires
        router.last_committed_sentence() is Some,
        now + TRANSLATE_TIMEOUT <= u128::MAX,
    ensures
        ({
            let waiting = router.start_speak(target, now);
            &&& later <= now + TRANSLATE_TIMEOUT ==> waiting.poll_speak_deadline(later) == waiting
            &&& later > now + TRANSLATE_TIMEOUT ==> waiting.poll_speak_deadline(later)
                == waiting.end_speak()
        }),
{
}

/// A reading is never cut short by the clock.
pub proof fn law_reading_does_not_expire(router: RouterView, now: u128)
    requires
        router.speak matches Some(PhaseView::Speaking { .. }),
    ensures
        router.poll_speak_deadline(now) == router,
{
}

/// When nothing is going on, translations, receipts, other keys and the clock
/// change nothing: what comes too late is dropped.
pub proof fn law_late_arrivals_are_dropped(
    router: RouterView,
    text: Seq<char>,
    notice: NoticeView,
    now: u128,
)
    requires
        router.speak is None,
    ensures
        router.begin_speaking(text, now) == router,
        router.handle_speech_notice(notice, now) == router,
        router.take_receipt(notice, now) == router,
        router.end_speak() == router,
        router.poll_speak_deadline(now) == router,
        router.current_speak_text() is None,
{
}

/// A translation counts once: a second one changes nothing.
pub proof fn law_translation_counts_once(
    router: RouterView,
    first: Seq<char>,
    second: Seq<char>,
    now: u128,
    later: u128,
)
    ensures
        router.begin_speaking(first, now).begin_speaking(second, later) == router.begin_speaking(
            first,
            now,
        ),
{
}

/// Ending leaves nothing going on, hides the window and drops the request, and
/// stops the sound exactly when something was being read.
pub proof fn law_ending_ends_everything(router: RouterView)
    requires
        router.wf(),
        router.speak is Some,
    ensures
        router.end_speak().speak is None,
        router.end_speak().effects == router.effects + if router.speak->0 is Speaking {
            seq![
                EffectView::Speech(CommandView::Stop),
                EffectView::CancelPrediction,
                EffectView::HideCandidates,
            ]
        } else {
            seq![EffectView::CancelPrediction, EffectView::HideCandidates]
        },
{
}

/// Ending twice is ending once.
pub proof fn law_ending_is_idempotent(router: RouterView)
    ensures
        router.end_speak().end_speak() == router.end_speak(),
{
}

/// A new reading silences the one before: the first thing that goes out is the
/// order to stop.
pub proof fn law_new_reading_silences_the_old(router: RouterView, target: Language, now: u128)
    requires
        router.speak is Some,
        router.speech is Some,
    ensures
        router.effects.len() < router.start_speak(target, now).effects.len(),
        router.start_speak(target, now).effects[router.effects.len() as int]
            == EffectView::Speech(CommandView::Stop),
{
}

/// The receipt of a reading that a new one has stopped leaves the new one alone:
/// its translation is still awaited, and is sent to be read when it comes.
pub proof fn law_old_receipt_leaves_the_new_reading_alone(
    router: RouterView,
    target: Language,
    text: Seq<char>,
    started: u128,
    received: u128,
    translated: u128,
)
    requires
        router.last_committed_sentence() is Some,
        router.speech is Some,
    ensures
        ({
            let waiting = router.start_speak(target, started);
            let still_waiting = waiting.take_receipt(NoticeView::Done, received);
            let reading = still_waiting.begin_speaking(text, translated);
            &&& still_waiting == waiting
            &&& reading.speak == Some(PhaseView::Speaking { text })
            &&& reading.effects[waiting.effects.len() as int] == EffectView::Speech(
                CommandView::Speak { text, language: target },
            )
        }),
{
}

/// Pressing the combination while a text is read, seen from both sides: the
/// order to stop ends the reading in the speech thread, whose receipt leaves the
/// router waiting; the new translation goes to the thread, which is ready for
/// it, and the receipt for it closes the window.
pub proof fn law_second_press_is_read_out(
    router: RouterView,
    target: Language,
    text: Seq<char>,
    millis: u64,
    started: u128,
    received: u128,
    translated: u128,
    finished: u128,
)
    requires
        router.wf(),
        router.speak matches Some(PhaseView::Speaking { .. }),
        router.last_committed_sentence() is Some,
    ensures
        ({
            let stop = CommandView::Stop;
            let speak = CommandView::Speak { text, language: target };
            let waiting = router.start_speak(target, started);
            let stopping = tts::stop_events(0).push(EventView::TimedOut);
            let reported = tts::steps_after(StepView::Poll { millis }, stopping);
            let reading = waiting.take_receipt(NoticeView::Done, received).begin_speaking(
                text,
                translated,
            );
            let ready = reported.next(EventView::Performed);
            &&& waiting.effects[router.effects.len() as int] == EffectView::Speech(stop)
            &&& stopping[0] == EventView::Polled(stop)
            &&& tts::answers(StepView::Poll { millis }, stopping)
            &&& reported == StepView::Report(NoticeView::Done)
            &&& reading.effects[waiting.effects.len() as int] == EffectView::Speech(speak)
            &&& reading.current_speak_text() == Some(text)
            &&& ready == StepView::Await
            &&& ready.next(EventView::Received(Some(speak))) == (StepView::SelectVoice {
                text,
                language: target,
            })
            &&& reading.take_receipt(NoticeView::Done, finished).speak is None
        }),
{
    law_new_reading_silences_the_old(router, target, started);
    law_old_receipt_leaves_the_new_reading_alone(
        router,
        target,
        text,
        started,
        received,
        translated,
    );
    tts::law_stopped_reading_is_done(millis, 0);
}

/// While a text is read, every receipt is for it.
pub proof fn law_receipts_count_while_reading(router: RouterView, notice: NoticeView, now: u128)
    requires
        router.speak matches Some(PhaseView::Speaking { .. }),
    ensures
        router.take_receipt(notice, now) == router.handle_speech_notice(notice, now),
        router.take_receipt(NoticeView::Done, now).speak is None,
{
}

/// Whenever text was composed somewhere, the window shows there, last of all,
/// the text of the phase that was just entered.
pub proof fn law_window_shows_the_phase(
    router: RouterView,
    target: Language,
    text: Seq<char>,
    now: u128,
)
    requires
        router.last_caret is Some,
    ensures
        shows_its_phase(router.start_speak(target, now)),
        shows_its_phase(router.notice(text, now)),
        (router.speak matches Some(PhaseView::Translating { .. })) ==> shows_its_phase(
            router.begin_speaking(text, now),
        ),
        router.speak is Some ==> shows_its_phase(
            router.handle_speech_notice(NoticeView::Failed(text), now),
        ),
{
}

/// Whether the last effect shows the text of the phase at the place of the last
/// composition.
pub open spec fn shows_its_phase(router: RouterView) -> bool {
    &&& router.current_speak_text() is Some
    &&& router.last_caret is Some
    &&& router.last_rect == router.last_caret
    &&& router.effects.len() > 0
    &&& router.effects.last() == EffectView::ShowCandidates {
        rect: router.last_caret->0,
        frame: router.speak_frame(router.current_speak_text()->0),
    }
}

/// Whether `after` differs from `before` only in the phase, the place of the
/// window and further effects, and commands nobody to speak where there is
/// nobody to command.
pub open spec fn only_speaks(before: RouterView, after: RouterView) -> bool {
    &&& after == RouterView {
        speak: after.speak,
        last_rect: after.last_rect,
        effects: after.effects,
        ..before
    }
    &&& before.effects.is_prefix_of(after.effects)
    &&& before.speech is None ==> forall|i: int|
        before.effects.len() <= i < after.effects.len() ==> !(#[trigger] after.effects[i] is Speech)
}

/// No part of a reading touches the committed text or the settings, takes back
/// an effect, or commands a speech thread that is not there.
pub proof fn law_reading_only_speaks(
    router: RouterView,
    target: Language,
    text: Seq<char>,
    notice: NoticeView,
    now: u128,
)
    ensures
        only_speaks(router, router.start_speak(target, now)),
        only_speaks(router, router.begin_speaking(text, now)),
        only_speaks(router, router.notice(text, now)),
        only_speaks(router, router.end_speak()),
        only_speaks(router, router.handle_speech_notice(notice, now)),
        only_speaks(router, router.take_receipt(notice, now)),
        only_speaks(router, router.poll_speak_deadline(now)),
{
}

/// Private text leaves no trace.
pub proof fn law_private_text_is_not_noted(router: RouterView, text: Seq<char>)
    requires
        router.private,
    ensures
        router.note_committed(text) == router,
{
}

/// Other text is noted as a history of that capacity would record it.
pub proof fn law_committed_text_is_a_history(router: RouterView, text: Seq<char>)
    requires
        !router.private,
    ensures
        (HistoryView {
            text: router.committed,
            capacity: COMMITTED_CAP as nat,
        }).record(text).text == router.note_committed(text).committed,
{
}

/// The sentence that is translated is never empty, keeps to its limit, and ends
/// the last sentence that was committed.
pub proof fn law_translated_sentence_is_bounded(router: RouterView)
    requires
        router.last_committed_sentence() is Some,
    ensures
        0 < router.last_committed_sentence()->0.len() <= SENTENCE_CAP,
        router.last_committed_sentence()->0.is_suffix_of(
            sentence::sentence_of(router.committed)->0,
        ),
{
    sentence::law_last_sentence_splits_text(router.committed);
}

/// A press with something to translate sends out, in order: the order to stop,
/// where a reading was going on and there is a thread to stop it; the sentence; and
/// the waiting text, at the caret, where there is one. The translation is awaited
/// for 12 seconds in the language given. Nothing else changes.
pub proof fn law_press_asks_for_the_translation(router: RouterView, target: Language, now: u128)
    requires
        router.last_committed_sentence() is Some,
        now + 12_000_000_000 <= u128::MAX,
    ensures
        ({
            let after = router.start_speak(target, now);
            let stop = if router.speak is Some && router.speech is Some {
                seq![EffectView::Speech(CommandView::Stop)]
            } else {
                Seq::empty()
            };
            let ask = seq![EffectView::RequestTranslation(router.last_committed_sentence()->0)];
            let show = if router.last_caret is Some {
                seq![
                    EffectView::ShowCandidates {
                        rect: router.last_caret->0,
                        frame: FrameView::single(
                            "正在翻译…"@,
                            router.config.layout,
                            router.config.theme,
                        ),
                    },
                ]
            } else {
                Seq::empty()
            };
            &&& after.effects == router.effects + stop + ask + show
            &&& after.speak matches Some(PhaseView::Translating { target: to, deadline })
            &&& to == target
            &&& deadline == now + 12_000_000_000
            &&& router.last_caret is Some ==> after.last_rect == router.last_caret
            &&& router.last_caret is None ==> after.last_rect == router.last_rect
            &&& after.config == router.config
            &&& after.committed == router.committed
            &&& after.private == router.private
            &&& after.last_caret == router.last_caret
            &&& after.speech == router.speech
        }),
{
}

/// A press with nothing to translate stops what was going on in the same way,
/// asks for nothing, and says for 3 seconds that nothing was committed.
pub proof fn law_press_without_a_sentence_says_so(router: RouterView, target: Language, now: u128)
    requires
        router.last_committed_sentence() is None,
        now + 3_000_000_000 <= u128::MAX,
    ensures
        ({
            let after = router.start_speak(target, now);
            let stop = if router.speak is Some && router.speech is Some {
                seq![EffectView::Speech(CommandView::Stop)]
            } else {
                Seq::empty()
            };
            let show = if router.last_caret is Some {
                seq![
                    EffectView::ShowCandidates {
                        rect: router.last_caret->0,
                        frame: FrameView::single(
                            "还没有上屏的内容"@,
                            router.config.layout,
                            router.config.theme,
                        ),
                    },
                ]
            } else {
                Seq::empty()
            };
            &&& after.effects == router.effects + stop + show
            &&& after.speak matches Some(PhaseView::Notice { text, deadline })
            &&& text == "还没有上屏的内容"@
            &&& deadline == now + 3_000_000_000
            &&& router.last_caret is Some ==> after.last_rect == router.last_caret
            &&& router.last_caret is None ==> after.last_rect == router.last_rect
            &&& after.config == router.config
            &&& after.committed == router.committed
            &&& after.private == router.private
            &&& after.last_caret == router.last_caret
            &&& after.speech == router.speech
        }),
{
}

/// A translation that is awaited, with a thread to read it, makes for exactly
/// one command, to read it in the language that was asked for, and then for its
/// being shown at the caret, where there is one. In particular nothing stops it.
pub proof fn law_awaited_translation_is_only_read_and_shown(
    router: RouterView,
    text: Seq<char>,
    now: u128,
)
    requires
        router.speak matches Some(PhaseView::Translating { .. }),
        router.speech is Some,
    ensures
        ({
            let after = router.begin_speaking(text, now);
            let read = seq![
                EffectView::Speech(
                    CommandView::Speak { text, language: router.speak->0->Translating_target },
                ),
            ];
            let show = if router.last_caret is Some {
                seq![
                    EffectView::ShowCandidates {
                        rect: router.last_caret->0,
                        frame: FrameView::single(text, router.config.layout, router.config.theme),
                    },
                ]
            } else {
                Seq::empty()
            };
            &&& after.effects == router.effects + read + show
            &&& after.speak matches Some(PhaseView::Speaking { text: reading })
            &&& reading == text
            &&& router.last_caret is Some ==> after.last_rect == router.last_caret
            &&& router.last_caret is None ==> after.last_rect == router.last_rect
            &&& after.config == router.config
            &&& after.committed == router.committed
            &&& after.private == router.private
            &&& after.last_caret == router.last_caret
            &&& after.speech == router.speech
        }),
{
}

/// Without a thread to read it an awaited translation is a notice like any
/// other; one that is not awaited changes nothing.
pub proof fn law_translation_without_a_reader_is_shown(
    router: RouterView,
    text: Seq<char>,
    now: u128,
)
    ensures
        (router.speak matches Some(PhaseView::Translating { .. })) && router.speech is None
            ==> router.begin_speaking(text, now) == router.notice(text, now),
        !(router.speak matches Some(PhaseView::Translating { .. })) ==> router.begin_speaking(
            text,
            now,
        ) == router,
{
}

/// A notice takes the place of whatever was going on for 3 seconds, and is shown
/// at the caret, where there is one. It makes no sound and nothing else changes.
pub proof fn law_notice_is_only_shown(router: RouterView, text: Seq<char>, now: u128)
    requires
        now + 3_000_000_000 <= u128::MAX,
    ensures
        ({
            let after = router.notice(text, now);
            let show = if router.last_caret is Some {
                seq![
                    EffectView::ShowCandidates {
                        rect: router.last_caret->0,
                        frame: FrameView::single(text, router.config.layout, router.config.theme),
                    },
                ]
            } else {
                Seq::empty()
            };
            &&& after.effects == router.effects + show
            &&& after.speak matches Some(PhaseView::Notice { text: said, deadline })
            &&& said == text
            &&& deadline == now + 3_000_000_000
            &&& router.last_caret is Some ==> after.last_rect == router.last_caret
            &&& router.last_caret is None ==> after.last_rect == router.last_rect
            &&& after.config == router.config
            &&& after.committed == router.committed
            &&& after.private == router.private
            &&& after.last_caret == router.last_caret
            &&& after.speech == router.speech
        }),
{
}

/// Ending what is going on sends out, in order: the order to stop, where a text
/// was being read and there is a thread; the order to drop the request; and the
/// order to hide the window. Nothing is going on then, and nothing else changes.
pub proof fn law_ending_stops_drops_and_hides(router: RouterView)
    requires
        router.speak is Some,
    ensures
        ({
            let after = router.end_speak();
            let stop = if (router.speak matches Some(PhaseView::Speaking { .. })) && router.speech
                is Some {
                seq![EffectView::Speech(CommandView::Stop)]
            } else {
                Seq::empty()
            };
            &&& after.effects == router.effects + stop + seq![
                EffectView::CancelPrediction,
                EffectView::HideCandidates,
            ]
            &&& after.speak is None
            &&& after.last_rect == router.last_rect
            &&& after.config == router.config
            &&& after.committed == router.committed
            &&& after.private == router.private
            &&& after.last_caret == router.last_caret
            &&& after.speech == router.speech
        }),
{
}

/// Past its deadline, a notice as well as an awaited translation is ended in
/// full, whatever was committed: the request is dropped and, last of all, the
/// window is hidden. Up to its deadline nothing happens, and never to a reading.
pub proof fn law_expiry_hides_the_window(router: RouterView, now: u128)
    ensures
        ({
            let after = router.poll_speak_deadline(now);
            let late = match router.speak {
                Some(PhaseView::Translating { target, deadline }) => now > deadline,
                Some(PhaseView::Notice { text, deadline }) => now > deadline,
                Some(PhaseView::Speaking { text }) => false,
                None => false,
            };
            &&& !late ==> after == router
            &&& late ==> {
                &&& after.effects == router.effects + seq![
                    EffectView::CancelPrediction,
                    EffectView::HideCandidates,
                ]
                &&& after.speak is None
                &&& after.last_rect == router.last_rect
                &&& after.config == router.config
                &&& after.committed == router.committed
                &&& after.private == router.private
                &&& after.last_caret == router.last_caret
                &&& after.speech == router.speech
            }
        }),
{
}

/// A receipt for what is going on: `Done` ends it by hiding the window and does
/// nothing more; a failure shows its own words as a notice.
pub proof fn law_receipt_hides_or_explains(router: RouterView, message: Seq<char>, now: u128)
    requires
        router.speak is Some,
    ensures
        ({
            let done = router.handle_speech_notice(NoticeView::Done, now);
            &&& done.effects == router.effects + seq![EffectView::HideCandidates]
            &&& done.speak is None
            &&& done.last_rect == router.last_rect
            &&& done.config == router.config
            &&& done.committed == router.committed
            &&& done.private == router.private
            &&& done.last_caret == router.last_caret
            &&& done.speech == router.speech
        }),
        router.handle_speech_notice(NoticeView::Failed(message), now) == router.notice(
            message,
            now,
        ),
{
}

/// What the thread sends is a receipt for what is going on, but for a `Done`
/// while no text is being read, which changes nothing.
pub proof fn law_receipts_are_told_apart(router: RouterView, message: Seq<char>, now: u128)
    ensures
        router.take_receipt(NoticeView::Failed(message), now) == router.handle_speech_notice(
            NoticeView::Failed(message),
            now,
        ),
        match router.speak {
            Some(PhaseView::Speaking { text }) => router.take_receipt(NoticeView::Done, now)
                == router.handle_speech_notice(NoticeView::Done, now),
            _ => router.take_receipt(NoticeView::Done, now) == router,
        },
{
}

/// What is shown is the text of a reading or of a notice, and the waiting text
/// while a translation is awaited; when nothing is going on, nothing.
pub proof fn law_shown_text_is_that_of_the_phase(router: RouterView)
    ensures
        match router.speak {
            Some(PhaseView::Speaking { text }) => router.current_speak_text() == Some(text),
            Some(PhaseView::Notice { text, deadline }) => router.current_speak_text() == Some(text),
            Some(PhaseView::Translating { target, deadline }) => router.current_speak_text()
                == Some("正在翻译…"@),
            None => router.current_speak_text() is None,
        },
        forall|text: Seq<char>| #[trigger]
            router.speak_frame(text) == FrameView::single(
                text,
                router.config.layout,
                router.config.theme,
            ),
{
}

/// Of what was committed and the new text, put end to end, the last 600
/// characters are kept; private text changes nothing. Nothing else ever changes.
pub proof fn law_commit_keeps_the_last_600_characters(router: RouterView, text: Seq<char>)
    requires
        router.committed.len() <= 600,
    ensures
        ({
            let after = router.note_committed(text);
            let all = router.committed + text;
            &&& router.private ==> after.committed == router.committed
            &&& !router.private ==> {
                &&& all.len() <= 600 ==> after.committed.len() == all.len()
                &&& all.len() > 600 ==> after.committed.len() == 600
                &&& forall|i: int|
                    0 <= i < after.committed.len() ==> #[trigger] after.committed[i]
                        == all[all.len() - after.committed.len() + i]
            }
            &&& after.effects == router.effects
            &&& after.speak == router.speak
            &&& after.last_rect == router.last_rect
            &&& after.config == router.config
            &&& after.private == router.private
            &&& after.last_caret == router.last_caret
            &&& after.speech == router.speech
        }),
{
}

/// There is a sentence to translate exactly when the committed text has a last
/// one, and it is the last 500 characters of that, or all of it.
pub proof fn law_translated_sentence_is_the_end_of_the_last(router: RouterView)
    ensures
        router.last_committed_sentence() is Some <==> sentence::sentence_of(router.committed)
            is Some,
        router.last_committed_sentence() is Some ==> {
            let whole = sentence::sentence_of(router.committed)->0;
            let cut = router.last_committed_sentence()->0;
            &&& whole.len() <= 500 ==> cut.len() == whole.len()
            &&& whole.len() > 500 ==> cut.len() == 500
            &&& forall|i: int|
                0 <= i < cut.len() ==> #[trigger] cut[i] == whole[whole.len() - cut.len() + i]
        },
{
}

/// A router begins with its settings and nothing else, in order.
pub proof fn law_router_begins_idle(config: RouterConfig)
    ensures
        ({
            let router = RouterView::initial(config);
            &&& router.config == config
            &&& router.committed.len() == 0
            &&& !router.private
            &&& router.last_caret is None
            &&& router.last_rect is None
            &&& router.speak is None
            &&& router.speech is None
            &&& router.effects.len() == 0
        }),
{
}

/// A router is in order while it keeps at most 600 characters and reads nothing
/// without a thread to read it.
pub proof fn law_order_is_bounded_text_and_a_reader(router: RouterView)
    ensures
        router.wf() <==> router.committed.len() <= 600 && ((router.speak matches Some(
            PhaseView::Speaking { .. },
        )) ==> router.speech is Some),
{
}

/// The effects are modelled one by one, in their order, each of the same kind
/// and with what it holds; so are the phases.
pub proof fn law_effects_are_modelled_one_by_one(effects: Seq<Effect>, phase: SpeakPhase)
    ensures
        effects_view(effects).len() == effects.len(),
        forall|i: int|
            0 <= i < effects.len() ==> match effects[i] {
                Effect::RequestTranslation(sentence) => #[trigger] effects_view(effects)[i]
                    == EffectView::RequestTranslation(sentence@),
                Effect::Speech(command) => effects_view(effects)[i] == EffectView::Speech(command@),
                Effect::ShowCandidates { rect, frame } => effects_view(effects)[i] == (
                EffectView::ShowCandidates { rect, frame: frame@ }),
                Effect::HideCandidates => effects_view(effects)[i] == EffectView::HideCandidates,
                Effect::CancelPrediction => effects_view(effects)[i]
                    == EffectView::CancelPrediction,
            },
        match phase {
            SpeakPhase::Translating { target, deadline } => phase@ == (PhaseView::Translating {
                target,
                deadline,
            }),
            SpeakPhase::Speaking { text } => phase@ == (PhaseView::Speaking { text: text@ }),
            SpeakPhase::Notice { text, deadline } => phase@ == (PhaseView::Notice {
                text: text@,
                deadline,
            }),
        },
{
}

} // verus!
