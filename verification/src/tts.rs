//! The speech thread: a loop that takes commands, reads texts out and reports
//! how that went. The thread performs one step at a time and `advance` says,
//! from how it went, which step is next.

use vstd::prelude::*;

use crate::speech::{CommandView, Language, NoticeView, SpeechCommand, SpeechNotice};

verus! {

/// How long the thread waits for a command, while it reads, before it looks
/// whether the reading is over.
pub const POLL_MILLIS: u64 = 100;

/// The constant `SPF_ASYNC` of the `windows` crate, which makes a call return
/// while it is still speaking: 1.
#[verifier::external_body]
fn spf_async() -> (flag: u32)
    ensures
        flag == 1,
{
    windows::Win32::Media::Speech::SPF_ASYNC.0 as u32
}

/// The constant `SPF_PURGEBEFORESPEAK` of the `windows` crate, which drops what
/// is still to be spoken: 2.
#[verifier::external_body]
fn spf_purge_before_speak() -> (flag: u32)
    ensures
        flag == 2,
{
    windows::Win32::Media::Speech::SPF_PURGEBEFORESPEAK.0 as u32
}

/// The constant `SPRS_IS_SPEAKING` of the `windows` crate, the bit of a running
/// state that is set while a voice speaks: 2.
#[verifier::external_body]
fn sprs_is_speaking() -> (bit: u32)
    ensures
        bit == 2,
{
    windows::Win32::Media::Speech::SPRS_IS_SPEAKING.0 as u32
}

/// The flags of a reading: return at once, and drop what was being read.
pub open spec fn reading_flags() -> u32 {
    3
}

/// The flags that end a reading: drop what was being read.
pub open spec fn purging_flags() -> u32 {
    2
}

/// Whether a voice in this running state is speaking.
pub open spec fn is_speaking(state: u32) -> bool {
    state & 2 != 0
}

/// What the thread does next.
#[derive(Debug)]
pub enum SpeechStep {
    /// Wait for a command.
    Await,
    /// Look for a voice of the language.
    SelectVoice { text: String, language: Language },
    /// Start to read with these flags.
    Start { text: String, flags: u32 },
    /// Wait for a command for so many milliseconds.
    Poll { millis: u64 },
    /// Ask the voice for its running state.
    Query,
    /// Speak the empty text with these flags, which ends the reading on account
    /// of `next`.
    Interrupt { flags: u32, next: SpeechCommand },
    /// See, without waiting, whether a command has come after the one to stop.
    Settle,
    /// Send a receipt.
    Report(SpeechNotice),
    /// End the thread.
    Exit,
}

/// How a step went; a failure carries the system's own words.
#[derive(Debug)]
pub enum SpeechEvent {
    /// A command came, or none will ever come.
    Received(Option<SpeechCommand>),
    /// The search for a voice is over.
    VoiceSelected(Result<(), String>),
    /// The reading started, or did not.
    Started(Result<(), String>),
    /// A command came in the time given.
    Polled(SpeechCommand),
    /// No command came in the time given.
    TimedOut,
    /// No command will ever come.
    Disconnected,
    /// The running state of the voice.
    Status(Result<u32, String>),
    /// The step is done; there is nothing to tell.
    Performed,
}

#[verifier::ext_equal]
pub enum StepView {
    Await,
    SelectVoice { text: Seq<char>, language: Language },
    Start { text: Seq<char>, flags: u32 },
    Poll { millis: u64 },
    Query,
    Interrupt { flags: u32, next: CommandView },
    Settle,
    Report(NoticeView),
    Exit,
}

#[verifier::ext_equal]
pub enum EventView {
    Received(Option<CommandView>),
    VoiceSelected(Result<(), Seq<char>>),
    Started(Result<(), Seq<char>>),
    Polled(CommandView),
    TimedOut,
    Disconnected,
    Status(Result<u32, Seq<char>>),
    Performed,
}

impl View for SpeechStep {
    type V = StepView;

    open spec fn view(&self) -> StepView {
        match *self {
            SpeechStep::Await => StepView::Await,
            SpeechStep::SelectVoice { text, language } => StepView::SelectVoice {
                text: text@,
                language,
            },
            SpeechStep::Start { text, flags } => StepView::Start { text: text@, flags },
            SpeechStep::Poll { millis } => StepView::Poll { millis },
            SpeechStep::Query => StepView::Query,
            SpeechStep::Interrupt { flags, next } => StepView::Interrupt { flags, next: next@ },
            SpeechStep::Settle => StepView::Settle,
            SpeechStep::Report(notice) => StepView::Report(notice@),
            SpeechStep::Exit => StepView::Exit,
        }
    }
}

/// An outcome with its words as characters.
pub open spec fn outcome_view<T>(outcome: Result<T, String>) -> Result<T, Seq<char>> {
    match outcome {
        Ok(value) => Ok(value),
        Err(error) => Err(error@),
    }
}

impl View for SpeechEvent {
    type V = EventView;

    open spec fn view(&self) -> EventView {
        match *self {
            SpeechEvent::Received(None) => EventView::Received(None),
            SpeechEvent::Received(Some(command)) => EventView::Received(Some(command@)),
            SpeechEvent::VoiceSelected(outcome) => EventView::VoiceSelected(outcome_view(outcome)),
            SpeechEvent::Started(outcome) => EventView::Started(outcome_view(outcome)),
            SpeechEvent::Polled(command) => EventView::Polled(command@),
            SpeechEvent::TimedOut => EventView::TimedOut,
            SpeechEvent::Disconnected => EventView::Disconnected,
            SpeechEvent::Status(outcome) => EventView::Status(outcome_view(outcome)),
            SpeechEvent::Performed => EventView::Performed,
        }
    }
}

impl StepView {
    /// Whether `event` is an answer to this step.
    pub open spec fn expects(self, event: EventView) -> bool {
        match self {
            StepView::Await => event is Received,
            StepView::SelectVoice { .. } => event is VoiceSelected,
            StepView::Start { .. } => event is Started,
            StepView::Poll { .. } => event is Polled || event is TimedOut || event is Disconnected,
            StepView::Query => event is Status,
            StepView::Interrupt { .. } => event is Performed,
            StepView::Settle => event is Polled || event is TimedOut || event is Disconnected,
            StepView::Report(_) => event is Performed,
            StepView::Exit => false,
        }
    }

    /// The step that takes up a command when nothing is being read.
    pub open spec fn take_up(command: CommandView) -> StepView {
        match command {
            CommandView::Speak { text, language } => StepView::SelectVoice { text, language },
            CommandView::Stop => StepView::Await,
        }
    }

    /// The step that follows this one after `event`.
    pub open spec fn next(self, event: EventView) -> StepView {
        match (self, event) {
            (StepView::Await, EventView::Received(Some(command))) => StepView::take_up(command),
            (StepView::Await, EventView::Received(None)) => StepView::Exit,
            (StepView::SelectVoice { text, .. }, EventView::VoiceSelected(Ok(_))) => {
                StepView::Start { text, flags: reading_flags() }
            },
            (StepView::SelectVoice { .. }, EventView::VoiceSelected(Err(message))) => {
                StepView::Report(NoticeView::Failed(message))
            },
            (StepView::Start { .. }, EventView::Started(Ok(_))) => {
                StepView::Poll { millis: POLL_MILLIS }
            },
            (StepView::Start { .. }, EventView::Started(Err(error))) => {
                StepView::Report(NoticeView::Failed("朗读失败: "@ + error))
            },
            (StepView::Poll { .. }, EventView::Polled(next)) => {
                StepView::Interrupt { flags: purging_flags(), next }
            },
            (StepView::Poll { .. }, EventView::TimedOut) => StepView::Query,
            (StepView::Poll { .. }, EventView::Disconnected) => StepView::Await,
            (StepView::Query, EventView::Status(Ok(state))) => {
                if is_speaking(state) {
                    StepView::Poll { millis: POLL_MILLIS }
                } else {
                    StepView::Report(NoticeView::Done)
                }
            },
            (StepView::Query, EventView::Status(Err(_))) => StepView::Report(NoticeView::Done),
            (StepView::Interrupt { next: CommandView::Stop, .. }, EventView::Performed) => {
                StepView::Settle
            },
            (StepView::Interrupt { next, .. }, EventView::Performed) => StepView::take_up(next),
            (StepView::Settle, EventView::Polled(CommandView::Stop)) => StepView::Settle,
            (StepView::Settle, EventView::Polled(command)) => StepView::take_up(command),
            (StepView::Settle, EventView::TimedOut) => StepView::Report(NoticeView::Done),
            (StepView::Settle, EventView::Disconnected) => StepView::Await,
            (StepView::Report(_), EventView::Performed) => StepView::Await,
            _ => self,
        }
    }
}

/// The step that takes up a command when nothing is being read: a text to read
/// starts the search for a voice, and there is nothing to stop.
fn take_up(command: SpeechCommand) -> (step: SpeechStep)
    ensures
        step@ == StepView::take_up(command@),
{
    match command {
        SpeechCommand::Speak { text, language } => SpeechStep::SelectVoice { text, language },
        SpeechCommand::Stop => SpeechStep::Await,
    }
}

/// The step that takes up a command when a reading was just interrupted: after
/// an order to stop it remains to be seen whether there is a new text.
fn after_interrupt(command: SpeechCommand) -> (step: SpeechStep)
    ensures
        step@ == (match command@ {
            CommandView::Stop => StepView::Settle,
            speak => StepView::take_up(speak),
        }),
{
    match command {
        SpeechCommand::Stop => SpeechStep::Settle,
        speak => take_up(speak),
    }
}

/// The step that follows `step`, given how it went. The thread starts with
/// `SpeechStep::Await`.
pub fn advance(step: SpeechStep, event: SpeechEvent) -> (next: SpeechStep)
    requires
        step@.expects(event@),
    ensures
        next@ == step@.next(event@),
{
    match (step, event) {
        (SpeechStep::Await, SpeechEvent::Received(Some(command))) => take_up(command),
        (SpeechStep::Await, SpeechEvent::Received(None)) => SpeechStep::Exit,
        (SpeechStep::SelectVoice { text, .. }, SpeechEvent::VoiceSelected(Ok(()))) => {
            assert(1u32 | 2u32 == 3) by (bit_vector);
            SpeechStep::Start { text, flags: spf_async() | spf_purge_before_speak() }
        },
        (SpeechStep::SelectVoice { .. }, SpeechEvent::VoiceSelected(Err(message))) => {
            SpeechStep::Report(SpeechNotice::Failed(message))
        },
        (SpeechStep::Start { .. }, SpeechEvent::Started(Ok(()))) => {
            SpeechStep::Poll { millis: POLL_MILLIS }
        },
        (SpeechStep::Start { .. }, SpeechEvent::Started(Err(error))) => {
            let mut message = "朗读失败: ".to_owned();
            message.append(error.as_str());
            SpeechStep::Report(SpeechNotice::Failed(message))
        },
        (SpeechStep::Poll { .. }, SpeechEvent::Polled(next)) => {
            SpeechStep::Interrupt { flags: spf_purge_before_speak(), next }
        },
        (SpeechStep::Poll { .. }, SpeechEvent::TimedOut) => SpeechStep::Query,
        (SpeechStep::Poll { .. }, SpeechEvent::Disconnected) => SpeechStep::Await,
        (SpeechStep::Query, SpeechEvent::Status(Ok(state))) => {
            if state & sprs_is_speaking() == 0 {
                SpeechStep::Report(SpeechNotice::Done)
            } else {
                SpeechStep::Poll { millis: POLL_MILLIS }
            }
        },
        (SpeechStep::Query, SpeechEvent::Status(Err(_))) => {
            SpeechStep::Report(SpeechNotice::Done)
        },
        (SpeechStep::Interrupt { next, .. }, SpeechEvent::Performed) => after_interrupt(next),
        (SpeechStep::Settle, SpeechEvent::Polled(command)) => after_interrupt(command),
        (SpeechStep::Settle, SpeechEvent::TimedOut) => SpeechStep::Report(SpeechNotice::Done),
        (SpeechStep::Settle, SpeechEvent::Disconnected) => SpeechStep::Await,
        (SpeechStep::Report(_), SpeechEvent::Performed) => SpeechStep::Await,
        (step, _) => step,
    }
}

/// Whether each of `events` answers the step that stands when it comes.
pub open spec fn answers(step: StepView, events: Seq<EventView>) -> bool
    decreases events.len(),
{
    events.len() > 0 ==> answers(step, events.drop_last()) && steps_after(
        step,
        events.drop_last(),
    ).expects(events.last())
}

/// The step that stands after `events`.
pub open spec fn steps_after(step: StepView, events: Seq<EventView>) -> StepView
    decreases events.len(),
{
    if events.len() == 0 {
        step
    } else {
        steps_after(step, events.drop_last()).next(events.last())
    }
}

/// How many receipts were to be sent in the course of `events`.
pub open spec fn receipts(step: StepView, events: Seq<EventView>) -> nat
    decreases events.len(),
{
    if events.len() == 0 {
        0
    } else {
        receipts(step, events.drop_last()) + if steps_after(step, events) is Report {
            1nat
        } else {
            0
        }
    }
}

/// How many texts to read came in with `events`.
pub open spec fn texts_received(events: Seq<EventView>) -> nat
    decreases events.len(),
{
    if events.len() == 0 {
        0
    } else {
        texts_received(events.drop_last()) + match events.last() {
            EventView::Received(Some(CommandView::Speak { .. })) => 1nat,
            EventView::Polled(CommandView::Speak { .. }) => 1nat,
            _ => 0,
        }
    }
}

/// How many texts lost their receipt in the course of `events`, to a later text
/// or to the end of the commands.
pub open spec fn readings_cut(events: Seq<EventView>) -> nat
    decreases events.len(),
{
    if events.len() == 0 {
        0
    } else {
        readings_cut(events.drop_last()) + match events.last() {
            EventView::Polled(CommandView::Speak { .. }) => 1nat,
            EventView::Disconnected => 1nat,
            _ => 0,
        }
    }
}

/// Whether a text is in hand whose receipt is still to come.
pub open spec fn text_in_hand(step: StepView) -> bool {
    match step {
        StepView::SelectVoice { .. } => true,
        StepView::Start { .. } => true,
        StepView::Poll { .. } => true,
        StepView::Query => true,
        StepView::Interrupt { .. } => true,
        StepView::Settle => true,
        _ => false,
    }
}

/// Every text that comes in is answered by exactly one receipt, whether it was
/// read to its end, failed or was stopped, unless a later text takes its place or
/// the commands end. No receipt is sent but for a text.
pub proof fn law_one_receipt_for_each_text(events: Seq<EventView>)
    requires
        answers(StepView::Await, events),
    ensures
        texts_received(events) == receipts(StepView::Await, events) + readings_cut(events) + if (
        text_in_hand(steps_after(StepView::Await, events))) {
            1nat
        } else {
            0
        },
    decreases events.len(),
{
    if events.len() > 0 {
        law_one_receipt_for_each_text(events.drop_last());
    }
}

/// A text that comes while another is read interrupts it and is read next.
pub proof fn law_second_text_interrupts_the_first(
    millis: u64,
    text: Seq<char>,
    language: Language,
)
    ensures
        ({
            let events = seq![
                EventView::Polled(CommandView::Speak { text, language }),
                EventView::Performed,
            ];
            &&& answers(StepView::Poll { millis }, events)
            &&& steps_after(StepView::Poll { millis }, events) == StepView::SelectVoice {
                text,
                language,
            }
        }),
{
    let events = seq![
        EventView::Polled(CommandView::Speak { text, language }),
        EventView::Performed,
    ];
    assert(events.drop_last() =~= seq![EventView::Polled(CommandView::Speak { text, language })]);
    assert(events.drop_last().drop_last() =~= Seq::empty());
    reveal_with_fuel(steps_after, 3);
    reveal_with_fuel(answers, 3);
}

/// A reading that is stopped with no new text to read is answered by `Done`,
/// however often it is told to stop.
pub proof fn law_stopped_reading_is_done(millis: u64, stops: nat)
    ensures
        ({
            let events = stop_events(stops).push(EventView::TimedOut);
            &&& answers(StepView::Poll { millis }, events)
            &&& steps_after(StepView::Poll { millis }, events) == StepView::Report(
                NoticeView::Done,
            )
        }),
{
    lemma_stops_settle(millis, stops);
    let events = stop_events(stops).push(EventView::TimedOut);
    assert(events.drop_last() =~= stop_events(stops));
}

/// A text that comes after the order to stop is read, and answered in place of
/// the one that was stopped.
pub proof fn law_text_after_a_stop_is_read(
    millis: u64,
    stops: nat,
    text: Seq<char>,
    language: Language,
)
    ensures
        ({
            let events = stop_events(stops).push(
                EventView::Polled(CommandView::Speak { text, language }),
            );
            &&& answers(StepView::Poll { millis }, events)
            &&& steps_after(StepView::Poll { millis }, events) == StepView::SelectVoice {
                text,
                language,
            }
        }),
{
    lemma_stops_settle(millis, stops);
    let events = stop_events(stops).push(EventView::Polled(CommandView::Speak { text, language }));
    assert(events.drop_last() =~= stop_events(stops));
}

/// An order to stop that interrupts a reading, and `more` further ones that are
/// already waiting.
pub open spec fn stop_events(more: nat) -> Seq<EventView>
    decreases more,
{
    if more == 0 {
        seq![EventView::Polled(CommandView::Stop), EventView::Performed]
    } else {
        stop_events((more - 1) as nat).push(EventView::Polled(CommandView::Stop))
    }
}

proof fn lemma_stops_settle(millis: u64, more: nat)
    ensures
        answers(StepView::Poll { millis }, stop_events(more)),
        steps_after(StepView::Poll { millis }, stop_events(more)) == StepView::Settle,
    decreases more,
{
    let events = stop_events(more);
    if more == 0 {
        assert(events.drop_last() =~= seq![EventView::Polled(CommandView::Stop)]);
        assert(events.drop_last().drop_last() =~= Seq::empty());
        reveal_with_fuel(steps_after, 3);
        reveal_with_fuel(answers, 3);
    } else {
        lemma_stops_settle(millis, (more - 1) as nat);
        assert(events.drop_last() =~= stop_events((more - 1) as nat));
    }
}

/// The thread ends only when the commands have ended and nothing is being read.
pub proof fn law_thread_ends_with_the_commands(step: StepView, event: EventView)
    requires
        step.expects(event),
    ensures
        step.next(event) is Exit <==> step is Await && event == EventView::Received(None),
{
}

/// When nothing is being read, a text is taken up as it is, in its language;
/// an order to stop leaves the thread waiting; and the end of the commands ends it.
pub proof fn law_waiting_thread_takes_up_texts(text: Seq<char>, language: Language)
    ensures
        StepView::Await.next(
            EventView::Received(Some(CommandView::Speak { text, language })),
        ) == (StepView::SelectVoice { text, language }),
        StepView::Await.next(EventView::Received(Some(CommandView::Stop))) == StepView::Await,
        StepView::Await.next(EventView::Received(None)) == StepView::Exit,
{
}

/// Once a voice was found, that very text is read with it, whatever its
/// language, at once and in place of what was being read before; where none was
/// found, the reason is reported word for word.
pub proof fn law_found_voice_reads_the_text(
    text: Seq<char>,
    language: Language,
    message: Seq<char>,
)
    ensures
        (StepView::SelectVoice { text, language }).next(EventView::VoiceSelected(Ok(())))
            == (StepView::Start { text, flags: 3 }),
        (StepView::SelectVoice { text, language }).next(EventView::VoiceSelected(Err(message)))
            == StepView::Report(NoticeView::Failed(message)),
{
}

/// A reading that has started is watched every 100 milliseconds; one that could
/// not start is reported with the system's words.
pub proof fn law_started_reading_is_watched(text: Seq<char>, flags: u32, error: Seq<char>)
    ensures
        (StepView::Start { text, flags }).next(EventView::Started(Ok(()))) == (StepView::Poll {
            millis: 100,
        }),
        (StepView::Start { text, flags }).next(EventView::Started(Err(error)))
            == StepView::Report(NoticeView::Failed("朗读失败: "@ + error)),
{
}

/// While a text is read, any command interrupts it and is kept; without one the
/// voice is asked how it stands. The reading goes on exactly while the second bit
/// of its state is set, and is otherwise reported as done, as it is when the voice
/// does not answer.
pub proof fn law_watched_reading_goes_on_while_it_speaks(
    millis: u64,
    command: CommandView,
    state: u32,
    error: Seq<char>,
)
    ensures
        (StepView::Poll { millis }).next(EventView::Polled(command)) == (StepView::Interrupt {
            flags: 2,
            next: command,
        }),
        (StepView::Poll { millis }).next(EventView::TimedOut) == StepView::Query,
        (StepView::Poll { millis }).next(EventView::Disconnected) == StepView::Await,
        (state / 2) % 2 == 1 ==> StepView::Query.next(EventView::Status(Ok(state)))
            == (StepView::Poll { millis: 100 }),
        (state / 2) % 2 == 0 ==> StepView::Query.next(EventView::Status(Ok(state)))
            == StepView::Report(NoticeView::Done),
        StepView::Query.next(EventView::Status(Err(error))) == StepView::Report(NoticeView::Done),
{
    assert((state & 2 != 0) == ((state / 2) % 2 == 1)) by (bit_vector);
}

/// A text that interrupted is read next, in its language, and so is one that
/// waits behind an order to stop. With nothing waiting the stopped reading is
/// reported as done.
pub proof fn law_interrupting_text_is_not_lost(flags: u32, text: Seq<char>, language: Language)
    ensures
        (StepView::Interrupt { flags, next: CommandView::Speak { text, language } }).next(
            EventView::Performed,
        ) == (StepView::SelectVoice { text, language }),
        (StepView::Interrupt { flags, next: CommandView::Stop }).next(EventView::Performed)
            == StepView::Settle,
        StepView::Settle.next(EventView::Polled(CommandView::Speak { text, language }))
            == (StepView::SelectVoice { text, language }),
        StepView::Settle.next(EventView::Polled(CommandView::Stop)) == StepView::Settle,
        StepView::Settle.next(EventView::TimedOut) == StepView::Report(NoticeView::Done),
        StepView::Settle.next(EventView::Disconnected) == StepView::Await,
{
}

/// After a receipt, whatever it says, the thread waits for the next command.
pub proof fn law_receipt_is_followed_by_waiting(notice: NoticeView)
    ensures
        StepView::Report(notice).next(EventView::Performed) == StepView::Await,
{
}

/// Each step is answered by its own events and no other, whatever they hold; the
/// end is answered by none.
pub proof fn law_each_step_has_its_answers(
    text: Seq<char>,
    language: Language,
    number: u32,
    millis: u64,
    command: CommandView,
    notice: NoticeView,
    event: EventView,
)
    ensures
        StepView::Await.expects(event) <==> event is Received,
        (StepView::SelectVoice { text, language }).expects(event) <==> event is VoiceSelected,
        (StepView::Start { text, flags: number }).expects(event) <==> event is Started,
        (StepView::Poll { millis }).expects(event) <==> event is Polled || event is TimedOut
            || event is Disconnected,
        StepView::Query.expects(event) <==> event is Status,
        (StepView::Interrupt { flags: number, next: command }).expects(event) <==> event
            is Performed,
        StepView::Settle.expects(event) <==> event is Polled || event is TimedOut
            || event is Disconnected,
        StepView::Report(notice).expects(event) <==> event is Performed,
        !StepView::Exit.expects(event),
{
}

/// `Done` is reported only of a text whose reading was started: since then no
/// other text was taken up and no voice looked for.
pub proof fn law_done_only_after_a_reading_started(events: Seq<EventView>)
    requires
        answers(StepView::Await, events),
        steps_after(StepView::Await, events) == StepView::Report(NoticeView::Done),
    ensures
        exists|k: int|
            0 <= k < events.len() && (#[trigger] events[k] matches EventView::Started(Ok(_)))
                && forall|j: int|
                k < j < events.len() ==> !(#[trigger] events[j] is Received || events[j]
                    is VoiceSelected || events[j] is Started),
{
    let init = events.drop_last();
    if events.len() > 0 {
        let k = lemma_reading_was_started(init);
        assert(events[k] == init[k]);
        assert forall|j: int| k < j < events.len() implies !(#[trigger] events[j] is Received
            || events[j] is VoiceSelected || events[j] is Started) by {
            if j < init.len() {
                assert(init[j] == events[j]);
            }
        }
    }
}

proof fn lemma_reading_was_started(events: Seq<EventView>) -> (k: int)
    requires
        answers(StepView::Await, events),
        ({
            let step = steps_after(StepView::Await, events);
            step is Poll || step is Query || step is Interrupt || step is Settle
        }),
    ensures
        0 <= k < events.len(),
        events[k] matches EventView::Started(Ok(_)),
        forall|j: int|
            k < j < events.len() ==> !(#[trigger] events[j] is Received || events[j]
                is VoiceSelected || events[j] is Started),
    decreases events.len(),
{
    let init = events.drop_last();
    if events.last() is Started {
        events.len() - 1
    } else {
        let k = lemma_reading_was_started(init);
        assert(events[k] == init[k]);
        assert forall|j: int| k < j < events.len() implies !(#[trigger] events[j] is Received
            || events[j] is VoiceSelected || events[j] is Started) by {
            if j < init.len() {
                assert(init[j] == events[j]);
            }
        }
        k
    }
}

/// The model of a step is of the same kind and holds what the step holds.
pub proof fn law_step_is_modelled_as_it_is(step: SpeechStep)
    ensures
        match step {
            SpeechStep::Await => step@ is Await,
            SpeechStep::SelectVoice { text, language } => step@ == (StepView::SelectVoice {
                text: text@,
                language,
            }),
            SpeechStep::Start { text, flags } => step@ == (StepView::Start { text: text@, flags }),
            SpeechStep::Poll { millis } => step@ == (StepView::Poll { millis }),
            SpeechStep::Query => step@ is Query,
            SpeechStep::Interrupt { flags, next } => step@ == (StepView::Interrupt {
                flags,
                next: next@,
            }),
            SpeechStep::Settle => step@ is Settle,
            SpeechStep::Report(notice) => step@ == StepView::Report(notice@),
            SpeechStep::Exit => step@ is Exit,
        },
{
}

/// The model of an event is of the same kind and holds what the event holds.
pub proof fn law_event_is_modelled_as_it_is(event: SpeechEvent)
    ensures
        match event {
            SpeechEvent::Received(None) => event@ == EventView::Received(None),
            SpeechEvent::Received(Some(command)) => event@ == EventView::Received(Some(command@)),
            SpeechEvent::VoiceSelected(Ok(_)) => event@ == EventView::VoiceSelected(Ok(())),
            SpeechEvent::VoiceSelected(Err(error)) => event@ == EventView::VoiceSelected(
                Err(error@),
            ),
            SpeechEvent::Started(Ok(_)) => event@ == EventView::Started(Ok(())),
            SpeechEvent::Started(Err(error)) => event@ == EventView::Started(Err(error@)),
            SpeechEvent::Polled(command) => event@ == EventView::Polled(command@),
            SpeechEvent::TimedOut => event@ is TimedOut,
            SpeechEvent::Disconnected => event@ is Disconnected,
            SpeechEvent::Status(Ok(state)) => event@ == EventView::Status(Ok(state)),
            SpeechEvent::Status(Err(error)) => event@ == EventView::Status(Err(error@)),
            SpeechEvent::Performed => event@ is Performed,
        },
{
}

} // verus!
