//! What the router and the speech thread say to each other.

use vstd::prelude::*;

verus! {

/// A language that text is translated to and read out in.
#[derive(Debug, Clone, Copy, PartialEq, Eq, Structural)]
pub enum Language {
    Chinese,
    English,
    Japanese,
}

/// A command to the speech thread.
#[derive(Debug)]
pub enum SpeechCommand {
    /// Read a text out; a second one interrupts the first.
    Speak { text: String, language: Language },
    /// Stop reading.
    Stop,
}

/// A receipt from the speech thread.
#[derive(Debug)]
pub enum SpeechNotice {
    /// The text was read to its end, or interrupted with no new one to read.
    Done,
    /// Nothing was read, with the reason to show.
    Failed(String),
}

#[verifier::ext_equal]
pub enum CommandView {
    Speak { text: Seq<char>, language: Language },
    Stop,
}

#[verifier::ext_equal]
pub enum NoticeView {
    Done,
    Failed(Seq<char>),
}

impl View for SpeechCommand {
    type V = CommandView;

    open spec fn view(&self) -> CommandView {
        match *self {
            SpeechCommand::Speak { text, language } => CommandView::Speak { text: text@, language },
            SpeechCommand::Stop => CommandView::Stop,
        }
    }
}

impl View for SpeechNotice {
    type V = NoticeView;

    open spec fn view(&self) -> NoticeView {
        match *self {
            SpeechNotice::Done => NoticeView::Done,
            SpeechNotice::Failed(message) => NoticeView::Failed(message@),
        }
    }
}

impl Clone for SpeechCommand {
    fn clone(&self) -> (copy: Self)
        ensures
            copy@ == self@,
    {
        match self {
            SpeechCommand::Speak { text, language } => SpeechCommand::Speak {
                text: text.clone(),
                language: *language,
            },
            SpeechCommand::Stop => SpeechCommand::Stop,
        }
    }
}

impl Clone for SpeechNotice {
    fn clone(&self) -> (copy: Self)
        ensures
            copy@ == self@,
    {
        match self {
            SpeechNotice::Done => SpeechNotice::Done,
            SpeechNotice::Failed(message) => SpeechNotice::Failed(message.clone()),
        }
    }
}

/// The model of a command or a receipt is of the same kind and has the same text
/// and language.
pub proof fn law_speech_is_modelled_as_it_is(
    text: String,
    language: Language,
    command: SpeechCommand,
    notice: SpeechNotice,
)
    ensures
        (SpeechCommand::Speak { text, language })@ == (CommandView::Speak {
            text: text@,
            language,
        }),
        command is Stop <==> command@ is Stop,
        SpeechNotice::Failed(text)@ == NoticeView::Failed(text@),
        notice is Done <==> notice@ is Done,
{
}

} // verus!
