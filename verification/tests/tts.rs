use qingjian::speech::{Language, SpeechCommand, SpeechNotice};
use qingjian::tts::{advance, SpeechEvent, SpeechStep};

fn speak(text: &str) -> SpeechCommand {
    SpeechCommand::Speak {
        text: text.to_owned(),
        language: Language::English,
    }
}

fn reading(text: &str) -> SpeechStep {
    let step = advance(SpeechStep::Await, SpeechEvent::Received(Some(speak(text))));
    match &step {
        SpeechStep::SelectVoice { text: t, language } => {
            assert_eq!(t, text);
            assert_eq!(*language, Language::English);
        }
        other => panic!("{:?}", other),
    }
    let step = advance(step, SpeechEvent::VoiceSelected(Ok(())));
    match &step {
        SpeechStep::Start { text: t, flags } => {
            assert_eq!(t, text);
            assert_eq!(*flags, 3);
        }
        other => panic!("{:?}", other),
    }
    advance(step, SpeechEvent::Started(Ok(())))
}

#[test]
fn a_text_is_read_until_the_voice_is_silent() {
    let step = reading("Hello, this is a voice test.");
    assert!(matches!(step, SpeechStep::Poll { millis: 100 }));
    let step = advance(step, SpeechEvent::TimedOut);
    assert!(matches!(step, SpeechStep::Query));
    let step = advance(step, SpeechEvent::Status(Ok(2)));
    assert!(matches!(step, SpeechStep::Poll { millis: 100 }));
    let step = advance(step, SpeechEvent::TimedOut);
    let step = advance(step, SpeechEvent::Status(Ok(7)));
    assert!(matches!(step, SpeechStep::Poll { .. }));
    let step = advance(step, SpeechEvent::TimedOut);
    let step = advance(step, SpeechEvent::Status(Ok(1)));
    assert!(matches!(step, SpeechStep::Report(SpeechNotice::Done)));
    let step = advance(step, SpeechEvent::Performed);
    assert!(matches!(step, SpeechStep::Await));
}

#[test]
fn an_unreadable_state_counts_as_silence() {
    let step = advance(reading("a"), SpeechEvent::TimedOut);
    let step = advance(step, SpeechEvent::Status(Err("gone".to_owned())));
    assert!(matches!(step, SpeechStep::Report(SpeechNotice::Done)));
}

#[test]
fn a_second_text_interrupts_and_is_read_next() {
    let step = advance(reading("first"), SpeechEvent::Polled(speak("second")));
    match &step {
        SpeechStep::Interrupt { flags, next } => {
            assert_eq!(*flags, 2);
            assert!(matches!(next, SpeechCommand::Speak { text, .. } if text == "second"));
        }
        other => panic!("{:?}", other),
    }
    let step = advance(step, SpeechEvent::Performed);
    assert!(matches!(step, SpeechStep::SelectVoice { text, .. } if text == "second"));
}

fn stopped(text: &str) -> SpeechStep {
    let step = advance(reading(text), SpeechEvent::Polled(SpeechCommand::Stop));
    assert!(matches!(
        step,
        SpeechStep::Interrupt {
            flags: 2,
            next: SpeechCommand::Stop
        }
    ));
    advance(step, SpeechEvent::Performed)
}

#[test]
fn a_stopped_reading_with_no_new_text_is_done() {
    let step = stopped("first");
    assert!(matches!(step, SpeechStep::Settle));
    let step = advance(step, SpeechEvent::Polled(SpeechCommand::Stop));
    assert!(matches!(step, SpeechStep::Settle));
    let step = advance(step, SpeechEvent::TimedOut);
    assert!(matches!(step, SpeechStep::Report(SpeechNotice::Done)));
    let step = advance(step, SpeechEvent::Performed);
    assert!(matches!(step, SpeechStep::Await));
}

#[test]
fn a_text_that_follows_the_stop_is_read() {
    let step = advance(stopped("first"), SpeechEvent::Polled(speak("second")));
    assert!(matches!(step, SpeechStep::SelectVoice { text, .. } if text == "second"));
}

#[test]
fn a_stopped_reading_whose_commands_end_is_not_reported() {
    let step = advance(stopped("first"), SpeechEvent::Disconnected);
    assert!(matches!(step, SpeechStep::Await));
}

#[test]
fn with_nothing_read_there_is_nothing_to_stop() {
    let step = advance(
        SpeechStep::Await,
        SpeechEvent::Received(Some(SpeechCommand::Stop)),
    );
    assert!(matches!(step, SpeechStep::Await));
}

#[test]
fn failures_are_reported_once() {
    let step = advance(SpeechStep::Await, SpeechEvent::Received(Some(speak("a"))));
    let step = advance(step, SpeechEvent::VoiceSelected(Err("没有".to_owned())));
    assert!(matches!(&step, SpeechStep::Report(SpeechNotice::Failed(m)) if m == "没有"));
    let step = advance(step, SpeechEvent::Performed);
    assert!(matches!(step, SpeechStep::Await));

    let step = advance(step, SpeechEvent::Received(Some(speak("a"))));
    let step = advance(step, SpeechEvent::VoiceSelected(Ok(())));
    let step = advance(step, SpeechEvent::Started(Err("0x80".to_owned())));
    assert!(matches!(step, SpeechStep::Report(SpeechNotice::Failed(m)) if m == "朗读失败: 0x80"));
}

#[test]
fn the_thread_ends_with_its_commands() {
    let step = advance(reading("a"), SpeechEvent::Disconnected);
    assert!(matches!(step, SpeechStep::Await));
    let step = advance(step, SpeechEvent::Received(None));
    assert!(matches!(step, SpeechStep::Exit));
}
