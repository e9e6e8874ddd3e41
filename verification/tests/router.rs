use std::sync::mpsc::{channel, Receiver};

use qingjian::frame::{CandidateKind, Frame, KeyOutcome, Layout, Rect, ServerMessage, SessionId, Theme};
use qingjian::key::{key_event, KeyCombo};
use qingjian::router::{Effect, Router, RouterConfig, SpeakPhase};
use qingjian::speech::{Language, SpeechCommand, SpeechNotice};
use qingjian::tts::{advance, SpeechEvent, SpeechStep};

const SECOND: u128 = 1_000_000_000;

const SESSION: SessionId = SessionId(1);

const CARET: Rect = Rect {
    left: 10,
    top: 20,
    right: 12,
    bottom: 40,
};

fn config() -> RouterConfig {
    RouterConfig {
        speak_translation: KeyCombo::speak_default(),
        layout: Layout { code: 5 },
        theme: Theme { code: 9 },
    }
}

fn router() -> Router {
    let mut router = Router::new(config());
    router.set_caret(CARET);
    router
}

fn speaking_router() -> (Router, Receiver<SpeechCommand>) {
    let mut router = router();
    let (sender, receiver) = channel();
    router.set_speech(sender);
    (router, receiver)
}

fn deliver(router: &mut Router) -> Vec<String> {
    let mut seen = Vec::new();
    for effect in router.take_effects() {
        match effect {
            Effect::RequestTranslation(sentence) => seen.push(format!("ask {}", sentence)),
            Effect::Speech(command) => {
                seen.push("speech".to_owned());
                if let Some(sender) = router.speech() {
                    let _ = sender.send(command);
                }
            }
            Effect::ShowCandidates { rect, frame } => {
                assert_eq!(rect, CARET);
                assert_single(&frame);
                seen.push(format!("show {}", frame.candidates.items[0].text));
            }
            Effect::HideCandidates => seen.push("hide".to_owned()),
            Effect::CancelPrediction => seen.push("cancel".to_owned()),
        }
    }
    seen
}

fn assert_single(frame: &Frame) {
    assert!(frame.preedit.is_empty());
    assert_eq!(frame.cursor, 0);
    assert_eq!(frame.candidates.items.len(), 1);
    let candidate = &frame.candidates.items[0];
    assert_eq!(candidate.kind, CandidateKind::Cloud);
    assert!(candidate.syllables.is_empty());
    assert_eq!(candidate.reading, None);
    assert_eq!(candidate.translation, None);
    assert_eq!((frame.highlight, frame.page, frame.page_count), (0, 0, 1));
    assert_eq!(frame.layout, Layout { code: 5 });
    assert_eq!(frame.theme, Theme { code: 9 });
    assert_eq!(frame.sentence, None);
    assert_eq!(frame.notice, None);
}

fn assert_consumed(reply: ServerMessage) {
    match reply {
        ServerMessage::KeyResult {
            session,
            outcome,
            commit,
            frame,
        } => {
            assert_eq!(session, SESSION);
            assert_eq!(outcome, KeyOutcome::Consumed);
            assert_eq!(commit, None);
            assert!(frame.preedit.is_empty());
            assert!(frame.candidates.items.is_empty());
            assert_eq!(frame.page_count, 0);
        }
    }
}

#[test]
fn translation_of_the_committed_sentence_reaches_the_speech_thread() {
    let (mut router, commands) = speaking_router();
    assert_consumed(router.start_speak(SESSION, Language::English, 0));
    assert_eq!(deliver(&mut router), ["show 还没有上屏的内容"]);

    router.note_committed("早。");
    router.note_committed("你好");
    assert!(router.matches_speak_combo(&key_event(KeyCombo::speak_default(), false)));
    assert_consumed(router.start_speak(SESSION, Language::English, SECOND));
    assert_eq!(
        deliver(&mut router),
        ["speech", "ask 你好", "show 正在翻译…"]
    );
    assert!(matches!(commands.try_recv(), Ok(SpeechCommand::Stop)));

    router.begin_speaking("Hello world".to_owned(), 2 * SECOND);
    assert_eq!(deliver(&mut router), ["speech", "show Hello world"]);
    assert!(matches!(
        commands.try_recv(),
        Ok(SpeechCommand::Speak { ref text, language: Language::English }) if text == "Hello world"
    ));
    assert_eq!(router.current_speak_text().as_deref(), Some("Hello world"));

    router.take_receipt(SpeechNotice::Done, 3 * SECOND);
    assert_eq!(deliver(&mut router), ["hide"]);
    assert_eq!(router.current_speak_text(), None);
}

#[test]
fn without_a_speech_thread_the_translation_is_shown_for_a_while() {
    let mut router = router();
    router.note_committed("你好");
    router.start_speak(SESSION, Language::Japanese, 0);
    assert_eq!(deliver(&mut router), ["ask 你好", "show 正在翻译…"]);
    router.begin_speaking("こんにちは".to_owned(), SECOND);
    assert_eq!(deliver(&mut router), ["show こんにちは"]);
    router.poll_speak_deadline(4 * SECOND);
    assert!(deliver(&mut router).is_empty());
    router.poll_speak_deadline(4 * SECOND + 1);
    assert_eq!(deliver(&mut router), ["cancel", "hide"]);
    assert!(router.speech().is_none());
}

#[test]
fn translation_is_given_up_after_twelve_seconds() {
    let mut router = router();
    router.note_committed("你好");
    router.start_speak(SESSION, Language::English, 5);
    deliver(&mut router);
    router.poll_speak_deadline(12 * SECOND + 5);
    assert!(deliver(&mut router).is_empty());
    assert_eq!(router.current_speak_text().as_deref(), Some("正在翻译…"));
    router.poll_speak_deadline(12 * SECOND + 6);
    assert_eq!(deliver(&mut router), ["cancel", "hide"]);
    router.begin_speaking("too late".to_owned(), 13 * SECOND);
    assert!(deliver(&mut router).is_empty());
}

#[test]
fn a_reading_never_expires_and_another_key_ends_it() {
    let (mut router, commands) = speaking_router();
    router.note_committed("你好");
    router.start_speak(SESSION, Language::English, 0);
    router.begin_speaking("Hello".to_owned(), 1);
    deliver(&mut router);
    assert!(commands.try_recv().is_ok());
    router.poll_speak_deadline(u128::MAX);
    assert!(deliver(&mut router).is_empty());
    router.begin_speaking("again".to_owned(), 2);
    assert!(deliver(&mut router).is_empty());
    router.end_speak();
    assert_eq!(deliver(&mut router), ["speech", "cancel", "hide"]);
    assert!(matches!(commands.try_recv(), Ok(SpeechCommand::Stop)));
    router.end_speak();
    router.handle_speech_notice(SpeechNotice::Done, 3);
    router.handle_speech_notice(SpeechNotice::Failed("x".to_owned()), 3);
    assert!(deliver(&mut router).is_empty());
}

#[test]
fn ending_a_notice_makes_no_sound() {
    let (mut router, _commands) = speaking_router();
    router.speak_notice(SESSION, "提示", 0);
    assert_eq!(deliver(&mut router), ["show 提示"]);
    router.end_speak();
    assert_eq!(deliver(&mut router), ["cancel", "hide"]);
}

#[test]
fn a_failed_reading_turns_into_a_notice() {
    let (mut router, _commands) = speaking_router();
    router.note_committed("你好");
    router.start_speak(SESSION, Language::English, 0);
    router.begin_speaking("Hello".to_owned(), 1);
    deliver(&mut router);
    router.handle_speech_notice(SpeechNotice::Failed("没有找到英语的语音包".to_owned()), 10);
    assert_eq!(deliver(&mut router), ["show 没有找到英语的语音包"]);
    router.poll_speak_deadline(3 * SECOND + 11);
    assert_eq!(deliver(&mut router), ["cancel", "hide"]);
}

#[test]
fn a_notice_stands_three_seconds() {
    let mut router = router();
    router.speak_notice_in_place("提示".to_owned(), 7);
    router.note_committed("无关");
    router.poll_speak_deadline(3 * SECOND + 7);
    assert_eq!(router.current_speak_text().as_deref(), Some("提示"));
    assert!(matches!(
        router.phase(),
        Some(SpeakPhase::Notice { deadline, .. }) if *deadline == 3 * SECOND + 7
    ));
    router.poll_speak_deadline(3 * SECOND + 8);
    assert!(router.phase().is_none());
}

#[test]
fn an_old_receipt_does_not_close_the_new_reading() {
    let (mut router, _commands) = speaking_router();
    router.note_committed("你好");
    router.take_receipt(SpeechNotice::Done, 0);
    assert!(deliver(&mut router).is_empty());
    router.start_speak(SESSION, Language::English, 0);
    deliver(&mut router);
    router.take_receipt(SpeechNotice::Done, 1);
    assert!(deliver(&mut router).is_empty());
    assert!(matches!(
        router.phase(),
        Some(SpeakPhase::Translating { .. })
    ));
    router.speak_notice_in_place("提示".to_owned(), 2);
    deliver(&mut router);
    router.take_receipt(SpeechNotice::Done, 3);
    assert_eq!(router.current_speak_text().as_deref(), Some("提示"));
    router.take_receipt(SpeechNotice::Failed("坏了".to_owned()), 4);
    assert_eq!(deliver(&mut router), ["show 坏了"]);
}

/// Lets the speech thread read until it waits for something to come.
fn start_reading(commands: &Receiver<SpeechCommand>, text: &str) -> SpeechStep {
    let command = commands.try_recv().unwrap();
    let step = advance(SpeechStep::Await, SpeechEvent::Received(Some(command)));
    assert!(
        matches!(&step, SpeechStep::SelectVoice { text: t, language: Language::English } if t == text)
    );
    let step = advance(step, SpeechEvent::VoiceSelected(Ok(())));
    advance(step, SpeechEvent::Started(Ok(())))
}

fn receipt(step: SpeechStep) -> SpeechNotice {
    match step {
        SpeechStep::Report(notice) => notice,
        other => panic!("no receipt: {:?}", other),
    }
}

#[test]
fn a_second_press_while_reading_is_read_out() {
    let (mut router, commands) = speaking_router();
    router.note_committed("第一句。");
    router.start_speak(SESSION, Language::English, 0);
    router.begin_speaking("One".to_owned(), 1);
    deliver(&mut router);
    let step = start_reading(&commands, "One");

    router.note_committed("第二句。");
    assert_consumed(router.start_speak(SESSION, Language::English, 2));
    assert_eq!(
        deliver(&mut router),
        ["speech", "ask 第二句", "show 正在翻译…"]
    );
    let step = advance(step, SpeechEvent::Polled(commands.try_recv().unwrap()));
    let step = advance(step, SpeechEvent::Performed);
    assert!(commands.try_recv().is_err());
    let step = advance(step, SpeechEvent::TimedOut);
    router.take_receipt(receipt(step), 3);
    assert!(deliver(&mut router).is_empty());

    router.begin_speaking("Two".to_owned(), 4);
    assert_eq!(deliver(&mut router), ["speech", "show Two"]);
    let step = start_reading(&commands, "Two");
    let step = advance(step, SpeechEvent::TimedOut);
    let step = advance(step, SpeechEvent::Status(Ok(1)));
    router.take_receipt(receipt(step), 5);
    assert_eq!(deliver(&mut router), ["hide"]);
    assert!(router.phase().is_none());
}

#[test]
fn a_receipt_closes_whatever_phase_stands() {
    let (mut router, _commands) = speaking_router();
    router.note_committed("你好");
    router.start_speak(SESSION, Language::English, 0);
    deliver(&mut router);
    router.handle_speech_notice(SpeechNotice::Done, 1);
    assert_eq!(deliver(&mut router), ["hide"]);
    assert!(router.phase().is_none());
}

#[test]
fn private_text_is_not_noted() {
    let mut router = router();
    router.set_private(true);
    router.note_committed("秘密");
    assert_eq!(router.last_committed_sentence(), None);
    router.set_private(false);
    router.note_committed("公开");
    router.note_committed("");
    assert_eq!(router.last_committed_sentence().as_deref(), Some("公开"));
}

#[test]
fn committed_text_and_sentence_keep_to_their_limits() {
    let mut router = router();
    router.note_committed(&"头".repeat(10));
    router.note_committed("。");
    router.note_committed(&"句".repeat(500));
    assert_eq!(
        router.last_committed_sentence(),
        Some("句".repeat(500))
    );
    router.note_committed("尾");
    let sentence = router.last_committed_sentence().unwrap();
    assert_eq!(sentence.chars().count(), 500);
    assert!(sentence.ends_with("句尾"));
    let mut other = Router::new(config());
    other.note_committed(&format!("a。{}。", "b".repeat(599)));
    assert_eq!(other.last_committed_sentence(), Some("b".repeat(500)));
    let mut tight = Router::new(config());
    tight.note_committed(&format!("早{}", "。".repeat(600)));
    assert_eq!(tight.last_committed_sentence(), None);
}

#[test]
fn without_a_composition_nothing_is_shown() {
    let mut router = Router::new(config());
    router.note_committed("你好");
    assert_consumed(router.start_speak(SESSION, Language::English, 0));
    assert_eq!(deliver(&mut router), ["ask 你好"]);
    assert_eq!(router.current_speak_text().as_deref(), Some("正在翻译…"));
}

#[test]
fn other_keys_are_not_the_combination() {
    let router = router();
    let translate = key_event(KeyCombo::translate_default(), false);
    assert!(!router.matches_speak_combo(&translate));
    assert!(router.matches_speak_combo(&key_event(KeyCombo::speak_default(), true)));
}
