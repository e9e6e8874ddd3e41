use qingjian::speech::Language;
use qingjian::voice::{select_voice, voices_category, FetchedToken, VoiceEvent, VoiceStep};

fn failure(step: VoiceStep) -> String {
    match step {
        VoiceStep::Finish(Err(message)) => message,
        other => panic!("not a failure: {:?}", other),
    }
}

#[test]
fn search_goes_through_all_steps() {
    for (language, expected) in [
        (Language::Chinese, "Language=804"),
        (Language::English, "Language=409"),
        (Language::Japanese, "Language=411"),
    ] {
        match select_voice(language, VoiceEvent::Created(Ok(()))) {
            VoiceStep::SetCategory { category } => assert_eq!(category, voices_category()),
            other => panic!("{:?}", other),
        }
        match select_voice(language, VoiceEvent::CategorySet(Ok(()))) {
            VoiceStep::Enumerate { attribute } => assert_eq!(attribute, expected),
            other => panic!("{:?}", other),
        }
        let step = select_voice(language, VoiceEvent::Enumerated(Ok(())));
        assert!(matches!(step, VoiceStep::Fetch));
        let token = FetchedToken {
            count: 1,
            present: true,
        };
        let step = select_voice(language, VoiceEvent::Fetched(Ok(token)));
        assert!(matches!(step, VoiceStep::Apply));
        let step = select_voice(language, VoiceEvent::Applied(Ok(())));
        assert!(matches!(step, VoiceStep::Finish(Ok(()))));
    }
}

#[test]
fn voices_are_listed_in_the_registry() {
    assert_eq!(
        voices_category(),
        r"HKEY_LOCAL_MACHINE\SOFTWARE\Microsoft\Speech\Voices"
    );
}

#[test]
fn failures_say_what_went_wrong() {
    let error = || Err("0x80".to_owned());
    assert_eq!(
        failure(select_voice(Language::English, VoiceEvent::Created(error()))),
        "语音合成不可用: 0x80"
    );
    assert_eq!(
        failure(select_voice(Language::English, VoiceEvent::CategorySet(error()))),
        "语音合成不可用: 0x80"
    );
    assert_eq!(
        failure(select_voice(Language::Japanese, VoiceEvent::Enumerated(error()))),
        "没有找到日语的语音包（枚举失败: 0x80）"
    );
    assert_eq!(
        failure(select_voice(
            Language::English,
            VoiceEvent::Fetched(Err("0x80".to_owned()))
        )),
        "没有找到英语的语音包（枚举失败: 0x80"
    );
    assert_eq!(
        failure(select_voice(Language::Chinese, VoiceEvent::Applied(error()))),
        "切换中文音色失败: 0x80"
    );
}

#[test]
fn a_missing_voice_is_named() {
    for (count, present) in [(0, false), (0, true), (1, false)] {
        let token = FetchedToken { count, present };
        assert_eq!(
            failure(select_voice(Language::Chinese, VoiceEvent::Fetched(Ok(token)))),
            "没有找到中文的语音包，请在系统设置 → 时间和语言 → 语音里添加"
        );
    }
}
