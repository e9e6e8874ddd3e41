//! Choosing the voice of a language: a search through the installed voices,
//! one step at a time, that ends with the voice set or with the reason why not.

use vstd::prelude::*;

use crate::speech::Language;

verus! {

/// The first token that the enumeration handed out.
#[derive(Debug, Clone, Copy, PartialEq, Eq, Structural)]
pub struct FetchedToken {
    /// How many tokens the call reports.
    pub count: u32,
    /// Whether there is a token in the result.
    pub present: bool,
}

/// How a step of the search went; a failure carries the system's own words.
#[derive(Debug)]
pub enum VoiceEvent {
    /// The object for the voices was created.
    Created(Result<(), String>),
    /// It was set to the category of voices.
    CategorySet(Result<(), String>),
    /// The voices of the language were enumerated.
    Enumerated(Result<(), String>),
    /// One of them was asked for.
    Fetched(Result<FetchedToken, String>),
    /// It was made the voice to speak with.
    Applied(Result<(), String>),
}

/// What the search does next.
#[derive(Debug)]
pub enum VoiceStep {
    /// Create the object for the voices.
    Create,
    /// Set it to this category.
    SetCategory { category: &'static str },
    /// Enumerate the voices with this attribute.
    Enumerate { attribute: &'static str },
    /// Ask for the first of them.
    Fetch,
    /// Make it the voice to speak with.
    Apply,
    /// The search is over.
    Finish(Result<(), String>),
}

#[verifier::ext_equal]
pub enum VoiceStepView {
    Create,
    SetCategory { category: Seq<char> },
    Enumerate { attribute: Seq<char> },
    Fetch,
    Apply,
    Finish(Result<(), Seq<char>>),
}

impl View for VoiceStep {
    type V = VoiceStepView;

    open spec fn view(&self) -> VoiceStepView {
        match *self {
            VoiceStep::Create => VoiceStepView::Create,
            VoiceStep::SetCategory { category } => VoiceStepView::SetCategory {
                category: category@,
            },
            VoiceStep::Enumerate { attribute } => VoiceStepView::Enumerate {
                attribute: attribute@,
            },
            VoiceStep::Fetch => VoiceStepView::Fetch,
            VoiceStep::Apply => VoiceStepView::Apply,
            VoiceStep::Finish(Ok(())) => VoiceStepView::Finish(Ok(())),
            VoiceStep::Finish(Err(message)) => VoiceStepView::Finish(Err(message@)),
        }
    }
}

/// Where the installed voices are listed: `SPCAT_VOICES` of `sapi.h`.
pub open spec fn category_of_voices() -> Seq<char> {
    "HKEY_LOCAL_MACHINE\\SOFTWARE\\Microsoft\\Speech\\Voices"@
}

/// Where the installed voices are listed: `SPCAT_VOICES` of `sapi.h`.
pub fn voices_category() -> (id: &'static str)
    ensures
        id@ == category_of_voices(),
{
    "HKEY_LOCAL_MACHINE\\SOFTWARE\\Microsoft\\Speech\\Voices"
}

/// The attribute that a voice of the language has: its locale id, in hexadecimal.
pub open spec fn attribute_of(language: Language) -> Seq<char> {
    match language {
        Language::Chinese => "Language=804"@,
        Language::English => "Language=409"@,
        Language::Japanese => "Language=411"@,
    }
}

/// What the language is called in messages.
pub open spec fn name_of(language: Language) -> Seq<char> {
    match language {
        Language::Chinese => "中文"@,
        Language::English => "英语"@,
        Language::Japanese => "日语"@,
    }
}

/// The step that follows an event.
pub open spec fn step_after(language: Language, event: VoiceEvent) -> VoiceStepView {
    match event {
        VoiceEvent::Created(Ok(())) => VoiceStepView::SetCategory {
            category: category_of_voices(),
        },
        VoiceEvent::Created(Err(error)) | VoiceEvent::CategorySet(Err(error)) => {
            VoiceStepView::Finish(Err("语音合成不可用: "@ + error@))
        },
        VoiceEvent::CategorySet(Ok(())) => VoiceStepView::Enumerate {
            attribute: attribute_of(language),
        },
        VoiceEvent::Enumerated(Ok(())) => VoiceStepView::Fetch,
        VoiceEvent::Enumerated(Err(error)) => VoiceStepView::Finish(
            Err(
                "没有找到"@ + name_of(language) + "的语音包（枚举失败: "@ + error@
                    + "）"@,
            ),
        ),
        VoiceEvent::Fetched(Ok(token)) => if token.count == 0 || !token.present {
            VoiceStepView::Finish(
                Err(
                    "没有找到"@ + name_of(language)
                        + "的语音包，请在系统设置 → 时间和语言 → 语音里添加"@,
                ),
            )
        } else {
            VoiceStepView::Apply
        },
        VoiceEvent::Fetched(Err(error)) => VoiceStepView::Finish(
            Err("没有找到"@ + name_of(language) + "的语音包（枚举失败: "@ + error@),
        ),
        VoiceEvent::Applied(Ok(())) => VoiceStepView::Finish(Ok(())),
        VoiceEvent::Applied(Err(error)) => VoiceStepView::Finish(
            Err("切换"@ + name_of(language) + "音色失败: "@ + error@),
        ),
    }
}

fn attribute(language: Language) -> (attribute: &'static str)
    ensures
        attribute@ == attribute_of(language),
{
    match language {
        Language::Chinese => "Language=804",
        Language::English => "Language=409",
        Language::Japanese => "Language=411",
    }
}

fn name(language: Language) -> (name: &'static str)
    ensures
        name@ == name_of(language),
{
    match language {
        Language::Chinese => "中文",
        Language::English => "英语",
        Language::Japanese => "日语",
    }
}

/// The next step of the search for a voice of `language`. It starts with
/// `VoiceStep::Create`.
pub fn select_voice(language: Language, event: VoiceEvent) -> (step: VoiceStep)
    ensures
        step@ == step_after(language, event),
{
    match event {
        VoiceEvent::Created(Ok(())) => VoiceStep::SetCategory { category: voices_category() },
        VoiceEvent::Created(Err(error)) => unavailable(error.as_str()),
        VoiceEvent::CategorySet(Ok(())) => VoiceStep::Enumerate { attribute: attribute(language) },
        VoiceEvent::CategorySet(Err(error)) => unavailable(error.as_str()),
        VoiceEvent::Enumerated(Ok(())) => VoiceStep::Fetch,
        VoiceEvent::Enumerated(Err(error)) => {
            let mut message = "没有找到".to_owned();
            message.append(name(language));
            message.append("的语音包（枚举失败: ");
            message.append(error.as_str());
            message.append("）");
            VoiceStep::Finish(Err(message))
        },
        VoiceEvent::Fetched(Ok(token)) => if token.count == 0 || !token.present {
            let mut message = "没有找到".to_owned();
            message.append(name(language));
            message.append("的语音包，请在系统设置 → 时间和语言 → 语音里添加");
            VoiceStep::Finish(Err(message))
        } else {
            VoiceStep::Apply
        },
        VoiceEvent::Fetched(Err(error)) => {
            let mut message = "没有找到".to_owned();
            message.append(name(language));
            message.append("的语音包（枚举失败: ");
            message.append(error.as_str());
            VoiceStep::Finish(Err(message))
        },
        VoiceEvent::Applied(Ok(())) => VoiceStep::Finish(Ok(())),
        VoiceEvent::Applied(Err(error)) => {
            let mut message = "切换".to_owned();
            message.append(name(language));
            message.append("音色失败: ");
            message.append(error.as_str());
            VoiceStep::Finish(Err(message))
        },
    }
}

fn unavailable(error: &str) -> (step: VoiceStep)
    ensures
        step@ == VoiceStepView::Finish(Err("语音合成不可用: "@ + error@)),
{
    let mut message = "语音合成不可用: ".to_owned();
    message.append(error);
    VoiceStep::Finish(Err(message))
}

/// No two languages ask for the same voice.
pub proof fn law_languages_have_distinct_voices(a: Language, b: Language)
    requires
        attribute_of(a) == attribute_of(b),
    ensures
        a == b,
{
    reveal_strlit("Language=804");
    reveal_strlit("Language=409");
    reveal_strlit("Language=411");
    assert("Language=804"@[9] == '8');
    assert("Language=409"@[10] == '0');
    assert("Language=411"@[10] == '1');
}

impl VoiceStepView {
    /// Whether `event` is an answer to this step.
    pub open spec fn expects(self, event: VoiceEvent) -> bool {
        match self {
            VoiceStepView::Create => event is Created,
            VoiceStepView::SetCategory { .. } => event is CategorySet,
            VoiceStepView::Enumerate { .. } => event is Enumerated,
            VoiceStepView::Fetch => event is Fetched,
            VoiceStepView::Apply => event is Applied,
            VoiceStepView::Finish(_) => false,
        }
    }
}

/// The step that stands after the first `n` of `events`.
pub open spec fn search_step(language: Language, events: Seq<VoiceEvent>, n: int) -> VoiceStepView {
    if n == 0 {
        VoiceStepView::Create
    } else {
        step_after(language, events[n - 1])
    }
}

/// Whether each of `events` answers the step that stands when it comes.
pub open spec fn is_search(language: Language, events: Seq<VoiceEvent>) -> bool {
    forall|i: int|
        0 <= i < events.len() ==> search_step(language, events, i).expects(#[trigger] events[i])
}

/// Whether `events` are the five calls of a search, all of which went well, and
/// a voice was found.
pub open spec fn all_went_well(events: Seq<VoiceEvent>) -> bool {
    &&& events.len() == 5
    &&& events[0] matches VoiceEvent::Created(Ok(_))
    &&& events[1] matches VoiceEvent::CategorySet(Ok(_))
    &&& events[2] matches VoiceEvent::Enumerated(Ok(_))
    &&& events[3] matches VoiceEvent::Fetched(Ok(token)) && token.count != 0 && token.present
    &&& events[4] matches VoiceEvent::Applied(Ok(_))
}

/// A search ends well exactly when all five calls went well and a voice was
/// found.
pub proof fn law_search_ends_well_when_all_went_well(
    language: Language,
    events: Seq<VoiceEvent>,
)
    ensures
        all_went_well(events) <==> is_search(language, events) && (search_step(
            language,
            events,
            events.len() as int,
        ) matches VoiceStepView::Finish(Ok(_))),
{
    if is_search(language, events) {
        lemma_search_order(language, events);
    }
    if all_went_well(events) {
        assert forall|i: int| 0 <= i < events.len() implies search_step(
            language,
            events,
            i,
        ).expects(#[trigger] events[i]) by {
            assert(i == 0 || i == 1 || i == 2 || i == 3 || i == 4);
        }
    }
}

/// A search makes at most five calls, in order: it looks in the category of
/// voices, for the attribute of the language, and asks for a voice to be applied
/// once at most, only when one was found. In one that ends well it asks exactly
/// once.
pub proof fn law_search_applies_one_voice(language: Language, events: Seq<VoiceEvent>)
    requires
        is_search(language, events),
    ensures
        events.len() <= 5,
        events.len() > 1 ==> search_step(language, events, 1) == (VoiceStepView::SetCategory {
            category: category_of_voices(),
        }),
        events.len() > 2 ==> search_step(language, events, 2) == (VoiceStepView::Enumerate {
            attribute: attribute_of(language),
        }),
        forall|n: int|
            0 <= n <= events.len() && (#[trigger] search_step(language, events, n) is Apply) ==> n
                == 4 && (events[3] matches VoiceEvent::Fetched(Ok(token)) && token.count != 0
                && token.present),
        all_went_well(events) ==> search_step(language, events, 4) is Apply,
{
    lemma_search_order(language, events);
    assert forall|n: int|
        0 <= n <= events.len() && (#[trigger] search_step(language, events, n) is Apply) implies n
        == 4 && (events[3] matches VoiceEvent::Fetched(Ok(token)) && token.count != 0
        && token.present) by {
        assert(n == 0 || n == 1 || n == 2 || n == 3 || n == 4 || n == 5);
    }
}

/// The calls of a search come in one order, each after the one before went well.
proof fn lemma_search_order(language: Language, events: Seq<VoiceEvent>)
    requires
        is_search(language, events),
    ensures
        events.len() <= 5,
        events.len() > 0 ==> events[0] is Created,
        events.len() > 1 ==> (events[0] matches VoiceEvent::Created(Ok(_)))
            && events[1] is CategorySet,
        events.len() > 2 ==> (events[1] matches VoiceEvent::CategorySet(Ok(_)))
            && events[2] is Enumerated,
        events.len() > 3 ==> (events[2] matches VoiceEvent::Enumerated(Ok(_)))
            && events[3] is Fetched,
        events.len() > 4 ==> (events[3] matches VoiceEvent::Fetched(Ok(token)) && token.count != 0
            && token.present) && events[4] is Applied,
{
    if events.len() > 5 {
        assert(search_step(language, events, 5).expects(events[5]));
    }
}

/// A call that went well leads to the next one: from the object to the registry
/// key of the voices, to the voices of the locale (804 Chinese, 409 English, 411
/// Japanese), to the first of them, to using it, to the end.
pub proof fn law_calls_follow_one_another(language: Language, token: FetchedToken)
    ensures
        step_after(language, VoiceEvent::Created(Ok(()))) == (VoiceStepView::SetCategory {
            category: "HKEY_LOCAL_MACHINE\\SOFTWARE\\Microsoft\\Speech\\Voices"@,
        }),
        step_after(language, VoiceEvent::CategorySet(Ok(()))) == (VoiceStepView::Enumerate {
            attribute: if language == Language::Chinese {
                "Language=804"@
            } else if language == Language::English {
                "Language=409"@
            } else {
                "Language=411"@
            },
        }),
        step_after(language, VoiceEvent::Enumerated(Ok(()))) == VoiceStepView::Fetch,
        token.count > 0 && token.present ==> step_after(language, VoiceEvent::Fetched(Ok(token)))
            == VoiceStepView::Apply,
        step_after(language, VoiceEvent::Applied(Ok(()))) == VoiceStepView::Finish(Ok(())),
{
}

/// A call that failed ends the search, and the message names what failed, the
/// language where one was looked for, and the system's own words.
pub proof fn law_failure_names_its_cause(language: Language, error: String)
    ensures
        ({
            let name = if language == Language::Chinese {
                "中文"@
            } else if language == Language::English {
                "英语"@
            } else {
                "日语"@
            };
            let words = error@;
            &&& step_after(language, VoiceEvent::Created(Err(error))) == VoiceStepView::Finish(
                Err("语音合成不可用: "@ + words),
            )
            &&& step_after(language, VoiceEvent::CategorySet(Err(error)))
                == VoiceStepView::Finish(Err("语音合成不可用: "@ + words))
            &&& step_after(language, VoiceEvent::Enumerated(Err(error))) == VoiceStepView::Finish(
                Err("没有找到"@ + name + "的语音包（枚举失败: "@ + words + "）"@),
            )
            &&& step_after(language, VoiceEvent::Fetched(Err(error))) == VoiceStepView::Finish(
                Err("没有找到"@ + name + "的语音包（枚举失败: "@ + words),
            )
            &&& step_after(language, VoiceEvent::Applied(Err(error))) == VoiceStepView::Finish(
                Err("切换"@ + name + "音色失败: "@ + words),
            )
        }),
{
}

/// A fetch that gave no voice, by its count or by its result, ends the search
/// and says where a voice of the language is to be had.
pub proof fn law_missing_voice_is_named(language: Language, token: FetchedToken)
    requires
        token.count == 0 || !token.present,
    ensures
        ({
            let name = if language == Language::Chinese {
                "中文"@
            } else if language == Language::English {
                "英语"@
            } else {
                "日语"@
            };
            step_after(language, VoiceEvent::Fetched(Ok(token))) == VoiceStepView::Finish(
                Err(
                    "没有找到"@ + name
                        + "的语音包，请在系统设置 → 时间和语言 → 语音里添加"@,
                ),
            )
        }),
{
}

/// The model of a step is of the same kind and holds what the step holds.
pub proof fn law_voice_step_is_modelled_as_it_is(step: VoiceStep)
    ensures
        match step {
            VoiceStep::Create => step@ is Create,
            VoiceStep::SetCategory { category } => step@ == (VoiceStepView::SetCategory {
                category: category@,
            }),
            VoiceStep::Enumerate { attribute } => step@ == (VoiceStepView::Enumerate {
                attribute: attribute@,
            }),
            VoiceStep::Fetch => step@ is Fetch,
            VoiceStep::Apply => step@ is Apply,
            VoiceStep::Finish(Ok(_)) => step@ == VoiceStepView::Finish(Ok(())),
            VoiceStep::Finish(Err(message)) => step@ == VoiceStepView::Finish(Err(message@)),
        },
{
}

} // verus!
