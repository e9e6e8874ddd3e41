use qingjian::key::{
    key_event, load_combo, load_speak_combo, preserved_key, ComboModifiers, KeyCombo, KeyEvent,
    KeyModifiers, PreservedKey, Shortcut,
};

fn combo(key: char, control: bool, option: bool, shift: bool, command: bool) -> KeyCombo {
    KeyCombo {
        key,
        modifiers: ComboModifiers {
            control,
            option,
            shift,
            command,
        },
    }
}

#[test]
fn preserved_key_holds_modifier_bits_and_upper_case() {
    let cases = [
        (combo('t', false, false, false, false), 'T', 0),
        (combo('t', false, true, false, false), 'T', 1),
        (combo('t', true, false, false, false), 'T', 2),
        (combo('z', false, false, true, false), 'Z', 4),
        (combo('a', false, false, false, true), 'A', 8),
        (combo('r', true, true, false, false), 'R', 3),
        (combo('R', true, true, true, true), 'R', 15),
        (combo('1', false, true, true, false), '1', 5),
        (combo('é', true, false, false, true), 'é', 10),
    ];
    for (combo, code, modifiers) in cases {
        assert_eq!(
            preserved_key(combo),
            PreservedKey {
                code: code as u32,
                modifiers
            }
        );
    }
}

#[test]
fn preserved_keys_differ_with_their_modifiers() {
    let mut seen = Vec::new();
    for bits in 0..16 {
        let key = preserved_key(combo(
            'k',
            bits & 1 != 0,
            bits & 2 != 0,
            bits & 4 != 0,
            bits & 8 != 0,
        ));
        assert!(!seen.contains(&key));
        seen.push(key);
    }
}

#[test]
fn key_event_reports_the_combination() {
    let event = key_event(combo('r', true, true, false, false), true);
    assert_eq!(
        event,
        KeyEvent {
            code: 'R' as u32,
            character: Some('r'),
            modifiers: KeyModifiers {
                ctrl: true,
                shift: false,
                alt: true,
                win: false,
                caps: false,
                english_mode: true,
            },
        }
    );
    let event = key_event(combo('7', false, false, true, true), false);
    assert_eq!(event.code, 55);
    assert!(event.modifiers.shift && event.modifiers.win);
    assert!(!event.modifiers.ctrl && !event.modifiers.alt && !event.modifiers.english_mode);
}

#[test]
fn key_event_matches_its_combination_only() {
    let speak = KeyCombo::speak_default();
    let translate = KeyCombo::translate_default();
    for english_mode in [false, true] {
        let event = key_event(speak, english_mode);
        assert!(speak.matches(&event));
        assert!(!translate.matches(&event));
    }
}

#[test]
fn caps_lock_does_not_matter_but_held_keys_do() {
    let speak = KeyCombo::speak_default();
    let mut event = key_event(speak, false);
    event.modifiers.caps = true;
    assert!(speak.matches(&event));
    event.modifiers.shift = true;
    assert!(!speak.matches(&event));
    event.modifiers.shift = false;
    event.character = Some('R');
    assert!(!speak.matches(&event));
    event.character = None;
    assert!(!speak.matches(&event));
}

#[test]
fn combinations_fall_back_to_their_defaults() {
    let one = combo('j', false, true, false, false);
    let two = combo('k', false, true, false, false);
    let both = Some(Shortcut {
        translate_selection: one,
        speak_translation: two,
    });
    assert_eq!(load_combo(both), one);
    assert_eq!(load_speak_combo(both), two);
    assert_eq!(load_combo(None), combo('t', true, true, false, false));
    assert_eq!(load_speak_combo(None), combo('r', true, true, false, false));
}

#[test]
fn a_colliding_combination_gives_way_to_the_default() {
    let taken = combo('j', false, true, false, false);
    let colliding = Shortcut {
        translate_selection: taken,
        speak_translation: taken,
    };
    assert_eq!(colliding.speak_keys(), KeyCombo::speak_default());
    assert_eq!(load_combo(Some(colliding)), taken);
    assert_eq!(load_speak_combo(Some(colliding)), KeyCombo::speak_default());
}
