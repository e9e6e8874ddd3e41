use qingjian::last_sentence;

#[test]
fn last_sentence_takes_text_after_latest_ender() {
    assert_eq!(
        last_sentence("你好世界。今天天气不错"),
        Some("今天天气不错")
    );
    assert_eq!(last_sentence("你好。今天！"), Some("今天"));
    assert_eq!(last_sentence("第一句。第二句；第三句"), Some("第三句"));
}

#[test]
fn last_sentence_without_ender_is_whole_text() {
    assert_eq!(last_sentence("你好"), Some("你好"));
    assert_eq!(last_sentence("你好。"), Some("你好"));
    assert_eq!(last_sentence("价格3.5元"), Some("价格3.5元"));
    assert_eq!(last_sentence("a.cc 也是路径"), Some("a.cc 也是路径"));
}

#[test]
fn last_sentence_empty_or_pure_punctuation_is_none() {
    assert_eq!(last_sentence(""), None);
    assert_eq!(last_sentence("。。。"), None);
    assert_eq!(last_sentence("  \n "), None);
    assert_eq!(last_sentence("\n换行后的"), Some("换行后的"));
}

#[test]
fn full_stop_ends_a_sentence_before_white_space() {
    assert_eq!(last_sentence("First. Second"), Some(" Second"));
    assert_eq!(last_sentence("First.\u{3000}Second."), Some("\u{3000}Second"));
    assert_eq!(last_sentence("v1.2.3"), Some("v1.2.3"));
    assert_eq!(last_sentence("wait... what"), Some(" what"));
    assert_eq!(last_sentence("..."), None);
}

#[test]
fn every_sentence_end_is_recognised() {
    for end in ['。', '！', '？', '；', '…', '!', '?', '\n'] {
        let text = format!("a{}b{}", end, end);
        assert_eq!(last_sentence(&text), Some("b"));
    }
    assert_eq!(last_sentence("a;b"), Some("a;b"));
    assert_eq!(last_sentence("a，b"), Some("a，b"));
    assert_eq!(last_sentence("a b"), Some("a b"));
}

#[test]
fn trailing_characters_are_white_space_and_ends() {
    for c in '\0'..=char::MAX {
        let code = c as u32;
        let white = matches!(
            code,
            0x9..=0xd | 0x20 | 0x85 | 0xa0 | 0x1680 | 0x2000..=0x200a | 0x2028 | 0x2029 | 0x202f
                | 0x205f | 0x3000
        );
        let trailing = white || ".。！？；…!?".contains(c);
        let text = format!("x{}", c);
        let expected = if trailing { "x" } else { text.as_str() };
        assert_eq!(last_sentence(&text), Some(expected), "U+{:04X}", code);
    }
}

#[test]
fn full_stop_before_each_character() {
    for c in '\0'..=char::MAX {
        let text = format!("x.{}y", c);
        let expected = if "。！？；…!?\n".contains(c) {
            "y"
        } else if c.is_whitespace() {
            &text[2..]
        } else {
            text.as_str()
        };
        assert_eq!(last_sentence(&text), Some(expected));
    }
}

#[test]
fn last_sentence_of_a_last_sentence_is_itself() {
    for text in ["你好。今天！", "First. Second", "\n换行后的", "价格3.5元", "a!b?c。 "] {
        let sentence = last_sentence(text).unwrap();
        assert_eq!(last_sentence(sentence), Some(sentence));
    }
}

#[test]
fn earlier_sentences_do_not_matter() {
    for before in ["", "甲。", "甲！乙？", "a. ", "3.5\n"] {
        let text = format!("{}；后面的话…", before);
        assert_eq!(last_sentence(&text), Some("后面的话"));
    }
}
