use writeflow_studio::text::{char_is_whitespace, count_text_words, reading_time_for, text_stats, TextStats};

#[test]
fn whitespace_agrees_with_the_standard_library() {
    let mut code: u32 = 0;
    while code <= 0x10FFFF {
        if let Some(c) = char::from_u32(code) {
            assert_eq!(char_is_whitespace(c), c.is_whitespace(), "U+{:04X}", code);
        }
        code += 1;
    }
}

#[test]
fn words_are_whitespace_delimited_tokens() {
    let texts = [
        "",
        " ",
        "one",
        "  leading and trailing  ",
        "tabs\tand\nnewlines\r\nmixed",
        "non\u{00A0}breaking\u{3000}wide\u{2003}em",
        "标点 符号，没有空格",
        "a b c d e f g",
        "\u{0085}next\u{2028}line\u{2029}",
    ];
    for text in texts {
        assert_eq!(count_text_words(text), text.split_whitespace().count(), "{:?}", text);
    }
}

#[test]
fn reading_time_rounds_up() {
    assert_eq!(reading_time_for(0), 0);
    assert_eq!(reading_time_for(1), 1);
    assert_eq!(reading_time_for(199), 1);
    assert_eq!(reading_time_for(200), 1);
    assert_eq!(reading_time_for(201), 2);
    assert_eq!(reading_time_for(400), 2);
    assert_eq!(reading_time_for(401), 3);
    assert_eq!(reading_time_for(u32::MAX), 21_474_837);
}

#[test]
fn stats_of_a_short_text() {
    let stats = text_stats("héllo wörld  again");
    assert_eq!(stats, TextStats { word_count: 3, char_count: 18, reading_time: 1 });
    assert_eq!(text_stats(""), TextStats { word_count: 0, char_count: 0, reading_time: 0 });
}

#[test]
fn stats_of_a_long_text() {
    let text = "word ".repeat(1000);
    let stats = text_stats(&text);
    assert_eq!(stats.word_count, 1000);
    assert_eq!(stats.char_count, 5000);
    assert_eq!(stats.reading_time, 5);
}
