use writeflow_studio::json::{decode_tags, decode_tags_or_none, encode_tags};

#[test]
fn tags_are_written_as_a_json_array() {
    assert_eq!(encode_tags(&vec![]), "[]");
    assert_eq!(encode_tags(&vec!["a".to_string()]), "[\"a\"]");
    assert_eq!(
        encode_tags(&vec!["a b".to_string(), "q\"uote".to_string(), "new\nline".to_string()]),
        "[\"a b\",\"q\\\"uote\",\"new\\nline\"]"
    );
}

#[test]
fn tags_are_read_from_a_json_array() {
    assert_eq!(decode_tags("[]"), Some(vec![]));
    assert_eq!(decode_tags(" [ \"a\" , \"\\u0062\" ] "), Some(vec!["a".to_string(), "b".to_string()]));
    assert_eq!(decode_tags("[\"a\",\"b\"]"), Some(vec!["a".to_string(), "b".to_string()]));
}

#[test]
fn other_texts_are_no_tags() {
    assert_eq!(decode_tags(""), None);
    assert_eq!(decode_tags("[1,2]"), None);
    assert_eq!(decode_tags("{\"a\":1}"), None);
    assert_eq!(decode_tags("[\"a\""), None);
    assert_eq!(decode_tags("[\"a\"] x"), None);
    assert_eq!(decode_tags("null"), None);
}

#[test]
fn unreadable_tags_count_as_none() {
    assert_eq!(decode_tags_or_none("nonsense"), Vec::<String>::new());
    assert_eq!(decode_tags_or_none("[\"x\"]"), vec!["x".to_string()]);
}

#[test]
fn written_tags_are_read_back() {
    let tags = vec!["plain".to_string(), "üñí".to_string(), "\\slash\"".to_string(), String::new()];
    assert_eq!(decode_tags(&encode_tags(&tags)), Some(tags));
}
