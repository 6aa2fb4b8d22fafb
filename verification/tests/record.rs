use pastebin::record::Record;

fn bare(content: &str, unlisted: bool) -> Record {
    Record { title: None, content: content.to_string(), author: None, unlisted, exp: None }
}

fn full() -> Record {
    Record {
        title: Some("T".to_string()),
        content: "C".to_string(),
        author: Some("A".to_string()),
        unlisted: true,
        exp: Some("2015-05-15T00:00:00Z".to_string()),
    }
}

#[test]
fn text_of_a_record_without_optional_fields() {
    assert_eq!(bare("Hello", false).to_text(), r#"{"content":"Hello","unlisted":false}"#);
    assert_eq!(bare("", true).to_text(), r#"{"content":"","unlisted":true}"#);
}

#[test]
fn text_of_a_record_with_every_field() {
    assert_eq!(
        full().to_text(),
        r#"{"title":"T","content":"C","author":"A","unlisted":true,"exp":"2015-05-15T00:00:00Z"}"#
    );
}

#[test]
fn text_of_a_record_with_some_fields() {
    let mut record = bare("x", false);
    record.author = Some("me".to_string());
    assert_eq!(record.to_text(), r#"{"content":"x","author":"me","unlisted":false}"#);
    let mut record = bare("x", false);
    record.title = Some("".to_string());
    assert_eq!(record.to_text(), r#"{"title":"","content":"x","unlisted":false}"#);
    let mut record = bare("x", false);
    record.exp = Some("soon".to_string());
    assert_eq!(record.to_text(), r#"{"content":"x","unlisted":false,"exp":"soon"}"#);
}

#[test]
fn characters_that_are_written_with_a_backslash() {
    let record = bare("a\"b\\c\u{8}d\u{c}e\nf\rg\th", false);
    assert_eq!(
        record.to_text(),
        r#"{"content":"a\"b\\c\bd\fe\nf\rg\th","unlisted":false}"#
    );
    let record = bare("\u{0}\u{1}\u{b}\u{e}\u{1f}", false);
    assert_eq!(
        record.to_text(),
        r#"{"content":"\u0000\u0001\u000b\u000e\u001f","unlisted":false}"#
    );
}

#[test]
fn characters_that_stand_for_themselves() {
    let record = bare(" /'\u{7f}\u{e9}\u{4e2d}\u{1f600}<>&", false);
    assert_eq!(
        record.to_text(),
        "{\"content\":\" /'\u{7f}\u{e9}\u{4e2d}\u{1f600}<>&\",\"unlisted\":false}"
    );
}

#[test]
fn quoting_agrees_with_serde_json() {
    let mut every = String::new();
    for code in 0u32..0x200 {
        every.push(char::from_u32(code).unwrap());
    }
    every.push('\u{d7ff}');
    every.push('\u{e000}');
    every.push('\u{10ffff}');
    let samples = ["", "Hello", "a\"b", "\\", "line\nbreak", "\u{1f}\u{20}", every.as_str()];
    for sample in samples {
        let expected = format!(
            "{{\"content\":{},\"unlisted\":false}}",
            serde_json::to_string(sample).unwrap()
        );
        assert_eq!(bare(sample, false).to_text(), expected);
    }
}

#[test]
fn text_is_read_by_serde_json_as_the_same_fields() {
    let mut record = full();
    record.content = "a\"b\\c\n\u{1}\u{e9}".to_string();
    let value: serde_json::Value = serde_json::from_str(&record.to_text()).unwrap();
    let object = value.as_object().unwrap();
    assert_eq!(object.len(), 5);
    assert_eq!(object["title"].as_str(), Some("T"));
    assert_eq!(object["content"].as_str(), Some("a\"b\\c\n\u{1}\u{e9}"));
    assert_eq!(object["author"].as_str(), Some("A"));
    assert_eq!(object["unlisted"].as_bool(), Some(true));
    assert_eq!(object["exp"].as_str(), Some("2015-05-15T00:00:00Z"));

    let value: serde_json::Value = serde_json::from_str(&bare("x", false).to_text()).unwrap();
    let object = value.as_object().unwrap();
    assert_eq!(object.len(), 2);
    assert!(!object.contains_key("title"));
    assert!(!object.contains_key("author"));
    assert!(!object.contains_key("exp"));
}

#[test]
fn reading_gives_back_what_was_written() {
    let mut every = String::new();
    for code in 0u32..0x200 {
        every.push(char::from_u32(code).unwrap());
    }
    let mut records = vec![bare("Hello", false), bare("", true), full()];
    records.push(bare(&every, true));
    let mut tricky = full();
    tricky.title = Some("\",\"content\":\"".to_string());
    tricky.author = Some("}".to_string());
    tricky.content = "\\\"".to_string();
    tricky.exp = Some("\\u0041".to_string());
    records.push(tricky);
    for record in records {
        assert_eq!(Record::from_text(&record.to_text()), Some(record));
    }
}

#[test]
fn reading_known_texts() {
    assert_eq!(
        Record::from_text(r#"{"content":"Hello","unlisted":false}"#),
        Some(bare("Hello", false))
    );
    assert_eq!(
        Record::from_text(
            r#"{"title":"T","content":"C","author":"A","unlisted":true,"exp":"2015-05-15T00:00:00Z"}"#
        ),
        Some(full())
    );
    assert_eq!(
        Record::from_text(r#"{"content":"a\"b\\c\bd\fe\nf\rg\th\u0000\u001f","unlisted":true}"#),
        Some(bare("a\"b\\c\u{8}d\u{c}e\nf\rg\th\u{0}\u{1f}", true))
    );
}

#[test]
fn reading_refuses_what_writing_never_produces() {
    let refused = [
        "",
        "{}",
        "null",
        "Hello",
        r#"{"content":"Hello"}"#,
        r#"{"unlisted":false}"#,
        r#"{"content":"Hello","unlisted":false"#,
        r#"{"content":"Hello","unlisted":false}}"#,
        r#"{"content":"Hello","unlisted":false} "#,
        r#" {"content":"Hello","unlisted":false}"#,
        r#"{"content": "Hello","unlisted":false}"#,
        r#"{"content":"Hello", "unlisted":false}"#,
        r#"{"unlisted":false,"content":"Hello"}"#,
        r#"{"content":"Hello","unlisted":0}"#,
        r#"{"content":"Hello","unlisted":"false"}"#,
        r#"{"content":"Hello","unlisted":False}"#,
        r#"{"content":7,"unlisted":false}"#,
        r#"{"content":"Hello,"unlisted":false}"#,
        r#"{"title":null,"content":"Hello","unlisted":false}"#,
        r#"{"content":"Hello","author":null,"unlisted":false}"#,
        r#"{"content":"Hello","unlisted":false,"exp":null}"#,
        r#"{"content":"Hello","unlisted":false,"exp":7}"#,
        r#"{"content":"Hello","unlisted":false,"more":"x"}"#,
        r#"{"content":"Hello","title":"T","unlisted":false}"#,
        r#"{"author":"A","content":"Hello","unlisted":false}"#,
        r#"{"title":"T","title":"T","content":"Hello","unlisted":false}"#,
        r#"{"content":"a\/b","unlisted":false}"#,
        r#"{"content":"\u0041","unlisted":false}"#,
        r#"{"content":"\u001F","unlisted":false}"#,
        r#"{"content":"\u000a","unlisted":false}"#,
        r#"{"content":"\u0020","unlisted":false}"#,
        r#"{"content":"\u00","unlisted":false}"#,
        r#"{"content":"\x","unlisted":false}"#,
        r#"{"content":"\","unlisted":false}"#,
        "{\"content\":\"a\nb\",\"unlisted\":false}",
        "{\"content\":\"a\tb\",\"unlisted\":false}",
    ];
    for text in refused {
        assert_eq!(Record::from_text(text), None, "{}", text);
    }
}
