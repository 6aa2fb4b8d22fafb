use pastebin::errors::KvError;
use pastebin::expiry::Timestamp;
use pastebin::members::Member;
use pastebin::paste::StoredPaste;
use pastebin::record::Record;

fn text(s: &str) -> Member {
    Member::Text(s.to_string())
}

fn members(list: &[(&str, Member)]) -> Vec<(String, Member)> {
    list.iter().map(|(name, held)| (name.to_string(), held.clone())).collect()
}

fn hello() -> StoredPaste {
    StoredPaste {
        title: None,
        content: "Hello".to_string(),
        author: None,
        unlisted: false,
        exp: None,
    }
}

#[test]
fn record_of_members_with_every_field() {
    let list = members(&[
        ("author", text("A")),
        ("content", text("C")),
        ("exp", text("soon")),
        ("title", text("T")),
        ("unlisted", Member::Bool(true)),
    ]);
    assert_eq!(
        Record::from_members(&list),
        Some(Record {
            title: Some("T".to_string()),
            content: "C".to_string(),
            author: Some("A".to_string()),
            unlisted: true,
            exp: Some("soon".to_string()),
        })
    );
}

#[test]
fn absent_and_null_fields_are_none() {
    let bare = Record {
        title: None,
        content: "C".to_string(),
        author: None,
        unlisted: false,
        exp: None,
    };
    let list = members(&[("unlisted", Member::Bool(false)), ("content", text("C"))]);
    assert_eq!(Record::from_members(&list), Some(bare.clone()));
    let list = members(&[
        ("title", Member::Null),
        ("author", Member::Null),
        ("exp", Member::Null),
        ("more", Member::Other),
        ("unlisted", Member::Bool(false)),
        ("content", text("C")),
    ]);
    assert_eq!(Record::from_members(&list), Some(bare));
}

#[test]
fn members_that_make_no_record() {
    let content = ("content", text("C"));
    let unlisted = ("unlisted", Member::Bool(false));
    assert_eq!(Record::from_members(&members(&[])), None);
    assert_eq!(Record::from_members(&members(&[content.clone()])), None);
    assert_eq!(Record::from_members(&members(&[unlisted.clone()])), None);
    for (name, held) in [
        ("content", Member::Null),
        ("content", Member::Other),
        ("content", Member::Bool(true)),
        ("unlisted", Member::Null),
        ("unlisted", text("false")),
        ("unlisted", Member::Other),
        ("title", Member::Other),
        ("title", Member::Bool(true)),
        ("author", Member::Other),
        ("exp", Member::Other),
        ("exp", Member::Bool(false)),
    ] {
        // The first member of a name is the one that counts.
        let list = members(&[(name, held), content.clone(), unlisted.clone()]);
        assert_eq!(Record::from_members(&list), None);
    }
}

#[test]
fn record_from_json() {
    assert_eq!(
        Record::from_json(r#" { "unlisted" : true , "content" : "C" , "n" : [1, {"x": 2.5}] } "#),
        Some(Record {
            title: None,
            content: "C".to_string(),
            author: None,
            unlisted: true,
            exp: None,
        })
    );
    for no_record in ["", "C", "null", "7", "[]", r#"["t","c",null,false,null]"#, "{}", "{"] {
        assert_eq!(Record::from_json(no_record), None, "{}", no_record);
    }
}

#[test]
fn decode_reads_fields_in_any_order() {
    let read = StoredPaste::decode(
        r#"{"exp":"2015-05-15T00:00:00Z","unlisted":true,"author":"A","content":"C","title":"T"}"#,
    );
    assert_eq!(
        read,
        Ok(StoredPaste {
            title: Some("T".to_string()),
            content: "C".to_string(),
            author: Some("A".to_string()),
            unlisted: true,
            exp: Some(Timestamp { secs: 1_431_648_000, nanos: 0 }),
        })
    );
    assert_eq!(StoredPaste::decode(r#"{"unlisted":false,"content":"Hello"}"#), Ok(hello()));
}

#[test]
fn decode_reads_space_between_the_fields() {
    assert_eq!(StoredPaste::decode(r#"{"content": "Hello", "unlisted": false}"#), Ok(hello()));
    assert_eq!(
        StoredPaste::decode("\n{\n\t\"content\" : \"Hello\",\r\n  \"unlisted\" : false\n}\n"),
        Ok(hello())
    );
}

#[test]
fn decode_passes_over_members_that_are_no_field() {
    assert_eq!(
        StoredPaste::decode(
            r#"{"content":"Hello","unlisted":false,"views":7,"tags":["a","b"],"meta":{"k":null}}"#
        ),
        Ok(hello())
    );
}

#[test]
fn decode_reads_null_as_an_absent_field() {
    assert_eq!(
        StoredPaste::decode(
            r#"{"title":null,"content":"Hello","author":null,"unlisted":false,"exp":null}"#
        ),
        Ok(hello())
    );
}

#[test]
fn decode_reads_every_way_of_writing_a_character() {
    let read = StoredPaste::decode(
        r#"{"content":"Hello \/ é 😀 \u000A","unlisted":false}"#,
    )
    .unwrap();
    assert_eq!(read.content, "Hello / \u{e9} \u{1f600} \n");
}

#[test]
fn decode_refuses_what_holds_no_paste() {
    for corrupt in [
        "",
        "null",
        "[]",
        "{}",
        "{",
        r#"{"content":"Hello"}"#,
        r#"{"unlisted":false}"#,
        r#"{"content":null,"unlisted":false}"#,
        r#"{"content":7,"unlisted":false}"#,
        r#"{"content":"Hello","unlisted":"false"}"#,
        r#"{"content":"Hello","unlisted":0}"#,
        r#"{"content":"Hello","unlisted":null}"#,
        r#"{"content":"Hello","unlisted":false,"title":7}"#,
        r#"{"content":"Hello","unlisted":false,"author":[]}"#,
        r#"{"content":"Hello","unlisted":false,"exp":7}"#,
        r#"{"content":"Hello","unlisted":false,"exp":"tomorrow"}"#,
        r#"{"content":"Hello","unlisted":false} x"#,
        r#"{"content":"Hello","unlisted":false,}"#,
        r#"{"content":"Hello" "unlisted":false}"#,
        r#"{"content":"Hel"lo","unlisted":false}"#,
        r#"{"content":"\x","unlisted":false}"#,
        "{\"content\":\"a\nb\",\"unlisted\":false}",
        r#"{"Content":"Hello","Unlisted":false}"#,
    ] {
        assert_eq!(StoredPaste::decode(corrupt), Err(KvError::Corrupt), "{}", corrupt);
    }
}

#[test]
fn decode_reads_what_serde_json_writes_for_the_fields() {
    let mut object = serde_json::Map::new();
    object.insert("title".to_string(), serde_json::Value::String("T \"1\"".to_string()));
    object.insert("content".to_string(), serde_json::Value::String("a\\b\n\u{1}".to_string()));
    object.insert("author".to_string(), serde_json::Value::Null);
    object.insert("unlisted".to_string(), serde_json::Value::Bool(true));
    let expected = StoredPaste {
        title: Some("T \"1\"".to_string()),
        content: "a\\b\n\u{1}".to_string(),
        author: None,
        unlisted: true,
        exp: None,
    };
    let value = serde_json::Value::Object(object);
    assert_eq!(StoredPaste::decode(&serde_json::to_string(&value).unwrap()), Ok(expected.clone()));
    assert_eq!(
        StoredPaste::decode(&serde_json::to_string_pretty(&value).unwrap()),
        Ok(expected)
    );
}
