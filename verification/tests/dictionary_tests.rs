use app_core::dictionary::{
    collect_found, entry_from_reply, map_entry, no_entry_error, word_url, WireDefinition,
    WireEntry, WireMeaning,
};
use app_core::model::{CoreError, Definition, WordEntry};

fn wire_def(text: &str, example: Option<&str>) -> WireDefinition {
    WireDefinition { definition: text.to_string(), example: example.map(|s| s.to_string()) }
}

fn sample_entry() -> WireEntry {
    WireEntry {
        word: "run".to_string(),
        phonetic: Some("/ɹʌn/".to_string()),
        meanings: vec![
            WireMeaning {
                part_of_speech: "noun".to_string(),
                definitions: vec![
                    wire_def("An act of running.", Some("a morning run")),
                    wire_def("A trip.", None),
                ],
            },
            WireMeaning { part_of_speech: "interjection".to_string(), definitions: vec![] },
            WireMeaning {
                part_of_speech: "verb".to_string(),
                definitions: vec![wire_def("To move swiftly.", None)],
            },
        ],
    }
}

fn check_def(d: &Definition, pos: &str, meaning: &str, example: Option<&str>) {
    assert_eq!(d.part_of_speech, pos);
    assert_eq!(d.meaning, meaning);
    assert_eq!(d.example.as_deref(), example);
}

#[test]
fn map_entry_flattens_meanings_in_order() {
    let e = map_entry(sample_entry());
    assert_eq!(e.word, "run");
    assert_eq!(e.phonetic.as_deref(), Some("/ɹʌn/"));
    assert_eq!(e.definitions.len(), 3);
    check_def(&e.definitions[0], "noun", "An act of running.", Some("a morning run"));
    check_def(&e.definitions[1], "noun", "A trip.", None);
    check_def(&e.definitions[2], "verb", "To move swiftly.", None);
}

#[test]
fn map_entry_without_meanings_has_no_definitions() {
    let e = map_entry(WireEntry { word: "x".to_string(), phonetic: None, meanings: vec![] });
    assert_eq!(e.word, "x");
    assert!(e.phonetic.is_none());
    assert!(e.definitions.is_empty());
}

#[test]
fn word_url_appends_the_word() {
    assert_eq!(word_url("serendipity"), "https://api.dictionaryapi.dev/api/v2/entries/en/serendipity");
}

fn expect_not_found(r: Result<WordEntry, CoreError>, message: &str) {
    match r {
        Err(CoreError::NotFound { message: m }) => assert_eq!(m, message),
        other => panic!("expected NotFound, got {:?}", other),
    }
}

#[test]
fn status_404_is_not_found() {
    expect_not_found(
        entry_from_reply("qwzx", 404, Ok(vec![sample_entry()])),
        "no dictionary entry for 'qwzx'",
    );
    expect_not_found(entry_from_reply("qwzx", 404, Err("eof".to_string())), "no dictionary entry for 'qwzx'");
}

#[test]
fn undecodable_body_is_decode_error() {
    match entry_from_reply("run", 200, Err("expected value at line 1".to_string())) {
        Err(CoreError::Decode { message }) => assert_eq!(message, "expected value at line 1"),
        other => panic!("expected Decode, got {:?}", other),
    }
}

#[test]
fn empty_list_is_not_found() {
    expect_not_found(entry_from_reply("run", 200, Ok(vec![])), "no dictionary entry for 'run'");
}

#[test]
fn first_entry_is_mapped() {
    let second = WireEntry { word: "second".to_string(), phonetic: None, meanings: vec![] };
    match entry_from_reply("run", 200, Ok(vec![sample_entry(), second])) {
        Ok(e) => {
            assert_eq!(e.word, "run");
            assert_eq!(e.definitions.len(), 3);
        }
        other => panic!("expected an entry, got {:?}", other),
    }
}

#[test]
fn no_entry_error_message() {
    let e = no_entry_error("abc");
    assert_eq!(e.message(), "not found: no dictionary entry for 'abc'");
}

#[test]
fn collect_found_skips_failures_in_order() {
    let a = map_entry(sample_entry());
    let b = map_entry(WireEntry { word: "b".to_string(), phonetic: None, meanings: vec![] });
    let results = vec![
        Ok(a),
        Err(CoreError::NotFound { message: "x".to_string() }),
        Ok(b),
        Err(CoreError::Unauthenticated),
    ];
    let found = collect_found(results);
    assert_eq!(found.len(), 2);
    assert_eq!(found[0].word, "run");
    assert_eq!(found[0].definitions.len(), 3);
    assert_eq!(found[1].word, "b");
    assert!(collect_found(vec![]).is_empty());
}
