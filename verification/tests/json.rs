use exchange_feed::error::DecodeError;
use exchange_feed::json::Json;

#[test]
fn a_document_is_read_value_by_value() {
    let doc = Json::parse(r#" {"b":[1,"x",null,true,-2.5],"a":{"k":"v"},"c":false} "#).unwrap();
    assert_eq!(
        doc,
        Json::Object(vec![
            ("a".to_string(), Json::Object(vec![("k".to_string(), Json::Text("v".to_string()))])),
            (
                "b".to_string(),
                Json::Array(vec![
                    Json::Number("1".to_string()),
                    Json::Text("x".to_string()),
                    Json::Null,
                    Json::Bool(true),
                    Json::Number("-2.5".to_string()),
                ])
            ),
            ("c".to_string(), Json::Bool(false)),
        ])
    );
}

#[test]
fn a_string_is_read_without_quotes_and_escapes() {
    assert_eq!(Json::parse(r#""a\"bé\n""#), Ok(Json::Text("a\"b\u{e9}\n".to_string())));
    assert_eq!(Json::parse("12"), Ok(Json::Number("12".to_string())));
    assert_eq!(Json::parse("null"), Ok(Json::Null));
}

#[test]
fn a_text_that_is_no_document_is_malformed() {
    for s in ["", "{", "{\"a\":}", "[1,]", "nul", "{\"a\":1} x", "'a'"] {
        assert_eq!(Json::parse(s), Err(DecodeError::MalformedJson), "{}", s);
    }
}

#[test]
fn members_are_found_by_name() {
    let doc = Json::parse(r#"{"e":"x","E":1,"ee":2}"#).unwrap();
    assert_eq!(doc.get("e"), Some(&Json::Text("x".to_string())));
    assert_eq!(doc.get("E"), Some(&Json::Number("1".to_string())));
    assert_eq!(doc.get("ee"), Some(&Json::Number("2".to_string())));
    assert_eq!(doc.get(""), None);
    assert_eq!(doc.get("x"), None);
    assert_eq!(Json::Array(vec![]).get("e"), None);
    assert!(doc.is_object());
    assert!(!Json::Null.is_object());
    let twice = Json::Object(vec![
        ("k".to_string(), Json::Bool(true)),
        ("k".to_string(), Json::Bool(false)),
    ]);
    assert_eq!(twice.get("k"), Some(&Json::Bool(true)));
}

#[test]
fn a_copy_is_the_same_document() {
    let doc = Json::parse(r#"{"a":[1,{"b":null,"c":[true,"x"]}],"d":-0.5e3}"#).unwrap();
    assert_eq!(doc.duplicate(), doc);
    assert_eq!(doc.clone(), doc);
    assert_eq!(Json::Null.duplicate(), Json::Null);
    assert_eq!(Json::Array(vec![]).duplicate(), Json::Array(vec![]));
}

#[test]
fn every_error_says_what_it_is() {
    let all = [
        DecodeError::MalformedJson,
        DecodeError::MalformedNumber,
        DecodeError::TypeMismatch,
        DecodeError::MissingRequiredField,
        DecodeError::UnknownEnumValue,
    ];
    for (i, a) in all.iter().enumerate() {
        assert!(!a.message().is_empty());
        for b in all.iter().skip(i + 1) {
            assert_ne!(a.message(), b.message());
        }
    }
    assert_eq!(DecodeError::MissingRequiredField.message(), "a required field is absent");
}
