use todos::errors::Error;
use todos::http::handle_api_err;
use todos::json::{decode_new_todo, decode_object, decode_query_todos, decode_update_todo, JsonScalar};
use todos::text::{i64_to_dec, str_contains, str_eq, u64_to_dec};

#[test]
fn decimal_rendering_is_exact() {
    assert_eq!(u64_to_dec(0), "0");
    assert_eq!(u64_to_dec(7), "7");
    assert_eq!(u64_to_dec(256), "256");
    assert_eq!(u64_to_dec(90210), "90210");
    assert_eq!(u64_to_dec(u64::MAX), "18446744073709551615");
    assert_eq!(i64_to_dec(-1), "-1");
    assert_eq!(i64_to_dec(0), "0");
    assert_eq!(i64_to_dec(i64::MIN), "-9223372036854775808");
    assert_eq!(i64_to_dec(i64::MAX), "9223372036854775807");
}

#[test]
fn substring_search_agrees_with_contains() {
    assert!(str_contains("hello world", "o w"));
    assert!(str_contains("hello", ""));
    assert!(str_contains("hello", "hello"));
    assert!(!str_contains("hello", "hello!"));
    assert!(!str_contains("abc", "cb"));
    assert!(str_contains("aaab", "aab"));
    assert!(str_eq("abc", "abc"));
    assert!(!str_eq("abc", "abd"));
    assert!(!str_eq("abc", "ab"));
}

#[test]
fn object_decoding_reads_scalars() {
    let fields = decode_object(r#"{"id": 3, "text": "hi", "done": true, "next": null}"#).unwrap();
    let update = decode_update_todo(&fields).unwrap();
    assert_eq!(update.id, 3);
    assert_eq!(update.text.as_deref(), Some("hi"));
    assert_eq!(update.done, Some(true));

    let query = decode_query_todos(&fields).unwrap();
    assert_eq!(query.next, None);
    assert_eq!(query.limit, None);
    assert_eq!(query.text.as_deref(), Some("hi"));
}

#[test]
fn non_object_bodies_are_parse_errors() {
    assert!(matches!(decode_object("5"), Err(Error::JsonParse(_))));
    assert!(matches!(decode_object("[]"), Err(Error::JsonParse(_))));
    assert!(matches!(decode_object("tru"), Err(Error::JsonParse(_))));
}

#[test]
fn missing_text_field_is_named() {
    let fields = decode_object("{}").unwrap();
    match decode_new_todo(&fields) {
        Err(Error::JsonParse(m)) => assert_eq!(m, "missing field text"),
        _ => panic!("expected a parse error"),
    }
    let fields = vec![("text".to_string(), JsonScalar::Int(4))];
    match decode_new_todo(&fields) {
        Err(Error::JsonParse(m)) => assert_eq!(m, "text must be a string"),
        _ => panic!("expected a parse error"),
    }
}

#[test]
fn limit_outside_a_byte_is_named() {
    let fields = vec![("limit".to_string(), JsonScalar::Int(300))];
    match decode_query_todos(&fields) {
        Err(Error::JsonParse(m)) => assert_eq!(m, "limit must be an unsigned byte"),
        _ => panic!("expected a parse error"),
    }
}

#[test]
fn error_statuses_follow_the_table() {
    let cases: Vec<(Error, u16)> = vec![
        (Error::JsonParse("bad".to_string()), 400),
        (Error::RecordNotFound, 404),
        (Error::Validation("bad".to_string()), 412),
        (Error::MySql("down".to_string()), 500),
        (Error::MySqlConnection("busy".to_string()), 500),
        (Error::HttpServer("broken".to_string()), 500),
    ];
    for (err, status) in cases {
        let resp = handle_api_err(Err(err));
        assert_eq!(resp.status, status);
    }
}

#[test]
fn error_strings_embed_the_cause() {
    let err = Error::MySql("server has gone away".to_string());
    assert_eq!(err.display_string(), "Error::MySql server has gone away");
    assert_eq!(err.description(), "server has gone away");

    let err = Error::RecordNotFound;
    assert_eq!(err.display_string(), "Error::RecordNotFound");
    assert_eq!(err.description(), "record not found in database");

    let err = Error::Validation("todo's text cannot be empty".to_string());
    assert_eq!(err.display_string(), "Error::Validation todo's text cannot be empty");
    assert_eq!(err.description(), "input data validation error");
}
