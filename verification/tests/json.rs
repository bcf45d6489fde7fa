use openai_dive::v1::json::Json;
use serde_json::Number;

fn member(key: &str, value: Json) -> (String, Json) {
    (key.to_string(), value)
}

#[test]
fn scalars_have_their_canonical_text() {
    assert_eq!(Json::Null.scalar_text(), Some("null".to_string()));
    assert_eq!(Json::Bool(true).scalar_text(), Some("true".to_string()));
    assert_eq!(Json::Bool(false).scalar_text(), Some("false".to_string()));
    assert_eq!(Json::Number(Number::from(42)).scalar_text(), Some("42".to_string()));
    assert_eq!(Json::Number(Number::from(-7)).scalar_text(), Some("-7".to_string()));
    assert_eq!(
        Json::Number(Number::from(u64::MAX)).scalar_text(),
        Some("18446744073709551615".to_string())
    );
    assert_eq!(
        Json::Number(Number::from_f64(1.5).unwrap()).scalar_text(),
        Some("1.5".to_string())
    );
    assert_eq!(Json::String("en".to_string()).scalar_text(), Some("\"en\"".to_string()));
    assert_eq!(Json::String(String::new()).scalar_text(), Some("\"\"".to_string()));
}

#[test]
fn a_string_is_written_with_quotes_and_escapes() {
    assert_eq!(
        Json::String("a \"b\" \\ c\n\t".to_string()).scalar_text(),
        Some("\"a \\\"b\\\" \\\\ c\\n\\t\"".to_string())
    );
    assert_eq!(
        Json::String("caf\u{e9} \u{1}".to_string()).scalar_text(),
        Some("\"caf\u{e9} \\u0001\"".to_string())
    );
}

#[test]
fn arrays_and_objects_have_no_scalar_text() {
    assert_eq!(Json::Array(Vec::new()).scalar_text(), None);
    assert_eq!(Json::Array(vec![Json::Null]).scalar_text(), None);
    assert_eq!(Json::Object(Vec::new()).scalar_text(), None);
    assert_eq!(Json::Object(vec![member("a", Json::Null)]).scalar_text(), None);
}

#[test]
fn is_scalar_tells_scalars_from_arrays_and_objects() {
    assert!(Json::Null.is_scalar());
    assert!(Json::Bool(false).is_scalar());
    assert!(Json::Number(Number::from(0)).is_scalar());
    assert!(Json::String("x".to_string()).is_scalar());
    assert!(!Json::Array(Vec::new()).is_scalar());
    assert!(!Json::Object(Vec::new()).is_scalar());
}

#[test]
fn a_flat_object_gives_its_fields_in_order() {
    let object = Json::Object(vec![
        member("b", Json::Number(Number::from(2))),
        member("a", Json::String("one".to_string())),
        member("c", Json::Null),
    ]);
    assert_eq!(
        object.flat_fields(),
        Some(vec![
            ("b".to_string(), "2".to_string()),
            ("a".to_string(), "\"one\"".to_string()),
            ("c".to_string(), "null".to_string()),
        ])
    );
    assert_eq!(Json::Object(Vec::new()).flat_fields(), Some(Vec::new()));
}

#[test]
fn what_is_no_flat_object_gives_no_fields() {
    assert_eq!(Json::Null.flat_fields(), None);
    assert_eq!(Json::Bool(true).flat_fields(), None);
    assert_eq!(Json::Number(Number::from(1)).flat_fields(), None);
    assert_eq!(Json::String("a".to_string()).flat_fields(), None);
    assert_eq!(Json::Array(vec![Json::Object(Vec::new())]).flat_fields(), None);
    assert_eq!(
        Json::Object(vec![member("a", Json::Null), member("b", Json::Array(Vec::new()))])
            .flat_fields(),
        None
    );
    assert_eq!(
        Json::Object(vec![member("a", Json::Object(vec![member("b", Json::Null)]))]).flat_fields(),
        None
    );
    assert_eq!(
        Json::Object(vec![member("a", Json::Null), member("a", Json::Null)]).flat_fields(),
        None
    );
}

#[test]
fn keys_that_differ_in_case_are_different_keys() {
    let object = Json::Object(vec![member("a", Json::Null), member("A", Json::Bool(true))]);
    assert_eq!(
        object.flat_fields(),
        Some(vec![("a".to_string(), "null".to_string()), ("A".to_string(), "true".to_string())])
    );
}

#[test]
fn a_clone_equals_the_value_it_was_made_from() {
    let value = Json::Object(vec![
        member("list", Json::Array(vec![Json::Null, Json::Bool(true), Json::Array(Vec::new())])),
        member("n", Json::Number(Number::from_f64(2.5).unwrap())),
        member(
            "inner",
            Json::Object(vec![member("s", Json::String("text".to_string()))]),
        ),
    ]);
    assert_eq!(value.clone(), value);
    assert_eq!(Json::Null.clone(), Json::Null);
    assert_eq!(Json::String("x".to_string()).clone(), Json::String("x".to_string()));
}
