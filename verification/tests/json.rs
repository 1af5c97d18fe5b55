use error_idioms::json::{extract_meaning_of_life, get_meaning_of_life, parse_input_to_json_value,
    ExtractError};

#[test]
fn parse_valid_json() {
    assert!(parse_input_to_json_value("42").is_ok())
}

#[test]
fn parse_invalid_json() {
    assert!(parse_input_to_json_value("'asdf'").is_err());
}

#[test]
fn test_get_meaning_of_life() {
    match get_meaning_of_life(r#"{"meaningOfLife": 42}"#) {
        Ok(result) => assert_eq!(result, 42),
        Err(_) => assert!(false),
    }
}

#[test]
fn parse_yields_the_document_value() {
    let v = parse_input_to_json_value("42").unwrap();
    assert_eq!(v.as_i64(), Some(42));
    let obj = parse_input_to_json_value(r#"{"meaningOfLife": 7}"#).unwrap();
    assert_eq!(obj.get("meaningOfLife").and_then(|f| f.as_i64()), Some(7));
    assert_eq!(obj.get("absent"), None);
}

#[test]
fn get_meaning_of_life_propagates_parse_error() {
    assert!(get_meaning_of_life("'asdf'").is_err());
    assert!(get_meaning_of_life("{").is_err());
}

#[test]
fn extract_meaning_of_life_success() {
    assert!(matches!(extract_meaning_of_life(r#"{"meaningOfLife": 42}"#), Ok(42)));
    assert!(matches!(extract_meaning_of_life(r#"{"meaningOfLife": -1}"#), Ok(-1)));
}

#[test]
fn extract_meaning_of_life_syntax_error() {
    assert!(matches!(extract_meaning_of_life("'asdf'"), Err(ExtractError::Syntax(_))));
}

#[test]
fn extract_meaning_of_life_missing_field() {
    assert!(matches!(extract_meaning_of_life("{}"), Err(ExtractError::MissingField)));
    assert!(matches!(extract_meaning_of_life("42"), Err(ExtractError::MissingField)));
}

#[test]
fn extract_meaning_of_life_not_an_integer() {
    assert!(matches!(
        extract_meaning_of_life(r#"{"meaningOfLife": "42"}"#),
        Err(ExtractError::NotAnInteger)
    ));
    assert!(matches!(
        extract_meaning_of_life(r#"{"meaningOfLife": 1.5}"#),
        Err(ExtractError::NotAnInteger)
    ));
}
