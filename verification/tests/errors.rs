use variant_name::Direction;
use variant_name::Error;
use variant_name::ErrorCode;

#[test]
fn custom_wraps_a_free_form_message() {
    let e = Error::custom("boom");
    assert_eq!(e.code, ErrorCode::Message("boom".to_string()));
    assert_eq!(e.message(), "boom");
}

#[test]
fn constructors_build_the_matching_codes() {
    let e = Error::invalid_type("bar", "Foo");
    assert_eq!(
        e.code,
        ErrorCode::InvalidType {
            unexpected: "bar".to_string(),
            expected: "Foo".to_string(),
        }
    );
    let e = Error::unknown_variant("Var3", vec!["Var1".to_string(), "VAR2".to_string()]);
    assert_eq!(
        e.code,
        ErrorCode::InvalidVariantName {
            received: "Var3".to_string(),
            allowed: vec!["Var1".to_string(), "VAR2".to_string()],
        }
    );
    let e = Error::from(ErrorCode::TrailingCharacters);
    assert_eq!(e.code, ErrorCode::TrailingCharacters);
}

#[test]
fn unsupported_operation_message() {
    let e = Error::from(ErrorCode::UnsupportedOperation(
        Direction::Serialization,
        "bool".to_string(),
    ));
    assert_eq!(e.message(), "unsupported operation: serialization: bool");
    let e = Error::from(ErrorCode::UnsupportedOperation(
        Direction::Deserialization,
        "tuple variant".to_string(),
    ));
    assert_eq!(e.message(), "unsupported operation: deserialization: tuple variant");
}

#[test]
fn invalid_type_message() {
    let e = Error::invalid_type("bar", "Foo");
    assert_eq!(e.message(), "invalid type: bar, expected Foo");
}

#[test]
fn invalid_variant_name_message() {
    let e = Error::unknown_variant("Var3", vec!["Var1".to_string(), "VAR2".to_string()]);
    assert_eq!(
        e.message(),
        "invalid variant: Var3 is not a valid variant name ([\"Var1\", \"VAR2\"])"
    );
    let e = Error::unknown_variant("Var3", vec![]);
    assert_eq!(e.message(), "invalid variant: Var3 is not a valid variant name ([])");
    let e = Error::unknown_variant("Var3", vec!["Only".to_string()]);
    assert_eq!(e.message(), "invalid variant: Var3 is not a valid variant name ([\"Only\"])");
}

#[test]
fn trailing_characters_message() {
    let e = Error::from(ErrorCode::TrailingCharacters);
    assert_eq!(e.message(), "trailing characters: input ends with trailing characters");
}
