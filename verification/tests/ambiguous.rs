use openlibrary_client::ambiguous::decode_ambiguous;
use openlibrary_client::ambiguous::AmbiguousField;
use openlibrary_client::ambiguous::DecodeError;
use openlibrary_client::ambiguous::WireKind;
use openlibrary_client::ambiguous::WireValue;
use openlibrary_client::author::Bio;
use openlibrary_client::author::BioEnum;
use openlibrary_client::edition::Note;
use openlibrary_client::edition::Notes;
use openlibrary_client::work::DescEnum;
use openlibrary_client::work::Description;

#[test]
fn bare_text_decodes_to_text_kind() {
    let r = decode_ambiguous(AmbiguousField::Bio, &WireValue::Text("A writer.".to_string()));
    let c = r.unwrap();
    assert_eq!(c.kind, "text");
    assert_eq!(c.value, "A writer.");
}

#[test]
fn structured_decodes_exactly() {
    let r = decode_ambiguous(
        AmbiguousField::Description,
        &WireValue::Structured {
            type_tag: Some("/type/text".to_string()),
            value: Some("An account.".to_string()),
        },
    );
    let c = r.unwrap();
    assert_eq!(c.kind, "/type/text");
    assert_eq!(c.value, "An account.");
}

#[test]
fn structured_without_type_defaults_to_empty_tag() {
    let r = decode_ambiguous(
        AmbiguousField::Notes,
        &WireValue::Structured {
            type_tag: None,
            value: Some("First edition.".to_string()),
        },
    );
    let c = r.unwrap();
    assert_eq!(c.kind, "");
    assert_eq!(c.value, "First edition.");
}

#[test]
fn structured_without_value_is_an_error() {
    let r = decode_ambiguous(
        AmbiguousField::Notes,
        &WireValue::Structured {
            type_tag: Some("/type/text".to_string()),
            value: None,
        },
    );
    assert!(matches!(
        r,
        Err(DecodeError::UnexpectedFieldShape {
            field: AmbiguousField::Notes,
            observed: WireKind::Structured,
        })
    ));
}

#[test]
fn number_is_an_unexpected_shape() {
    let r = decode_ambiguous(AmbiguousField::Bio, &WireValue::Number);
    assert!(matches!(
        r,
        Err(DecodeError::UnexpectedFieldShape {
            field: AmbiguousField::Bio,
            observed: WireKind::Number,
        })
    ));
}

#[test]
fn array_is_an_unexpected_shape() {
    let r = decode_ambiguous(AmbiguousField::Description, &WireValue::List);
    assert!(matches!(
        r,
        Err(DecodeError::UnexpectedFieldShape {
            field: AmbiguousField::Description,
            observed: WireKind::List,
        })
    ));
}

#[test]
fn null_and_boolean_are_unexpected_shapes() {
    let r = decode_ambiguous(AmbiguousField::Notes, &WireValue::Null);
    assert!(matches!(
        r,
        Err(DecodeError::UnexpectedFieldShape {
            observed: WireKind::Null,
            ..
        })
    ));
    let r = decode_ambiguous(AmbiguousField::Notes, &WireValue::Boolean);
    assert!(matches!(
        r,
        Err(DecodeError::UnexpectedFieldShape {
            observed: WireKind::Boolean,
            ..
        })
    ));
}

#[test]
fn both_wire_shapes_carry_the_text_identically() {
    let from_text = decode_ambiguous(
        AmbiguousField::Bio,
        &WireValue::Text("A writer.".to_string()),
    )
    .unwrap();
    let from_structured = decode_ambiguous(
        AmbiguousField::Bio,
        &WireValue::Structured {
            type_tag: Some("/type/text".to_string()),
            value: Some("A writer.".to_string()),
        },
    )
    .unwrap();
    assert_eq!(from_text.value, from_structured.value);
}

#[test]
fn bio_enum_normalizes_both_shapes() {
    let bare = BioEnum::BioString("A writer.".to_string());
    assert_eq!(
        bare.normalize(),
        Bio {
            type_field: "text".to_string(),
            value: "A writer.".to_string(),
        }
    );
    let structured = BioEnum::BioType(Bio {
        type_field: "/type/text".to_string(),
        value: "A writer.".to_string(),
    });
    assert_eq!(
        structured.normalize(),
        Bio {
            type_field: "/type/text".to_string(),
            value: "A writer.".to_string(),
        }
    );
}

#[test]
fn note_enum_normalizes_both_shapes() {
    let bare = Note::NoteString("First printing.".to_string());
    assert_eq!(
        bare.normalize(),
        Notes {
            type_field: "text".to_string(),
            value: "First printing.".to_string(),
        }
    );
    let structured = Note::NoteType(Notes {
        type_field: "/type/text".to_string(),
        value: "First printing.".to_string(),
    });
    assert_eq!(structured.normalize().value, "First printing.");
}

#[test]
fn desc_enum_normalizes_both_shapes() {
    let bare = DescEnum::DescString("An account.".to_string());
    assert_eq!(
        bare.normalize(),
        Description {
            type_field: "text".to_string(),
            value: "An account.".to_string(),
        }
    );
    let structured = DescEnum::DescType(Description {
        type_field: "/type/text".to_string(),
        value: "An account.".to_string(),
    });
    assert_eq!(structured.normalize().value, "An account.");
}
