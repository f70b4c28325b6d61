use twilight::component::{ComponentType, InputText, InputTextStyle};
use twilight::input_text_fields::{
    input_text_from_entries, InputTextEntry, InputTextError, InputTextField,
};

fn value() -> InputText {
    InputText {
        custom_id: "test".to_owned(),
        label: "The label".to_owned(),
        style: InputTextStyle::Short,
        placeholder: Some("Taking this place".to_owned()),
        min_length: Some(1),
        max_length: Some(100),
    }
}

#[test]
fn test_input_text_style() {
    assert_eq!(InputTextStyle::Short.number(), 1);
    assert_eq!(InputTextStyle::Paragraph.number(), 2);
    assert_eq!(InputTextStyle::from_number(1), Some(InputTextStyle::Short));
    assert_eq!(InputTextStyle::from_number(2), Some(InputTextStyle::Paragraph));
    assert_eq!(InputTextStyle::from_number(3), None);
}

#[test]
fn test_input_text() {
    assert_eq!(value().field_count(), 7);
    assert_eq!(ComponentType::InputText.number(), 4);
    assert_eq!(
        value().into_entries(),
        vec![
            InputTextEntry::Type(ComponentType::InputText),
            InputTextEntry::CustomId("test".to_owned()),
            InputTextEntry::Label("The label".to_owned()),
            InputTextEntry::Style(InputTextStyle::Short),
            InputTextEntry::Placeholder("Taking this place".to_owned()),
            InputTextEntry::MinLength(1),
            InputTextEntry::MaxLength(100),
        ]
    );
}

#[test]
fn input_text_round_trip() {
    assert_eq!(input_text_from_entries(value().into_entries()), Ok(value()));
    let bare = InputText {
        custom_id: "id".to_owned(),
        label: "label".to_owned(),
        style: InputTextStyle::Paragraph,
        placeholder: None,
        min_length: None,
        max_length: Some(5),
    };
    assert_eq!(bare.field_count(), 5);
    let entries = bare.clone().into_entries();
    assert_eq!(entries.len(), 5);
    assert_eq!(input_text_from_entries(entries), Ok(bare));
}

#[test]
fn input_text_read_errors() {
    assert_eq!(
        input_text_from_entries(vec![
            InputTextEntry::Type(ComponentType::InputText),
            InputTextEntry::Label("a".to_owned()),
            InputTextEntry::Label("b".to_owned()),
        ]),
        Err(InputTextError::DuplicateField { field: InputTextField::Label })
    );
    assert_eq!(
        input_text_from_entries(vec![InputTextEntry::Type(ComponentType::Button)]),
        Err(InputTextError::InvalidType { found: ComponentType::Button })
    );
    assert_eq!(
        input_text_from_entries(vec![
            InputTextEntry::CustomId("a".to_owned()),
            InputTextEntry::Label("b".to_owned()),
            InputTextEntry::Style(InputTextStyle::Short),
        ]),
        Err(InputTextError::MissingField { field: InputTextField::Type })
    );
    assert_eq!(
        input_text_from_entries(vec![
            InputTextEntry::Type(ComponentType::InputText),
            InputTextEntry::Unknown,
            InputTextEntry::Label("b".to_owned()),
        ]),
        Err(InputTextError::MissingField { field: InputTextField::CustomId })
    );
    assert_eq!(
        input_text_from_entries(vec![
            InputTextEntry::Type(ComponentType::InputText),
            InputTextEntry::CustomId("a".to_owned()),
            InputTextEntry::Label("b".to_owned()),
        ]),
        Err(InputTextError::MissingField { field: InputTextField::Style })
    );
    assert_eq!(
        InputTextError::MissingField { field: InputTextField::Type }.field_name(),
        "kind"
    );
    assert_eq!(
        InputTextError::MissingField { field: InputTextField::CustomId }.field_name(),
        "custom_id"
    );
    assert_eq!(
        InputTextError::DuplicateField { field: InputTextField::MaxLength }.field_name(),
        "max_length"
    );
    assert_eq!(InputTextField::MinLength.name(), "min_length");
}

#[test]
fn component_type_numbers() {
    for n in 0..=10u8 {
        match ComponentType::from_number(n) {
            Some(kind) => assert_eq!(kind.number(), n),
            None => assert!(n == 0 || n > 4),
        }
    }
}

use twilight::input_text_fields::InputTextPartial;

#[test]
fn input_text_read_step_by_step() {
    let st = InputTextPartial::new();
    assert!(st.check_key(InputTextField::Label).is_ok());
    let st = st.add(InputTextEntry::Label("l".to_owned())).unwrap();
    assert_eq!(
        st.check_key(InputTextField::Label),
        Err(InputTextError::DuplicateField { field: InputTextField::Label })
    );
    let st = st
        .add(InputTextEntry::Type(ComponentType::InputText))
        .unwrap()
        .add(InputTextEntry::CustomId("c".to_owned()))
        .unwrap()
        .add(InputTextEntry::Style(InputTextStyle::Short))
        .unwrap();
    let text = st.finish().unwrap();
    assert_eq!(text.label, "l");
    assert!(InputTextPartial::new().finish().is_err());
    assert!(InputTextStyle::Short < InputTextStyle::Paragraph);
}
