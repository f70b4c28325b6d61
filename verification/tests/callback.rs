use twilight::callback::{
    Autocomplete, CallbackData, CallbackDataHolder, InteractionResponse, ModalData,
    ResponseDataError, ResponseType,
};
use twilight::command::CommandOptionChoice;
use twilight::component::{ActionRow, Component, InputText, InputTextStyle};
use twilight::message::MessageFlags;
use twilight::response_fields::{
    response_from_entries, ResponseEntry, ResponseField, ResponseReadError,
};

fn empty_holder() -> CallbackDataHolder {
    CallbackDataHolder {
        allowed_mentions: None,
        components: None,
        content: None,
        embeds: None,
        flags: None,
        tts: None,
        choices: None,
        custom_id: None,
        title: None,
    }
}

fn callback() -> CallbackData {
    CallbackData {
        allowed_mentions: None,
        content: None,
        components: None,
        embeds: Vec::new(),
        flags: None,
        tts: None,
    }
}

#[test]
fn test_kind() {
    let autocomplete = Autocomplete {
        choices: Vec::new(),
    };

    let modal = ModalData {
        custom_id: "modal-1".to_owned(),
        title: "test".to_owned(),
        components: Vec::new(),
    };

    assert_eq!(
        InteractionResponse::Autocomplete(autocomplete).kind(),
        ResponseType::ApplicationCommandAutocompleteResult
    );
    assert_eq!(InteractionResponse::Pong.kind(), ResponseType::Pong);
    assert_eq!(
        InteractionResponse::ChannelMessageWithSource(callback()).kind(),
        ResponseType::ChannelMessageWithSource
    );
    assert_eq!(
        InteractionResponse::DeferredChannelMessageWithSource(callback()).kind(),
        ResponseType::DeferredChannelMessageWithSource
    );
    assert_eq!(
        InteractionResponse::DeferredUpdateMessage.kind(),
        ResponseType::DeferredUpdateMessage
    );
    assert_eq!(
        InteractionResponse::UpdateMessage(callback()).kind(),
        ResponseType::UpdateMessage
    );
    assert_eq!(
        InteractionResponse::Modal(modal).kind(),
        ResponseType::Modal
    );
}

fn autocomplete_value() -> InteractionResponse {
    InteractionResponse::Autocomplete(Autocomplete {
        choices: Vec::from([CommandOptionChoice::String {
            name: "Twilight".to_owned(),
            value: "twilight".to_owned(),
        }]),
    })
}

#[test]
fn test_autocomplete() {
    let entries = autocomplete_value().into_entries();
    let mut holder = empty_holder();
    holder.choices = Some(Vec::from([CommandOptionChoice::String {
        name: "Twilight".to_owned(),
        value: "twilight".to_owned(),
    }]));
    assert_eq!(
        entries,
        vec![
            ResponseEntry::Type(ResponseType::ApplicationCommandAutocompleteResult),
            ResponseEntry::Data(holder),
        ]
    );
    assert_eq!(ResponseType::ApplicationCommandAutocompleteResult.number(), 8);
    assert_eq!(autocomplete_value().field_count(), 2);

    let mut holder = empty_holder();
    holder.choices = Some(Vec::from([CommandOptionChoice::String {
        name: "Twilight".to_owned(),
        value: "twilight".to_owned(),
    }]));
    let read = response_from_entries(vec![
        ResponseEntry::Type(ResponseType::ApplicationCommandAutocompleteResult),
        ResponseEntry::Data(holder),
    ]);
    assert_eq!(read, Ok(autocomplete_value()));
}

#[test]
fn test_pong() {
    let value = InteractionResponse::Pong;
    assert_eq!(value.field_count(), 1);
    assert_eq!(value.into_entries(), vec![ResponseEntry::Type(ResponseType::Pong)]);
    assert_eq!(ResponseType::Pong.number(), 1);
    assert_eq!(
        response_from_entries(vec![ResponseEntry::Type(ResponseType::Pong)]),
        Ok(InteractionResponse::Pong)
    );
}

#[test]
fn test_deferred_update_message() {
    let value = InteractionResponse::DeferredUpdateMessage;
    assert_eq!(value.field_count(), 1);
    assert_eq!(
        value.into_entries(),
        vec![ResponseEntry::Type(ResponseType::DeferredUpdateMessage)]
    );
    assert_eq!(ResponseType::DeferredUpdateMessage.number(), 6);
    assert_eq!(
        response_from_entries(vec![ResponseEntry::Type(ResponseType::DeferredUpdateMessage)]),
        Ok(InteractionResponse::DeferredUpdateMessage)
    );
}

fn message_value() -> InteractionResponse {
    InteractionResponse::ChannelMessageWithSource(CallbackData {
        allowed_mentions: None,
        content: Some("test".into()),
        components: None,
        embeds: Vec::new(),
        flags: Some(MessageFlags { bits: 1 << 6 }),
        tts: None,
    })
}

fn message_holder() -> CallbackDataHolder {
    let mut holder = empty_holder();
    holder.content = Some("test".to_owned());
    holder.flags = Some(MessageFlags { bits: 1 << 6 });
    holder
}

#[test]
fn test_channel_message_with_source() {
    assert_eq!(
        message_value().into_entries(),
        vec![
            ResponseEntry::Type(ResponseType::ChannelMessageWithSource),
            ResponseEntry::Data(message_holder()),
        ]
    );
    assert_eq!(ResponseType::ChannelMessageWithSource.number(), 4);
    assert_eq!(
        response_from_entries(vec![
            ResponseEntry::Type(ResponseType::ChannelMessageWithSource),
            ResponseEntry::Data(message_holder()),
        ]),
        Ok(message_value())
    );
}

fn modal_value() -> InteractionResponse {
    InteractionResponse::Modal(ModalData {
        custom_id: "modal-1".to_owned(),
        title: "Test".to_owned(),
        components: Vec::from([Component::ActionRow(ActionRow {
            components: Vec::from([Component::InputText(InputText {
                custom_id: "input-1".to_owned(),
                label: "Test".to_owned(),
                style: InputTextStyle::Short,
                placeholder: None,
                max_length: None,
                min_length: None,
            })]),
        })]),
    })
}

fn modal_holder() -> CallbackDataHolder {
    let mut holder = empty_holder();
    holder.custom_id = Some("modal-1".to_owned());
    holder.title = Some("Test".to_owned());
    holder.components = Some(Vec::from([Component::ActionRow(ActionRow {
        components: Vec::from([Component::InputText(InputText {
            custom_id: "input-1".to_owned(),
            label: "Test".to_owned(),
            style: InputTextStyle::Short,
            placeholder: None,
            max_length: None,
            min_length: None,
        })]),
    })]));
    holder
}

#[test]
fn test_modal() {
    assert_eq!(
        modal_value().into_entries(),
        vec![
            ResponseEntry::Type(ResponseType::Modal),
            ResponseEntry::Data(modal_holder()),
        ]
    );
    assert_eq!(ResponseType::Modal.number(), 9);
    assert_eq!(
        response_from_entries(vec![
            ResponseEntry::Type(ResponseType::Modal),
            ResponseEntry::Data(modal_holder()),
        ]),
        Ok(modal_value())
    );
}

#[test]
fn response_round_trips_through_entries() {
    for value in [
        InteractionResponse::Pong,
        InteractionResponse::DeferredUpdateMessage,
        message_value(),
        InteractionResponse::UpdateMessage(callback()),
        InteractionResponse::DeferredChannelMessageWithSource(callback()),
        autocomplete_value(),
        modal_value(),
    ] {
        let kind = value.kind();
        let expected = format!("{:?}", value);
        let back = response_from_entries(value.into_entries()).unwrap();
        assert_eq!(back.kind(), kind);
        assert_eq!(format!("{:?}", back), expected);
    }
}

#[test]
fn response_read_order_and_unknown_fields() {
    let read = response_from_entries(vec![
        ResponseEntry::Unknown,
        ResponseEntry::Data(message_holder()),
        ResponseEntry::Unknown,
        ResponseEntry::Type(ResponseType::ChannelMessageWithSource),
    ]);
    assert_eq!(read, Ok(message_value()));
}

#[test]
fn response_read_errors() {
    assert_eq!(
        response_from_entries(vec![
            ResponseEntry::Type(ResponseType::Pong),
            ResponseEntry::Type(ResponseType::Pong),
        ]),
        Err(ResponseReadError::DuplicateField { field: ResponseField::Type })
    );
    assert_eq!(
        response_from_entries(vec![
            ResponseEntry::Data(empty_holder()),
            ResponseEntry::Data(empty_holder()),
        ]),
        Err(ResponseReadError::DuplicateField { field: ResponseField::Data })
    );
    assert_eq!(
        response_from_entries(vec![ResponseEntry::Data(empty_holder())]),
        Err(ResponseReadError::MissingField { field: ResponseField::Type })
    );
    assert_eq!(
        response_from_entries(vec![ResponseEntry::Type(ResponseType::UpdateMessage)]),
        Err(ResponseReadError::UnknownCombination {
            kind: ResponseType::UpdateMessage,
            data: None
        })
    );
    assert_eq!(
        response_from_entries(vec![
            ResponseEntry::Type(ResponseType::Modal),
            ResponseEntry::Data(message_holder()),
        ]),
        Err(ResponseReadError::UnknownCombination {
            kind: ResponseType::Modal,
            data: Some(ResponseDataError {
                kind: ResponseType::Modal,
                data: message_holder()
            })
        })
    );
    // types without data ignore any data
    assert_eq!(
        response_from_entries(vec![
            ResponseEntry::Type(ResponseType::Pong),
            ResponseEntry::Data(message_holder()),
        ]),
        Ok(InteractionResponse::Pong)
    );
    assert_eq!(ResponseField::Data.name(), "data");
    assert_eq!(ResponseField::Type.name(), "type");
}

#[test]
fn holder_conversions() {
    assert_eq!(
        message_holder().to_response(ResponseType::Pong),
        Err(ResponseDataError {
            kind: ResponseType::Pong,
            data: message_holder()
        })
    );
    assert_eq!(
        empty_holder().to_response(ResponseType::ApplicationCommandAutocompleteResult),
        Err(ResponseDataError {
            kind: ResponseType::ApplicationCommandAutocompleteResult,
            data: empty_holder()
        })
    );
    let data = message_holder().to_callback_data();
    assert_eq!(data.content, Some("test".to_owned()));
    assert!(data.embeds.is_empty());
    assert!(empty_holder().to_modal().is_err());
    assert!(modal_holder().to_modal().is_ok());
    assert_eq!(
        empty_holder().to_error(ResponseType::Modal),
        ResponseDataError {
            kind: ResponseType::Modal,
            data: empty_holder()
        }
    );
}

#[test]
fn response_type_numbers() {
    for n in 0..=255u8 {
        match ResponseType::from_number(n) {
            Some(kind) => assert_eq!(kind.number(), n),
            None => assert!(!(n == 1 || (4..=9).contains(&n))),
        }
    }
    assert_eq!(ResponseType::from_number(7), Some(ResponseType::UpdateMessage));
    assert_eq!(ResponseType::from_number(2), None);
}

use twilight::response_fields::ResponsePartial;

#[test]
fn response_read_step_by_step() {
    let st = ResponsePartial::new();
    let st = st.add(ResponseEntry::Type(ResponseType::Pong)).unwrap();
    assert_eq!(
        st.check_key(ResponseField::Type),
        Err(ResponseReadError::DuplicateField { field: ResponseField::Type })
    );
    assert!(st.check_key(ResponseField::Data).is_ok());
    assert_eq!(st.finish(), Ok(InteractionResponse::Pong));
    assert_eq!(
        ResponsePartial::new().finish(),
        Err(ResponseReadError::MissingField { field: ResponseField::Type })
    );
}
