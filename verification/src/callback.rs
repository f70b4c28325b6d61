//! Responses to interactions, and the data that they carry.

use vstd::prelude::*;

use crate::command::CommandOptionChoice;
use crate::component::Component;
use crate::embed::Embed;
use crate::message::{AllowedMentions, MessageFlags};

verus! {

/// Type of an interaction response.
#[derive(Clone, Copy, Debug, PartialEq, Eq, Hash, Structural)]
pub enum ResponseType {
    /// Acknowledges a ping.
    Pong,
    /// Responds with a message.
    ChannelMessageWithSource,
    /// Acknowledges, showing a loading state.
    DeferredChannelMessageWithSource,
    /// Acknowledges a component interaction; the message is edited later.
    DeferredUpdateMessage,
    /// Edits the message a component is attached to.
    UpdateMessage,
    /// Autocomplete results.
    ApplicationCommandAutocompleteResult,
    /// A modal for the user to fill out.
    Modal,
}

/// Wire number of a response type.
pub open spec fn response_type_number(kind: ResponseType) -> u8 {
    match kind {
        ResponseType::Pong => 1,
        ResponseType::ChannelMessageWithSource => 4,
        ResponseType::DeferredChannelMessageWithSource => 5,
        ResponseType::DeferredUpdateMessage => 6,
        ResponseType::UpdateMessage => 7,
        ResponseType::ApplicationCommandAutocompleteResult => 8,
        ResponseType::Modal => 9,
    }
}

impl ResponseType {
    /// Wire number of the response type.
    pub fn number(self) -> (res: u8)
        ensures
            res == response_type_number(self),
    {
        match self {
            ResponseType::Pong => 1,
            ResponseType::ChannelMessageWithSource => 4,
            ResponseType::DeferredChannelMessageWithSource => 5,
            ResponseType::DeferredUpdateMessage => 6,
            ResponseType::UpdateMessage => 7,
            ResponseType::ApplicationCommandAutocompleteResult => 8,
            ResponseType::Modal => 9,
        }
    }

    /// The response type with the given wire number, if there is one.
    pub fn from_number(number: u8) -> (res: Option<ResponseType>)
        ensures
            res matches Some(kind) ==> response_type_number(kind) == number,
            res is None <==> !(number == 1 || 4 <= number <= 9),
    {
        if number == 1 {
            Some(ResponseType::Pong)
        } else if number == 4 {
            Some(ResponseType::ChannelMessageWithSource)
        } else if number == 5 {
            Some(ResponseType::DeferredChannelMessageWithSource)
        } else if number == 6 {
            Some(ResponseType::DeferredUpdateMessage)
        } else if number == 7 {
            Some(ResponseType::UpdateMessage)
        } else if number == 8 {
            Some(ResponseType::ApplicationCommandAutocompleteResult)
        } else if number == 9 {
            Some(ResponseType::Modal)
        } else {
            None
        }
    }
}

/// Data of a response that sends or edits a message.
#[derive(Debug, PartialEq, Eq, Hash)]
pub struct CallbackData {
    /// Which mentions of the message notify their targets.
    pub allowed_mentions: Option<AllowedMentions>,
    /// List of components to include in the callback response.
    pub components: Option<Vec<Component>>,
    /// Content of the message.
    pub content: Option<String>,
    /// Embeds of the message.
    pub embeds: Vec<Embed>,
    /// Flags of the message.
    pub flags: Option<MessageFlags>,
    /// Whether the message is read aloud.
    pub tts: Option<bool>,
}

/// Response to an autocomplete interaction.
#[derive(Clone, Debug, PartialEq, Eq, Hash)]
pub struct Autocomplete {
    /// List of autocomplete alternatives.
    pub choices: Vec<CommandOptionChoice>,
}

/// Modal response to an interaction, prompting the user to fill it out.
#[derive(Debug, PartialEq, Eq, Hash)]
pub struct ModalData {
    /// User defined identifier for the modal.
    pub custom_id: String,
    /// The title of the modal.
    pub title: String,
    /// List of components to include in the modal.
    pub components: Vec<Component>,
}

/// Payload used for responding to an interaction.
#[derive(Debug, PartialEq, Eq, Hash)]
pub enum InteractionResponse {
    /// Used when responding to an interaction of type Ping.
    Pong,
    /// Responds to an interaction with a message.
    ChannelMessageWithSource(CallbackData),
    /// Acknowledges an interaction, showing a loading state.
    DeferredChannelMessageWithSource(CallbackData),
    /// Acknowledge an interaction and edit the original message later.
    DeferredUpdateMessage,
    /// Edit the message a component is attached to.
    UpdateMessage(CallbackData),
    /// Autocomplete results.
    Autocomplete(Autocomplete),
    /// Respond with a modal for the user to fill out.
    Modal(ModalData),
}

/// Type of a response, one per variant.
pub open spec fn response_kind(response: InteractionResponse) -> ResponseType {
    match response {
        InteractionResponse::Autocomplete(_) => ResponseType::ApplicationCommandAutocompleteResult,
        InteractionResponse::Pong => ResponseType::Pong,
        InteractionResponse::ChannelMessageWithSource(_) => ResponseType::ChannelMessageWithSource,
        InteractionResponse::DeferredChannelMessageWithSource(_) =>
            ResponseType::DeferredChannelMessageWithSource,
        InteractionResponse::DeferredUpdateMessage => ResponseType::DeferredUpdateMessage,
        InteractionResponse::UpdateMessage(_) => ResponseType::UpdateMessage,
        InteractionResponse::Modal(_) => ResponseType::Modal,
    }
}

impl InteractionResponse {
    /// Type of response this is.
    pub fn kind(&self) -> (res: ResponseType)
        ensures
            res == response_kind(*self),
    {
        match self {
            InteractionResponse::Autocomplete(_) => ResponseType::ApplicationCommandAutocompleteResult,
            InteractionResponse::Pong => ResponseType::Pong,
            InteractionResponse::ChannelMessageWithSource(_) => ResponseType::ChannelMessageWithSource,
            InteractionResponse::DeferredChannelMessageWithSource(_) => {
                ResponseType::DeferredChannelMessageWithSource
            },
            InteractionResponse::DeferredUpdateMessage => ResponseType::DeferredUpdateMessage,
            InteractionResponse::UpdateMessage(_) => ResponseType::UpdateMessage,
            InteractionResponse::Modal(_) => ResponseType::Modal,
        }
    }
}

/// The `data` object of a response as read from the wire: every field that any
/// kind of data may hold, each optional.
#[derive(Debug, PartialEq, Eq)]
pub struct CallbackDataHolder {
    pub allowed_mentions: Option<AllowedMentions>,
    pub components: Option<Vec<Component>>,
    pub content: Option<String>,
    pub embeds: Option<Vec<Embed>>,
    pub flags: Option<MessageFlags>,
    pub tts: Option<bool>,
    pub choices: Option<Vec<CommandOptionChoice>>,
    pub custom_id: Option<String>,
    pub title: Option<String>,
}

/// A response type and `data` object that do not fit together.
#[derive(Debug, PartialEq, Eq)]
pub struct ResponseDataError {
    /// The response type.
    pub kind: ResponseType,
    /// The data that does not fit it.
    pub data: CallbackDataHolder,
}

/// `data` is the callback data made of the holder's message fields; an absent
/// embed list becomes an empty one.
pub open spec fn callback_data_from(holder: CallbackDataHolder, data: CallbackData) -> bool {
    &&& data.allowed_mentions == holder.allowed_mentions
    &&& data.components == holder.components
    &&& data.content == holder.content
    &&& match holder.embeds {
        Some(embeds) => data.embeds == embeds,
        None => data.embeds@.len() == 0,
    }
    &&& data.flags == holder.flags
    &&& data.tts == holder.tts
}

/// Outcome of reading autocomplete data from a holder: it needs the choices.
pub open spec fn autocomplete_from(holder: CallbackDataHolder) -> Result<
    Autocomplete,
    ResponseDataError,
> {
    match holder.choices {
        Some(choices) => Ok(Autocomplete { choices }),
        None => Err(
            ResponseDataError {
                kind: ResponseType::ApplicationCommandAutocompleteResult,
                data: holder,
            },
        ),
    }
}

/// Outcome of reading modal data from a holder: it needs the custom id, title
/// and components.
pub open spec fn modal_from(holder: CallbackDataHolder) -> Result<ModalData, ResponseDataError> {
    if holder.custom_id is Some && holder.title is Some && holder.components is Some {
        Ok(
            ModalData {
                custom_id: holder.custom_id->0,
                title: holder.title->0,
                components: holder.components->0,
            },
        )
    } else {
        Err(ResponseDataError { kind: ResponseType::Modal, data: holder })
    }
}

/// `res` is the response of the given type made of the holder's data: types
/// without data refuse any data, message types always succeed, autocomplete
/// and modal types succeed when their fields are present.
pub open spec fn response_from(
    holder: CallbackDataHolder,
    kind: ResponseType,
    res: Result<InteractionResponse, ResponseDataError>,
) -> bool {
    match kind {
        ResponseType::Pong | ResponseType::DeferredUpdateMessage => res == Err::<
            InteractionResponse,
            ResponseDataError,
        >(ResponseDataError { kind, data: holder }),
        ResponseType::ChannelMessageWithSource => res matches Ok(
            InteractionResponse::ChannelMessageWithSource(data),
        ) && callback_data_from(holder, data),
        ResponseType::DeferredChannelMessageWithSource => res matches Ok(
            InteractionResponse::DeferredChannelMessageWithSource(data),
        ) && callback_data_from(holder, data),
        ResponseType::UpdateMessage => res matches Ok(InteractionResponse::UpdateMessage(data))
            && callback_data_from(holder, data),
        ResponseType::ApplicationCommandAutocompleteResult => res == match autocomplete_from(
            holder,
        ) {
            Ok(a) => Ok(InteractionResponse::Autocomplete(a)),
            Err(e) => Err(e),
        },
        ResponseType::Modal => res == match modal_from(holder) {
            Ok(m) => Ok(InteractionResponse::Modal(m)),
            Err(e) => Err(e),
        },
    }
}

/// A response built from data for a type has that type.
pub proof fn lemma_to_response_kind(
    holder: CallbackDataHolder,
    kind: ResponseType,
    res: Result<InteractionResponse, ResponseDataError>,
)
    requires
        response_from(holder, kind, res),
    ensures
        res matches Ok(response) ==> response_kind(response) == kind,
        res matches Err(e) ==> e.kind == kind && e.data == holder,
{
}

/// Distinct response types have distinct wire numbers.
pub proof fn lemma_response_type_number_injective(a: ResponseType, b: ResponseType)
    ensures
        response_type_number(a) == response_type_number(b) ==> a == b,
{
}

impl CallbackDataHolder {
    /// The response of the given type made of this data.
    pub fn to_response(self, kind: ResponseType) -> (res: Result<
        InteractionResponse,
        ResponseDataError,
    >)
        ensures
            response_from(self, kind, res),
    {
        match kind {
            ResponseType::Pong | ResponseType::DeferredUpdateMessage => Err(self.to_error(kind)),
            ResponseType::ChannelMessageWithSource => Ok(
                InteractionResponse::ChannelMessageWithSource(self.to_callback_data()),
            ),
            ResponseType::DeferredChannelMessageWithSource => Ok(
                InteractionResponse::DeferredChannelMessageWithSource(self.to_callback_data()),
            ),
            ResponseType::UpdateMessage => Ok(
                InteractionResponse::UpdateMessage(self.to_callback_data()),
            ),
            ResponseType::ApplicationCommandAutocompleteResult => match self.to_auto_complete() {
                Ok(a) => Ok(InteractionResponse::Autocomplete(a)),
                Err(e) => Err(e),
            },
            ResponseType::Modal => match self.to_modal() {
                Ok(m) => Ok(InteractionResponse::Modal(m)),
                Err(e) => Err(e),
            },
        }
    }

    /// The callback data made of the message fields; an absent embed list
    /// becomes an empty one.
    pub fn to_callback_data(self) -> (res: CallbackData)
        ensures
            callback_data_from(self, res),
    {
        let embeds = match self.embeds {
            Some(embeds) => embeds,
            None => Vec::new(),
        };
        CallbackData {
            allowed_mentions: self.allowed_mentions,
            components: self.components,
            content: self.content,
            embeds,
            flags: self.flags,
            tts: self.tts,
        }
    }

    /// The autocomplete data made of the choices, which must be present.
    pub fn to_auto_complete(self) -> (res: Result<Autocomplete, ResponseDataError>)
        ensures
            res == autocomplete_from(self),
    {
        if self.choices.is_none() {
            return Err(self.to_error(ResponseType::ApplicationCommandAutocompleteResult));
        }
        Ok(Autocomplete { choices: self.choices.unwrap() })
    }

    /// The modal data made of the custom id, title and components, which must
    /// all be present.
    pub fn to_modal(self) -> (res: Result<ModalData, ResponseDataError>)
        ensures
            res == modal_from(self),
    {
        if self.custom_id.is_none() || self.title.is_none() || self.components.is_none() {
            return Err(self.to_error(ResponseType::Modal));
        }
        Ok(
            ModalData {
                custom_id: self.custom_id.unwrap(),
                title: self.title.unwrap(),
                components: self.components.unwrap(),
            },
        )
    }

    /// The error reporting that this data does not fit the response type.
    pub fn to_error(self, kind: ResponseType) -> (res: ResponseDataError)
        ensures
            res == (ResponseDataError { kind, data: self }),
    {
        ResponseDataError { kind, data: self }
    }
}

} // verus!
