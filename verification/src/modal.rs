//! Submissions of modals.

use vstd::prelude::*;

use crate::id::Id;
use crate::user::{PartialMember, User};

verus! {

/// Type of an interaction.
#[derive(Clone, Copy, Debug, PartialEq, Eq, Hash, Structural)]
pub enum InteractionType {
    Ping,
    ApplicationCommand,
    MessageComponent,
    ApplicationCommandAutocomplete,
    ModalSubmit,
}

/// Value submitted for a component of a modal.
#[derive(Clone, Debug, PartialEq, Eq, Hash)]
pub enum ModalComponentValue {
    /// Text entered into an input text.
    InputText(String),
}

/// A submitted component of a modal.
#[derive(Clone, Debug, PartialEq, Eq, Hash)]
pub struct ModalInteractionDataComponent {
    pub custom_id: String,
    pub value: ModalComponentValue,
}

/// A row of submitted components of a modal.
#[derive(Clone, Debug, PartialEq, Eq, Hash)]
pub struct ModalInteractionDataActionRow {
    pub components: Vec<ModalInteractionDataComponent>,
}

/// Data of a submitted modal.
#[derive(Clone, Debug, PartialEq, Eq, Hash)]
pub struct ModalInteractionData {
    pub custom_id: String,
    pub components: Vec<ModalInteractionDataActionRow>,
}

/// Information present in a modal submission.
#[derive(Clone, Debug, PartialEq, Eq)]
pub struct ModalSubmitInteraction {
    /// ID of the associated application.
    pub application_id: Id,
    /// ID of the channel the interaction was triggered from.
    pub channel_id: Id,
    /// Data from the submitted modal.
    pub data: ModalInteractionData,
    /// ID of the guild the interaction was triggered from.
    pub guild_id: Option<Id>,
    /// ID of the interaction.
    pub id: Id,
    /// Type of the interaction.
    pub kind: InteractionType,
    /// Member that triggered the interaction, present in a guild.
    pub member: Option<PartialMember>,
    /// Token of the interaction.
    pub token: String,
    /// User that triggered the interaction, present in a direct message.
    pub user: Option<User>,
}

/// ID of the user that submitted the modal: the member's user's ID when the
/// member and its user are present, otherwise the user's ID when the user is
/// present, otherwise none.
pub open spec fn modal_author_id(interaction: ModalSubmitInteraction) -> Option<Id> {
    if interaction.member is Some && interaction.member->0.user is Some {
        Some(interaction.member->0.user->0.id)
    } else if interaction.user is Some {
        Some(interaction.user->0.id)
    } else {
        None
    }
}

impl ModalSubmitInteraction {
    /// ID of the user that submitted the modal.
    pub fn author_id(&self) -> (res: Option<Id>)
        ensures
            res == modal_author_id(*self),
    {
        if let Some(member) = &self.member {
            if let Some(user) = &member.user {
                return Some(user.id);
            }
        }
        if let Some(user) = &self.user {
            return Some(user.id);
        }
        None
    }
}

} // verus!
