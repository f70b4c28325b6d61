//! Channels and their settings.

use vstd::prelude::*;

use crate::id::Id;

verus! {

/// Type of a channel.
#[derive(Clone, Copy, Debug, PartialEq, Eq, Hash, Structural)]
pub enum ChannelType {
    GuildText,
    Private,
    GuildVoice,
    Group,
    GuildCategory,
    GuildNews,
    GuildStore,
    GuildNewsThread,
    GuildPublicThread,
    GuildPrivateThread,
    GuildStageVoice,
}

/// Wire number of a channel type.
pub open spec fn channel_type_number(kind: ChannelType) -> u8 {
    match kind {
        ChannelType::GuildText => 0,
        ChannelType::Private => 1,
        ChannelType::GuildVoice => 2,
        ChannelType::Group => 3,
        ChannelType::GuildCategory => 4,
        ChannelType::GuildNews => 5,
        ChannelType::GuildStore => 6,
        ChannelType::GuildNewsThread => 10,
        ChannelType::GuildPublicThread => 11,
        ChannelType::GuildPrivateThread => 12,
        ChannelType::GuildStageVoice => 13,
    }
}

impl ChannelType {
    /// Wire number of the channel type.
    pub fn number(self) -> (res: u8)
        ensures
            res == channel_type_number(self),
    {
        match self {
            ChannelType::GuildText => 0,
            ChannelType::Private => 1,
            ChannelType::GuildVoice => 2,
            ChannelType::Group => 3,
            ChannelType::GuildCategory => 4,
            ChannelType::GuildNews => 5,
            ChannelType::GuildStore => 6,
            ChannelType::GuildNewsThread => 10,
            ChannelType::GuildPublicThread => 11,
            ChannelType::GuildPrivateThread => 12,
            ChannelType::GuildStageVoice => 13,
        }
    }
}

/// Video quality of a voice channel.
#[derive(Clone, Copy, Debug, PartialEq, Eq, Hash, Structural)]
pub enum VideoQualityMode {
    /// Chosen by Discord.
    Auto,
    /// 720p.
    Full,
}

/// Whom a permission overwrite applies to.
#[derive(Clone, Copy, Debug, PartialEq, Eq, Hash, Structural)]
pub enum PermissionOverwriteType {
    Member,
    Role,
}

/// Permissions granted and denied to a member or role in a channel.
#[derive(Clone, Copy, Debug, PartialEq, Eq, Hash, Structural)]
pub struct PermissionOverwrite {
    /// Granted permissions, as a bit set.
    pub allow: u64,
    /// Denied permissions, as a bit set.
    pub deny: u64,
    /// ID of the member or role.
    pub id: Id,
    /// Whether the ID names a member or a role.
    pub kind: PermissionOverwriteType,
}

/// A category of guild channels.
#[derive(Clone, Debug, PartialEq, Eq, Hash)]
pub struct CategoryChannel {
    pub guild_id: Option<Id>,
    pub id: Id,
    pub kind: ChannelType,
    pub name: String,
    pub permission_overwrites: Vec<PermissionOverwrite>,
    pub position: i64,
}

} // verus!
