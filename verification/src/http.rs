//! Request builders: the settings of a request, checked as they are set.

use vstd::prelude::*;

use crate::channel::{ChannelType, PermissionOverwrite, VideoQualityMode};
use crate::channel_validation::{self, ChannelValidationError};
use crate::command::CommandOption;
use crate::command_validation::{self, CommandValidationError, CommandValidationErrorType};
use crate::id::Id;

verus! {

/// Settings of a channel update; absent settings are left unchanged.
#[derive(Clone, Copy, Debug, PartialEq, Eq)]
pub struct UpdateChannelFields<'a> {
    pub bitrate: Option<u64>,
    pub name: Option<&'a str>,
    pub nsfw: Option<bool>,
    /// `Some(None)` removes the channel from its category.
    pub parent_id: Option<Option<Id>>,
    pub permission_overwrites: Option<&'a [PermissionOverwrite]>,
    pub position: Option<u64>,
    pub rate_limit_per_user: Option<u64>,
    pub topic: Option<&'a str>,
    pub user_limit: Option<u64>,
    pub video_quality_mode: Option<VideoQualityMode>,
    pub kind: Option<ChannelType>,
}

/// A setting written into a channel update's request body, with its value.
#[derive(Clone, Copy, Debug, PartialEq, Eq)]
pub enum UpdateChannelEntry<'a> {
    Bitrate(u64),
    Name(&'a str),
    Nsfw(bool),
    ParentId(Option<Id>),
    PermissionOverwrites(&'a [PermissionOverwrite]),
    Position(u64),
    RateLimitPerUser(u64),
    Topic(&'a str),
    UserLimit(u64),
    VideoQualityMode(VideoQualityMode),
    Kind(ChannelType),
}

/// Key under which a setting is written; the kind of channel is written as
/// `type`.
pub open spec fn update_channel_entry_key<'a>(entry: UpdateChannelEntry<'a>) -> Seq<char> {
    match entry {
        UpdateChannelEntry::Bitrate(_) => "bitrate"@,
        UpdateChannelEntry::Name(_) => "name"@,
        UpdateChannelEntry::Nsfw(_) => "nsfw"@,
        UpdateChannelEntry::ParentId(_) => "parent_id"@,
        UpdateChannelEntry::PermissionOverwrites(_) => "permission_overwrites"@,
        UpdateChannelEntry::Position(_) => "position"@,
        UpdateChannelEntry::RateLimitPerUser(_) => "rate_limit_per_user"@,
        UpdateChannelEntry::Topic(_) => "topic"@,
        UpdateChannelEntry::UserLimit(_) => "user_limit"@,
        UpdateChannelEntry::VideoQualityMode(_) => "video_quality_mode"@,
        UpdateChannelEntry::Kind(_) => "type"@,
    }
}

impl<'a> UpdateChannelEntry<'a> {
    /// Key under which the setting is written.
    pub fn key(&self) -> (res: &'static str)
        ensures
            res@ == update_channel_entry_key(*self),
    {
        match self {
            UpdateChannelEntry::Bitrate(_) => "bitrate",
            UpdateChannelEntry::Name(_) => "name",
            UpdateChannelEntry::Nsfw(_) => "nsfw",
            UpdateChannelEntry::ParentId(_) => "parent_id",
            UpdateChannelEntry::PermissionOverwrites(_) => "permission_overwrites",
            UpdateChannelEntry::Position(_) => "position",
            UpdateChannelEntry::RateLimitPerUser(_) => "rate_limit_per_user",
            UpdateChannelEntry::Topic(_) => "topic",
            UpdateChannelEntry::UserLimit(_) => "user_limit",
            UpdateChannelEntry::VideoQualityMode(_) => "video_quality_mode",
            UpdateChannelEntry::Kind(_) => "type",
        }
    }
}

/// Each setting of a channel update is written under its API field name, the
/// kind of channel under `type`.
pub proof fn lemma_channel_entry_keys<'a>(entry: UpdateChannelEntry<'a>)
    ensures
        update_channel_entry_key(entry) == match entry {
            UpdateChannelEntry::Bitrate(_) => seq!['b', 'i', 't', 'r', 'a', 't', 'e'],
            UpdateChannelEntry::Name(_) => seq!['n', 'a', 'm', 'e'],
            UpdateChannelEntry::Nsfw(_) => seq!['n', 's', 'f', 'w'],
            UpdateChannelEntry::ParentId(_) => seq!['p', 'a', 'r', 'e', 'n', 't', '_', 'i', 'd'],
            UpdateChannelEntry::PermissionOverwrites(_) => seq![
                'p',
                'e',
                'r',
                'm',
                'i',
                's',
                's',
                'i',
                'o',
                'n',
                '_',
                'o',
                'v',
                'e',
                'r',
                'w',
                'r',
                'i',
                't',
                'e',
                's',
            ],
            UpdateChannelEntry::Position(_) => seq!['p', 'o', 's', 'i', 't', 'i', 'o', 'n'],
            UpdateChannelEntry::RateLimitPerUser(_) => seq![
                'r',
                'a',
                't',
                'e',
                '_',
                'l',
                'i',
                'm',
                'i',
                't',
                '_',
                'p',
                'e',
                'r',
                '_',
                'u',
                's',
                'e',
                'r',
            ],
            UpdateChannelEntry::Topic(_) => seq!['t', 'o', 'p', 'i', 'c'],
            UpdateChannelEntry::UserLimit(_) => seq![
                'u',
                's',
                'e',
                'r',
                '_',
                'l',
                'i',
                'm',
                'i',
                't',
            ],
            UpdateChannelEntry::VideoQualityMode(_) => seq![
                'v',
                'i',
                'd',
                'e',
                'o',
                '_',
                'q',
                'u',
                'a',
                'l',
                'i',
                't',
                'y',
                '_',
                'm',
                'o',
                'd',
                'e',
            ],
            UpdateChannelEntry::Kind(_) => seq!['t', 'y', 'p', 'e'],
        },
{
    reveal_strlit("bitrate");
    reveal_strlit("name");
    reveal_strlit("nsfw");
    reveal_strlit("parent_id");
    reveal_strlit("permission_overwrites");
    reveal_strlit("position");
    reveal_strlit("rate_limit_per_user");
    reveal_strlit("topic");
    reveal_strlit("user_limit");
    reveal_strlit("video_quality_mode");
    reveal_strlit("type");
}

/// The one entry of a present setting, or none.
pub open spec fn entry_seq<T>(entry: Option<T>) -> Seq<T> {
    match entry {
        Some(e) => seq![e],
        None => Seq::empty(),
    }
}

/// Append the entry of a setting, if it is present.
fn push_entry<T>(out: &mut Vec<T>, entry: Option<T>)
    ensures
        final(out)@ == old(out)@ + entry_seq(entry),
{
    if let Some(e) = entry {
        out.push(e);
    }
    assert(out@ =~= old(out)@ + entry_seq(entry));
}

/// Entries of a channel update's request body: exactly the given settings, in
/// the order bitrate, name, nsfw, parent, permission overwrites, position, rate
/// limit, topic, user limit, video quality mode, kind. A parent set to `None`
/// is written as an explicit null.
pub open spec fn update_channel_entries<'a>(fields: UpdateChannelFields<'a>) -> Seq<
    UpdateChannelEntry<'a>,
> {
    entry_seq(
        match fields.bitrate {
            Some(v) => Some(UpdateChannelEntry::Bitrate(v)),
            None => None,
        },
    )
        + entry_seq(
        match fields.name {
            Some(v) => Some(UpdateChannelEntry::Name(v)),
            None => None,
        },
    )
        + entry_seq(
        match fields.nsfw {
            Some(v) => Some(UpdateChannelEntry::Nsfw(v)),
            None => None,
        },
    )
        + entry_seq(
        match fields.parent_id {
            Some(v) => Some(UpdateChannelEntry::ParentId(v)),
            None => None,
        },
    )
        + entry_seq(
        match fields.permission_overwrites {
            Some(v) => Some(UpdateChannelEntry::PermissionOverwrites(v)),
            None => None,
        },
    )
        + entry_seq(
        match fields.position {
            Some(v) => Some(UpdateChannelEntry::Position(v)),
            None => None,
        },
    )
        + entry_seq(
        match fields.rate_limit_per_user {
            Some(v) => Some(UpdateChannelEntry::RateLimitPerUser(v)),
            None => None,
        },
    )
        + entry_seq(
        match fields.topic {
            Some(v) => Some(UpdateChannelEntry::Topic(v)),
            None => None,
        },
    )
        + entry_seq(
        match fields.user_limit {
            Some(v) => Some(UpdateChannelEntry::UserLimit(v)),
            None => None,
        },
    )
        + entry_seq(
        match fields.video_quality_mode {
            Some(v) => Some(UpdateChannelEntry::VideoQualityMode(v)),
            None => None,
        },
    )
        + entry_seq(
        match fields.kind {
            Some(v) => Some(UpdateChannelEntry::Kind(v)),
            None => None,
        },
    )
}

/// A new channel update gives no setting, so its request body is empty.
pub proof fn lemma_new_channel_update_body_empty<'a>()
    ensures
        update_channel_entries(no_channel_fields::<'a>()).len() == 0,
{
}

/// Maximum length of an audit-log reason, in codepoints.
pub const AUDIT_REASON_MAX: usize = 512;

/// Type of [`AuditLogReasonError`] that occurred.
#[derive(Debug, PartialEq, Eq)]
#[non_exhaustive]
pub enum AuditLogReasonErrorType {
    /// The reason is longer than [`AUDIT_REASON_MAX`] codepoints.
    TooLarge {
        /// The provided reason.
        reason: String,
    },
}

/// An audit-log reason is not valid.
#[derive(Debug)]
pub struct AuditLogReasonError {
    kind: AuditLogReasonErrorType,
}

impl View for AuditLogReasonError {
    type V = AuditLogReasonErrorType;

    closed spec fn view(&self) -> AuditLogReasonErrorType {
        self.kind
    }
}

impl AuditLogReasonError {
    /// Immutable reference to the type of error that occurred.
    pub fn kind(&self) -> (res: &AuditLogReasonErrorType)
        ensures
            *res == self@,
    {
        &self.kind
    }

    /// Ensure an audit-log reason is at most [`AUDIT_REASON_MAX`] codepoints
    /// long, handing the reason back when it is.
    ///
    /// The limit is the one of the HTTP client's audit-log reason check, which
    /// is not among the sources here; it is stated from that client's
    /// documented maximum.
    pub fn validate(reason: &str) -> (res: Result<&str, AuditLogReasonError>)
        ensures
            res is Ok <==> reason@.len() <= AUDIT_REASON_MAX,
            res matches Ok(r) ==> r == reason,
            res matches Err(e) ==> e@ matches AuditLogReasonErrorType::TooLarge { reason: text }
                && text@ == reason@,
    {
        if reason.unicode_len() <= AUDIT_REASON_MAX {
            Ok(reason)
        } else {
            Err(
                AuditLogReasonError {
                    kind: AuditLogReasonErrorType::TooLarge { reason: String::from_str(reason) },
                },
            )
        }
    }
}

/// Update a channel.
///
/// All fields are optional. The minimum length of the name is 1 UTF-16
/// character and the maximum is 100 UTF-16 characters.
#[derive(Debug)]
pub struct UpdateChannel<'a> {
    channel_id: Id,
    fields: UpdateChannelFields<'a>,
    reason: Option<&'a str>,
}

impl<'a> View for UpdateChannel<'a> {
    /// The channel, the settings, and the audit-log reason.
    type V = (Id, UpdateChannelFields<'a>, Option<&'a str>);

    closed spec fn view(&self) -> (Id, UpdateChannelFields<'a>, Option<&'a str>) {
        (self.channel_id, self.fields, self.reason)
    }
}

/// No setting given.
pub open spec fn no_channel_fields<'a>() -> UpdateChannelFields<'a> {
    UpdateChannelFields {
        bitrate: None,
        name: None,
        nsfw: None,
        parent_id: None,
        permission_overwrites: None,
        position: None,
        rate_limit_per_user: None,
        topic: None,
        user_limit: None,
        video_quality_mode: None,
        kind: None,
    }
}

impl<'a> UpdateChannel<'a> {
    /// An update of the channel with no setting given.
    pub fn new(channel_id: Id) -> (res: Self)
        ensures
            res@ == (channel_id, no_channel_fields(), None::<&'a str>),
    {
        UpdateChannel {
            channel_id,
            fields: UpdateChannelFields {
                bitrate: None,
                name: None,
                nsfw: None,
                parent_id: None,
                permission_overwrites: None,
                position: None,
                rate_limit_per_user: None,
                topic: None,
                user_limit: None,
                video_quality_mode: None,
                kind: None,
            },
            reason: None,
        }
    }

    /// ID of the channel to update.
    pub fn channel_id(&self) -> (res: Id)
        ensures
            res == self@.0,
    {
        self.channel_id
    }

    /// The settings given so far.
    pub fn fields(&self) -> (res: UpdateChannelFields<'a>)
        ensures
            res == self@.1,
    {
        self.fields
    }

    /// The audit-log reason given so far.
    pub fn audit_log_reason(&self) -> (res: Option<&'a str>)
        ensures
            res == self@.2,
    {
        self.reason
    }

    /// Attach an audit-log reason, at most [`AUDIT_REASON_MAX`] codepoints
    /// long; otherwise the error is of type [`TooLarge`] and nothing is set.
    ///
    /// [`TooLarge`]: AuditLogReasonErrorType::TooLarge
    pub fn reason(self, reason: &'a str) -> (res: Result<Self, AuditLogReasonError>)
        ensures
            res is Ok <==> reason@.len() <= AUDIT_REASON_MAX,
            res matches Ok(r) ==> r@ == (self@.0, self@.1, Some(reason)),
            res matches Err(e) ==> e@ matches AuditLogReasonErrorType::TooLarge { reason: text }
                && text@ == reason@,
    {
        let checked = match AuditLogReasonError::validate(reason) {
            Ok(r) => r,
            Err(e) => {
                return Err(e);
            },
        };
        let mut this = self;
        this.reason = Some(checked);
        Ok(this)
    }

    /// Entries of the request body: exactly the settings given, in order.
    pub fn body_entries(&self) -> (res: Vec<UpdateChannelEntry<'a>>)
        ensures
            res@ == update_channel_entries(self@.1),
    {
        let mut out: Vec<UpdateChannelEntry<'a>> = Vec::new();
        push_entry(
            &mut out,
            match self.fields.bitrate {
                Some(v) => Some(UpdateChannelEntry::Bitrate(v)),
                None => None,
            },
        );
        assert(out@ =~= entry_seq(match self.fields.bitrate {
            Some(v) => Some(UpdateChannelEntry::Bitrate(v)),
            None => None,
        }));
        push_entry(
            &mut out,
            match self.fields.name {
                Some(v) => Some(UpdateChannelEntry::Name(v)),
                None => None,
            },
        );
        push_entry(
            &mut out,
            match self.fields.nsfw {
                Some(v) => Some(UpdateChannelEntry::Nsfw(v)),
                None => None,
            },
        );
        push_entry(
            &mut out,
            match self.fields.parent_id {
                Some(v) => Some(UpdateChannelEntry::ParentId(v)),
                None => None,
            },
        );
        push_entry(
            &mut out,
            match self.fields.permission_overwrites {
                Some(v) => Some(UpdateChannelEntry::PermissionOverwrites(v)),
                None => None,
            },
        );
        push_entry(
            &mut out,
            match self.fields.position {
                Some(v) => Some(UpdateChannelEntry::Position(v)),
                None => None,
            },
        );
        push_entry(
            &mut out,
            match self.fields.rate_limit_per_user {
                Some(v) => Some(UpdateChannelEntry::RateLimitPerUser(v)),
                None => None,
            },
        );
        push_entry(
            &mut out,
            match self.fields.topic {
                Some(v) => Some(UpdateChannelEntry::Topic(v)),
                None => None,
            },
        );
        push_entry(
            &mut out,
            match self.fields.user_limit {
                Some(v) => Some(UpdateChannelEntry::UserLimit(v)),
                None => None,
            },
        );
        push_entry(
            &mut out,
            match self.fields.video_quality_mode {
                Some(v) => Some(UpdateChannelEntry::VideoQualityMode(v)),
                None => None,
            },
        );
        push_entry(
            &mut out,
            match self.fields.kind {
                Some(v) => Some(UpdateChannelEntry::Kind(v)),
                None => None,
            },
        );
        out
    }

    /// Set the bitrate of the channel. Applicable to voice channels only.
    pub fn bitrate(self, bitrate: u64) -> (res: Self)
        ensures
            res@ == (self@.0, UpdateChannelFields { bitrate: Some(bitrate), ..self@.1 }, self@.2),
    {
        let mut this = self;
        this.fields.bitrate = Some(bitrate);
        this
    }

    /// Set the name, which must be between 1 and 100 UTF-16 code units long;
    /// otherwise the error is of type [`NameInvalid`] and nothing is set.
    ///
    /// [`NameInvalid`]: channel_validation::ChannelValidationErrorType::NameInvalid
    pub fn name(self, name: &'a str) -> (res: Result<Self, ChannelValidationError>)
        ensures
            res is Ok <==> channel_validation::CHANNEL_NAME_LENGTH_MIN <= channel_validation::utf16_length(
                name@,
            ) <= channel_validation::CHANNEL_NAME_LENGTH_MAX,
            res matches Ok(r) ==> r@ == (self@.0, UpdateChannelFields { name: Some(name), ..self@.1 }, self@.2),
            res matches Err(e) ==> e@ == channel_validation::ChannelValidationErrorType::NameInvalid,
    {
        match channel_validation::name(name) {
            Ok(()) => {},
            Err(e) => {
                return Err(e);
            },
        }
        let mut this = self;
        this.fields.name = Some(name);
        Ok(this)
    }

    /// Set whether the channel is marked as NSFW.
    pub fn nsfw(self, nsfw: bool) -> (res: Self)
        ensures
            res@ == (self@.0, UpdateChannelFields { nsfw: Some(nsfw), ..self@.1 }, self@.2),
    {
        let mut this = self;
        this.fields.nsfw = Some(nsfw);
        this
    }

    /// Move the channel into a category, or out of any with `None`.
    pub fn parent_id(self, parent_id: Option<Id>) -> (res: Self)
        ensures
            res@ == (self@.0, UpdateChannelFields { parent_id: Some(parent_id), ..self@.1 }, self@.2),
    {
        let mut this = self;
        this.fields.parent_id = Some(parent_id);
        this
    }

    /// Set the permission overwrites of a channel, replacing all that it has.
    pub fn permission_overwrites(self, permission_overwrites: &'a [PermissionOverwrite]) -> (res:
        Self)
        ensures
            res@ == (self@.0, UpdateChannelFields {
                permission_overwrites: Some(permission_overwrites),
                ..self@.1
            }, self@.2),
    {
        let mut this = self;
        this.fields.permission_overwrites = Some(permission_overwrites);
        this
    }

    /// Set the position of the channel.
    pub fn position(self, position: u64) -> (res: Self)
        ensures
            res@ == (self@.0, UpdateChannelFields { position: Some(position), ..self@.1 }, self@.2),
    {
        let mut this = self;
        this.fields.position = Some(position);
        this
    }

    /// Set the number of seconds a user must wait before sending another
    /// message, at most 21600; otherwise the error is of type
    /// [`RateLimitPerUserInvalid`] and nothing is set.
    ///
    /// [`RateLimitPerUserInvalid`]: channel_validation::ChannelValidationErrorType::RateLimitPerUserInvalid
    pub fn rate_limit_per_user(self, rate_limit_per_user: u64) -> (res: Result<
        Self,
        ChannelValidationError,
    >)
        ensures
            res is Ok <==> rate_limit_per_user <= channel_validation::CHANNEL_RATE_LIMIT_PER_USER_MAX,
            res matches Ok(r) ==> r@ == (self@.0, UpdateChannelFields {
                rate_limit_per_user: Some(rate_limit_per_user),
                ..self@.1
            }, self@.2),
            res matches Err(e) ==> e@
                == (channel_validation::ChannelValidationErrorType::RateLimitPerUserInvalid {
                rate_limit_per_user,
            }),
    {
        match channel_validation::rate_limit_per_user(rate_limit_per_user) {
            Ok(()) => {},
            Err(e) => {
                return Err(e);
            },
        }
        let mut this = self;
        this.fields.rate_limit_per_user = Some(rate_limit_per_user);
        Ok(this)
    }

    /// Set the topic, at most 1024 UTF-16 code units long; otherwise the error
    /// is of type [`TopicInvalid`] and nothing is set.
    ///
    /// [`TopicInvalid`]: channel_validation::ChannelValidationErrorType::TopicInvalid
    pub fn topic(self, topic: &'a str) -> (res: Result<Self, ChannelValidationError>)
        ensures
            res is Ok <==> channel_validation::utf16_length(topic@)
                <= channel_validation::CHANNEL_TOPIC_LENGTH_MAX,
            res matches Ok(r) ==> r@ == (self@.0, UpdateChannelFields {
                topic: Some(topic),
                ..self@.1
            }, self@.2),
            res matches Err(e) ==> e@ == channel_validation::ChannelValidationErrorType::TopicInvalid,
    {
        match channel_validation::topic(topic) {
            Ok(()) => {},
            Err(e) => {
                return Err(e);
            },
        }
        let mut this = self;
        this.fields.topic = Some(topic);
        Ok(this)
    }

    /// For voice channels, set the user limit; 0 means no limit.
    pub fn user_limit(self, user_limit: u64) -> (res: Self)
        ensures
            res@ == (self@.0, UpdateChannelFields { user_limit: Some(user_limit), ..self@.1 }, self@.2),
    {
        let mut this = self;
        this.fields.user_limit = Some(user_limit);
        this
    }

    /// Set the video quality mode of the voice channel.
    pub fn video_quality_mode(self, video_quality_mode: VideoQualityMode) -> (res: Self)
        ensures
            res@ == (self@.0, UpdateChannelFields {
                video_quality_mode: Some(video_quality_mode),
                ..self@.1
            }, self@.2),
    {
        let mut this = self;
        this.fields.video_quality_mode = Some(video_quality_mode);
        this
    }

    /// Set the kind of channel.
    pub fn kind(self, kind: ChannelType) -> (res: Self)
        ensures
            res@ == (self@.0, UpdateChannelFields { kind: Some(kind), ..self@.1 }, self@.2),
    {
        let mut this = self;
        this.fields.kind = Some(kind);
        this
    }
}

/// Settings of a guild command edit; absent settings are left unchanged.
#[derive(Clone, Copy, Debug, PartialEq, Eq)]
pub struct UpdateGuildCommandFields<'a> {
    pub description: Option<&'a str>,
    pub name: Option<&'a str>,
    pub options: Option<&'a [CommandOption]>,
}

/// A setting written into a guild command edit's request body, with its value.
#[derive(Clone, Copy, Debug, PartialEq, Eq)]
pub enum UpdateGuildCommandEntry<'a> {
    Description(&'a str),
    Name(&'a str),
    Options(&'a [CommandOption]),
}

/// Key under which a setting is written.
pub open spec fn update_guild_command_entry_key<'a>(entry: UpdateGuildCommandEntry<'a>) -> Seq<
    char,
> {
    match entry {
        UpdateGuildCommandEntry::Description(_) => "description"@,
        UpdateGuildCommandEntry::Name(_) => "name"@,
        UpdateGuildCommandEntry::Options(_) => "options"@,
    }
}

impl<'a> UpdateGuildCommandEntry<'a> {
    /// Key under which the setting is written.
    pub fn key(&self) -> (res: &'static str)
        ensures
            res@ == update_guild_command_entry_key(*self),
    {
        match self {
            UpdateGuildCommandEntry::Description(_) => "description",
            UpdateGuildCommandEntry::Name(_) => "name",
            UpdateGuildCommandEntry::Options(_) => "options",
        }
    }
}

/// Each setting of a guild command edit is written under its API field name:
/// the description under `description`, the name under `name`, the options
/// under `options`.
pub proof fn lemma_guild_command_entry_keys<'a>(entry: UpdateGuildCommandEntry<'a>)
    ensures
        entry is Description ==> update_guild_command_entry_key(entry) == seq![
            'd',
            'e',
            's',
            'c',
            'r',
            'i',
            'p',
            't',
            'i',
            'o',
            'n',
        ],
        entry is Name ==> update_guild_command_entry_key(entry) == seq!['n', 'a', 'm', 'e'],
        entry is Options ==> update_guild_command_entry_key(entry) == seq![
            'o',
            'p',
            't',
            'i',
            'o',
            'n',
            's',
        ],
{
    reveal_strlit("description");
    reveal_strlit("name");
    reveal_strlit("options");
}

/// Entries of a guild command edit's request body: exactly the given
/// settings, in the order description, name, options.
pub open spec fn update_guild_command_entries<'a>(fields: UpdateGuildCommandFields<'a>) -> Seq<
    UpdateGuildCommandEntry<'a>,
> {
    entry_seq(
        match fields.description {
            Some(v) => Some(UpdateGuildCommandEntry::Description(v)),
            None => None,
        },
    ) + entry_seq(
        match fields.name {
            Some(v) => Some(UpdateGuildCommandEntry::Name(v)),
            None => None,
        },
    ) + entry_seq(
        match fields.options {
            Some(v) => Some(UpdateGuildCommandEntry::Options(v)),
            None => None,
        },
    )
}

/// Edit a command in a guild, by ID.
#[derive(Debug)]
pub struct UpdateGuildCommand<'a> {
    fields: UpdateGuildCommandFields<'a>,
    application_id: Id,
    command_id: Id,
    guild_id: Id,
}

/// Identifiers of the edited command: application, guild and command.
#[derive(Clone, Copy, Debug, PartialEq, Eq)]
pub struct GuildCommandIds {
    pub application_id: Id,
    pub guild_id: Id,
    pub command_id: Id,
}

impl<'a> View for UpdateGuildCommand<'a> {
    type V = (GuildCommandIds, UpdateGuildCommandFields<'a>);

    closed spec fn view(&self) -> (GuildCommandIds, UpdateGuildCommandFields<'a>) {
        (
            GuildCommandIds {
                application_id: self.application_id,
                guild_id: self.guild_id,
                command_id: self.command_id,
            },
            self.fields,
        )
    }
}

impl<'a> UpdateGuildCommand<'a> {
    /// An edit of the command with no setting given.
    pub fn new(application_id: Id, guild_id: Id, command_id: Id) -> (res: Self)
        ensures
            res@.0 == (GuildCommandIds { application_id, guild_id, command_id }),
            res@.1 == (UpdateGuildCommandFields { description: None, name: None, options: None }),
    {
        UpdateGuildCommand {
            application_id,
            command_id,
            fields: UpdateGuildCommandFields { description: None, name: None, options: None },
            guild_id,
        }
    }

    /// The settings given so far.
    pub fn fields(&self) -> (res: UpdateGuildCommandFields<'a>)
        ensures
            res == self@.1,
    {
        self.fields
    }

    /// Identifiers of the edited command, which name the request's route.
    pub fn ids(&self) -> (res: GuildCommandIds)
        ensures
            res == self@.0,
    {
        GuildCommandIds {
            application_id: self.application_id,
            guild_id: self.guild_id,
            command_id: self.command_id,
        }
    }

    /// Entries of the request body: exactly the settings given, in order.
    pub fn body_entries(&self) -> (res: Vec<UpdateGuildCommandEntry<'a>>)
        ensures
            res@ == update_guild_command_entries(self@.1),
    {
        let mut out: Vec<UpdateGuildCommandEntry<'a>> = Vec::new();
        push_entry(
            &mut out,
            match self.fields.description {
                Some(v) => Some(UpdateGuildCommandEntry::Description(v)),
                None => None,
            },
        );
        assert(out@ =~= entry_seq(
            match self.fields.description {
                Some(v) => Some(UpdateGuildCommandEntry::Description(v)),
                None => None,
            },
        ));
        push_entry(
            &mut out,
            match self.fields.name {
                Some(v) => Some(UpdateGuildCommandEntry::Name(v)),
                None => None,
            },
        );
        push_entry(
            &mut out,
            match self.fields.options {
                Some(v) => Some(UpdateGuildCommandEntry::Options(v)),
                None => None,
            },
        );
        out
    }

    /// Edit the name of the command.
    pub fn name(self, name: &'a str) -> (res: Self)
        ensures
            res@ == (self@.0, UpdateGuildCommandFields { name: Some(name), ..self@.1 }),
    {
        let mut this = self;
        this.fields.name = Some(name);
        this
    }

    /// Edit the description of the command.
    pub fn description(self, description: &'a str) -> (res: Self)
        ensures
            res@ == (self@.0, UpdateGuildCommandFields { description: Some(description), ..self@.1 }),
    {
        let mut this = self;
        this.fields.description = Some(description);
        this
    }

    /// Edit the command options of the command.
    pub fn command_options(self, options: &'a [CommandOption]) -> (res: Self)
        ensures
            res@ == (self@.0, UpdateGuildCommandFields { options: Some(options), ..self@.1 }),
    {
        let mut this = self;
        this.fields.options = Some(options);
        this
    }
}

/// Create a new global command; its type is chosen by one of the methods.
#[derive(Debug)]
pub struct CreateGlobalCommand {
    application_id: Id,
}

impl View for CreateGlobalCommand {
    type V = Id;

    closed spec fn view(&self) -> Id {
        self.application_id
    }
}

/// Create a new global chat input command.
#[derive(Debug)]
pub struct CreateGlobalChatInputCommand<'a> {
    pub application_id: Id,
    pub name: &'a str,
    pub description: &'a str,
}

/// Create a new global message command.
#[derive(Debug)]
pub struct CreateGlobalMessageCommand<'a> {
    pub application_id: Id,
    pub name: &'a str,
}

/// Create a new global user command.
#[derive(Debug)]
pub struct CreateGlobalUserCommand<'a> {
    pub application_id: Id,
    pub name: &'a str,
}

/// Outcome of validating a chat input command's name and description: the
/// name's length, then its characters, then the description's length.
pub open spec fn chat_input_command_outcome(name: Seq<char>, description: Seq<char>) -> Result<
    (),
    CommandValidationErrorType,
> {
    if !(command_validation::NAME_LENGTH_MIN <= name.len() <= command_validation::NAME_LENGTH_MAX) {
        Err(CommandValidationErrorType::NameLengthInvalid)
    } else if command_validation::first_disallowed_char(name) is Some {
        Err(
            CommandValidationErrorType::NameCharacterInvalid {
                character: command_validation::first_disallowed_char(name)->0,
            },
        )
    } else if !(command_validation::DESCRIPTION_LENGTH_MIN <= description.len()
        <= command_validation::DESCRIPTION_LENGTH_MAX) {
        Err(CommandValidationErrorType::DescriptionInvalid)
    } else {
        Ok(())
    }
}

impl CreateGlobalCommand {
    /// Start creating a global command of the application.
    pub fn new(application_id: Id) -> (res: Self)
        ensures
            res@ == application_id,
    {
        CreateGlobalCommand { application_id }
    }

    /// Create a new chat input global command, whose name must be 1 to 32
    /// codepoints of alphanumeric characters, `-` or `_` in their lowercase
    /// forms, and whose description must be 1 to 100 codepoints long.
    pub fn chat_input<'a>(self, name: &'a str, description: &'a str) -> (res: Result<
        CreateGlobalChatInputCommand<'a>,
        CommandValidationError,
    >)
        ensures
            res is Ok <==> chat_input_command_outcome(name@, description@) is Ok,
            res matches Err(e) ==> chat_input_command_outcome(name@, description@) == Err::<
                (),
                CommandValidationErrorType,
            >(e@),
            res matches Ok(c) ==> c.application_id == self@ && c.name == name && c.description
                == description,
    {
        match command_validation::chat_input_name(name) {
            Ok(()) => {},
            Err(e) => {
                return Err(e);
            },
        }
        match command_validation::description(description) {
            Ok(()) => {},
            Err(e) => {
                return Err(e);
            },
        }
        Ok(CreateGlobalChatInputCommand { application_id: self.application_id, name, description })
    }

    /// Create a new message global command, whose name must be 1 to 32
    /// codepoints long.
    pub fn message<'a>(self, name: &'a str) -> (res: Result<
        CreateGlobalMessageCommand<'a>,
        CommandValidationError,
    >)
        ensures
            res is Ok <==> command_validation::NAME_LENGTH_MIN <= name@.len()
                <= command_validation::NAME_LENGTH_MAX,
            res matches Err(e) ==> e@ == CommandValidationErrorType::NameLengthInvalid,
            res matches Ok(c) ==> c.application_id == self@ && c.name == name,
    {
        match command_validation::name(name) {
            Ok(()) => {},
            Err(e) => {
                return Err(e);
            },
        }
        Ok(CreateGlobalMessageCommand { application_id: self.application_id, name })
    }

    /// Create a new user global command, whose name must be 1 to 32 codepoints
    /// long.
    pub fn user<'a>(self, name: &'a str) -> (res: Result<
        CreateGlobalUserCommand<'a>,
        CommandValidationError,
    >)
        ensures
            res is Ok <==> command_validation::NAME_LENGTH_MIN <= name@.len()
                <= command_validation::NAME_LENGTH_MAX,
            res matches Err(e) ==> e@ == CommandValidationErrorType::NameLengthInvalid,
            res matches Ok(c) ==> c.application_id == self@ && c.name == name,
    {
        match command_validation::name(name) {
            Ok(()) => {},
            Err(e) => {
                return Err(e);
            },
        }
        Ok(CreateGlobalUserCommand { application_id: self.application_id, name })
    }
}

/// Returns a single sticker by its ID.
#[derive(Debug)]
pub struct GetSticker {
    sticker_id: Id,
}

impl View for GetSticker {
    type V = Id;

    closed spec fn view(&self) -> Id {
        self.sticker_id
    }
}

impl GetSticker {
    /// A request for the sticker with the given ID.
    pub fn new(sticker_id: Id) -> (res: Self)
        ensures
            res@ == sticker_id,
    {
        GetSticker { sticker_id }
    }

    /// ID of the requested sticker.
    pub fn sticker_id(&self) -> (res: Id)
        ensures
            res == self@,
    {
        self.sticker_id
    }
}

} // verus!
