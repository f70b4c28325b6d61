use twilight::channel::{
    ChannelType, PermissionOverwrite, PermissionOverwriteType, VideoQualityMode,
};
use twilight::channel_validation::{self, ChannelValidationErrorType};
use twilight::command::{CommandOption, CommandOptionType};
use twilight::http::{GetSticker, UpdateChannel, UpdateGuildCommand};
use twilight::id::Id;

#[test]
fn update_channel_settings() {
    let overwrites = [PermissionOverwrite {
        allow: 1,
        deny: 2,
        id: Id::new(3),
        kind: PermissionOverwriteType::Role,
    }];
    let request = UpdateChannel::new(Id::new(10))
        .bitrate(64000)
        .name("general")
        .unwrap()
        .nsfw(true)
        .parent_id(None)
        .permission_overwrites(&overwrites)
        .position(2)
        .rate_limit_per_user(21600)
        .unwrap()
        .topic("a topic")
        .unwrap()
        .user_limit(5)
        .video_quality_mode(VideoQualityMode::Full)
        .kind(ChannelType::GuildNews);
    assert_eq!(request.channel_id(), Id::new(10));
    let fields = request.fields();
    assert_eq!(fields.bitrate, Some(64000));
    assert_eq!(fields.name, Some("general"));
    assert_eq!(fields.nsfw, Some(true));
    assert_eq!(fields.parent_id, Some(None));
    assert_eq!(fields.permission_overwrites, Some(&overwrites[..]));
    assert_eq!(fields.position, Some(2));
    assert_eq!(fields.rate_limit_per_user, Some(21600));
    assert_eq!(fields.topic, Some("a topic"));
    assert_eq!(fields.user_limit, Some(5));
    assert_eq!(fields.video_quality_mode, Some(VideoQualityMode::Full));
    assert_eq!(fields.kind, Some(ChannelType::GuildNews));
}

#[test]
fn update_channel_rejects_invalid_settings() {
    let error = UpdateChannel::new(Id::new(1)).name("").unwrap_err();
    assert_eq!(*error.kind(), ChannelValidationErrorType::NameInvalid);
    let long = "a".repeat(101);
    assert!(UpdateChannel::new(Id::new(1)).name(&long).is_err());
    let ok = "a".repeat(100);
    assert!(UpdateChannel::new(Id::new(1)).name(&ok).is_ok());
    // characters beyond the Basic Multilingual Plane take two UTF-16 units
    let emoji = "😀".repeat(51);
    assert!(UpdateChannel::new(Id::new(1)).name(&emoji).is_err());
    let emoji = "😀".repeat(50);
    assert!(UpdateChannel::new(Id::new(1)).name(&emoji).is_ok());

    let error = UpdateChannel::new(Id::new(1))
        .rate_limit_per_user(21601)
        .unwrap_err();
    assert_eq!(
        error.into_kind(),
        ChannelValidationErrorType::RateLimitPerUserInvalid {
            rate_limit_per_user: 21601
        }
    );
    let topic = "t".repeat(1025);
    let error = UpdateChannel::new(Id::new(1)).topic(&topic).unwrap_err();
    assert_eq!(*error.kind(), ChannelValidationErrorType::TopicInvalid);
    assert!(UpdateChannel::new(Id::new(1)).topic("").is_ok());
}

#[test]
fn channel_validation_limits() {
    assert!(channel_validation::name("a").is_ok());
    assert!(channel_validation::rate_limit_per_user(0).is_ok());
    assert!(channel_validation::topic(&"é".repeat(1024)).is_ok());
    assert!(channel_validation::topic(&"é".repeat(1025)).is_err());
    assert_eq!(ChannelType::GuildCategory.number(), 4);
    assert_eq!(ChannelType::GuildStageVoice.number(), 13);
}

#[test]
fn update_guild_command_settings() {
    let options = [CommandOption {
        kind: CommandOptionType::String,
        name: "query".to_owned(),
        description: "what to look for".to_owned(),
        required: true,
        autocomplete: false,
        choices: Vec::new(),
    }];
    let request = UpdateGuildCommand::new(Id::new(1), Id::new(2), Id::new(3))
        .name("search")
        .description("searches")
        .command_options(&options);
    let fields = request.fields();
    assert_eq!(fields.name, Some("search"));
    assert_eq!(fields.description, Some("searches"));
    assert_eq!(fields.options.map(|o| o.len()), Some(1));
    let untouched = UpdateGuildCommand::new(Id::new(1), Id::new(2), Id::new(3)).fields();
    assert_eq!(untouched.name, None);
    assert_eq!(untouched.description, None);
    assert!(untouched.options.is_none());
}

#[test]
fn get_sticker_id() {
    assert_eq!(GetSticker::new(Id::new(123)).sticker_id(), Id::new(123));
}

use twilight::command_validation::CommandValidationErrorType;
use twilight::http::CreateGlobalCommand;

#[test]
fn create_global_chat_input_command() {
    let command = CreateGlobalCommand::new(Id::new(5))
        .chat_input("ping-pong_2ñ", "plays ping pong")
        .unwrap();
    assert_eq!(command.application_id, Id::new(5));
    assert_eq!(command.name, "ping-pong_2ñ");
    assert_eq!(command.description, "plays ping pong");

    let error = CreateGlobalCommand::new(Id::new(5))
        .chat_input("Ping", "x")
        .unwrap_err();
    assert_eq!(
        error.into_kind(),
        CommandValidationErrorType::NameCharacterInvalid { character: 'P' }
    );
    let error = CreateGlobalCommand::new(Id::new(5))
        .chat_input("ping pong", "x")
        .unwrap_err();
    assert_eq!(
        *error.kind(),
        CommandValidationErrorType::NameCharacterInvalid { character: ' ' }
    );
    // the name's length is checked before its characters
    let long = "P".repeat(33);
    let error = CreateGlobalCommand::new(Id::new(5))
        .chat_input(&long, "x")
        .unwrap_err();
    assert_eq!(error.into_kind(), CommandValidationErrorType::NameLengthInvalid);
    let error = CreateGlobalCommand::new(Id::new(5))
        .chat_input("ping", "")
        .unwrap_err();
    assert_eq!(error.into_kind(), CommandValidationErrorType::DescriptionInvalid);
    let description = "d".repeat(101);
    assert!(CreateGlobalCommand::new(Id::new(5))
        .chat_input("ping", &description)
        .is_err());
}

#[test]
fn create_global_message_and_user_commands() {
    let command = CreateGlobalCommand::new(Id::new(5)).message("Any Name!").unwrap();
    assert_eq!(command.name, "Any Name!");
    assert_eq!(command.application_id, Id::new(5));
    let error = CreateGlobalCommand::new(Id::new(5)).message("").unwrap_err();
    assert_eq!(error.into_kind(), CommandValidationErrorType::NameLengthInvalid);
    let long = "u".repeat(33);
    assert!(CreateGlobalCommand::new(Id::new(5)).user(&long).is_err());
    let command = CreateGlobalCommand::new(Id::new(6)).user(&long[..32]).unwrap();
    assert_eq!(command.application_id, Id::new(6));
}

use twilight::http::{AuditLogReasonError, AuditLogReasonErrorType, UpdateChannelEntry, UpdateGuildCommandEntry};

#[test]
fn update_channel_new_has_no_reason_and_empty_body() {
    let request = UpdateChannel::new(Id::new(4));
    assert_eq!(request.audit_log_reason(), None);
    assert!(request.body_entries().is_empty());
}

#[test]
fn update_channel_reason() {
    let request = UpdateChannel::new(Id::new(4)).nsfw(false).reason("cleanup").unwrap();
    assert_eq!(request.audit_log_reason(), Some("cleanup"));
    assert_eq!(request.fields().nsfw, Some(false));
    let reason = "r".repeat(512);
    assert!(UpdateChannel::new(Id::new(4)).reason(&reason).is_ok());
    let reason = "r".repeat(513);
    let error = UpdateChannel::new(Id::new(4)).reason(&reason).unwrap_err();
    assert_eq!(
        *error.kind(),
        AuditLogReasonErrorType::TooLarge { reason: reason.clone() }
    );
    assert_eq!(AuditLogReasonError::validate("ok").unwrap(), "ok");
}

#[test]
fn update_channel_body_entries() {
    let request = UpdateChannel::new(Id::new(4))
        .kind(ChannelType::GuildText)
        .parent_id(None)
        .bitrate(8);
    let entries = request.body_entries();
    assert_eq!(
        entries,
        vec![
            UpdateChannelEntry::Bitrate(8),
            UpdateChannelEntry::ParentId(None),
            UpdateChannelEntry::Kind(ChannelType::GuildText),
        ]
    );
    let keys: Vec<&str> = entries.iter().map(|e| e.key()).collect();
    assert_eq!(keys, vec!["bitrate", "parent_id", "type"]);
}

#[test]
fn update_guild_command_body_and_ids() {
    let request = UpdateGuildCommand::new(Id::new(1), Id::new(2), Id::new(3))
        .name("n")
        .description("d");
    assert_eq!(
        request.body_entries(),
        vec![
            UpdateGuildCommandEntry::Description("d"),
            UpdateGuildCommandEntry::Name("n"),
        ]
    );
    assert_eq!(UpdateGuildCommandEntry::Name("n").key(), "name");
    let ids = request.ids();
    assert_eq!(ids.application_id, Id::new(1));
    assert_eq!(ids.guild_id, Id::new(2));
    assert_eq!(ids.command_id, Id::new(3));
}
