use twilight::datetime::Timestamp;
use twilight::id::Id;
use twilight::modal::{
    InteractionType, ModalComponentValue, ModalInteractionData, ModalInteractionDataActionRow,
    ModalInteractionDataComponent, ModalSubmitInteraction,
};
use twilight::user::{PartialMember, User};

fn user(id: Id) -> User {
    User {
        accent_color: None,
        avatar: None,
        banner: None,
        bot: false,
        discriminator: 4444,
        email: None,
        flags: None,
        id,
        locale: None,
        mfa_enabled: None,
        name: "twilight".to_owned(),
        premium_type: None,
        public_flags: None,
        system: None,
        verified: None,
    }
}

fn user_id() -> Id {
    Id::new(7)
}

fn in_guild() -> ModalSubmitInteraction {
    ModalSubmitInteraction {
        application_id: Id::new(1),
        channel_id: Id::new(1),
        data: ModalInteractionData {
            custom_id: "the-id".to_owned(),
            components: Vec::from([ModalInteractionDataActionRow {
                components: Vec::from([ModalInteractionDataComponent {
                    custom_id: "input-1".to_owned(),
                    value: ModalComponentValue::InputText("got it".to_owned()),
                }]),
            }]),
        },
        guild_id: Some(Id::new(1)),
        id: Id::new(1),
        kind: InteractionType::ModalSubmit,
        member: Some(PartialMember {
            avatar: None,
            deaf: false,
            // 2020-02-02T02:02:02.020000+00:00
            joined_at: Timestamp::from_micros(1_580_608_922_020_000),
            mute: false,
            nick: None,
            permissions: None,
            premium_since: None,
            roles: Vec::new(),
            user: Some(user(user_id())),
            communication_disabled_until: None,
        }),
        token: "TOKEN".to_owned(),
        user: None,
    }
}

#[test]
fn test_author_id() {
    let in_guild = in_guild();

    assert_eq!(Some(user_id()), in_guild.author_id());

    let in_dm = ModalSubmitInteraction {
        member: None,
        user: Some(user(user_id())),
        ..in_guild
    };
    assert_eq!(Some(user_id()), in_dm.author_id());
}

#[test]
fn author_id_prefers_member_user() {
    let mut interaction = in_guild();
    interaction.user = Some(user(Id::new(9)));
    assert_eq!(interaction.author_id(), Some(user_id()));

    // a member without a user falls back to the user
    interaction.member.as_mut().unwrap().user = None;
    assert_eq!(interaction.author_id(), Some(Id::new(9)));

    interaction.user = None;
    assert_eq!(interaction.author_id(), None);
}

#[test]
fn id_values() {
    assert_eq!(Id::new(42).get(), 42);
    assert_eq!(Id::new_checked(0), None);
    assert_eq!(Id::new_checked(3), Some(Id::new(3)));
    assert_eq!(Timestamp::from_micros(-5).as_micros(), -5);
}
