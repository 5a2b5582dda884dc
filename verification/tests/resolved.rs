use ccg_bot::premium_subscriber::{self, ExpectedNull};
use ccg_bot::{
    is_false, Attachment, CommandInteractionResolved, JsonNumber, JsonValue, LocalChannelType,
    PartialChannel, Role, RoleTags,
};

#[test]
fn attachment_default_is_empty() {
    let a = Attachment::default();
    assert_eq!(a.id, 0);
    assert_eq!(a.filename, "");
    assert_eq!(a.height, None);
    assert_eq!(a.proxy_url, "");
    assert_eq!(a.size, 0);
    assert_eq!(a.url, "");
    assert_eq!(a.width, None);
    assert_eq!(a.content_type, None);
    assert!(!a.ephemeral);
    assert_eq!(a.clone(), a);
    let _ = format!("{:?}", a);
}

#[test]
fn partial_channel_default() {
    let c = PartialChannel::default();
    assert_eq!(c.id, 0);
    assert_eq!(c.name, Some(String::new()));
    assert_eq!(c.kind, LocalChannelType::Unknown);
    assert_eq!(c.permissions, Some(0));
    assert_eq!(c.clone(), c);
    let _ = format!("{:?}", c);
}

#[test]
fn role_default() {
    let r = Role::default();
    assert_eq!(r.id, 0);
    assert_eq!(r.guild_id, 0);
    assert_eq!(r.colour, 0);
    assert!(!r.hoist && !r.managed && !r.mentionable);
    assert_eq!(r.name, "");
    assert_eq!(r.permissions, 0);
    assert_eq!(r.position, 0);
    assert_eq!(r.tags, RoleTags::default());
    assert_eq!(r.icon, None);
    assert_eq!(r.unicode_emoji, None);
    assert_eq!(r.clone(), r);
}

#[test]
fn role_tags_default() {
    let t = RoleTags::default();
    assert_eq!(t.bot_id, None);
    assert_eq!(t.integration_id, None);
    assert!(!t.premium_subscriber);
    let _ = format!("{:?}", t.clone());
}

#[test]
fn role_from_resolved_drops_icon_and_emoji() {
    let tags = RoleTags { bot_id: Some(7), integration_id: None, premium_subscriber: true };
    let r = Role::from_resolved(1, 2, 0x00ff00, true, false, true, "mods".to_string(), 8, 3, tags.clone());
    assert_eq!(r.id, 1);
    assert_eq!(r.guild_id, 2);
    assert_eq!(r.colour, 0x00ff00);
    assert!(r.hoist);
    assert!(!r.managed);
    assert!(r.mentionable);
    assert_eq!(r.name, "mods");
    assert_eq!(r.permissions, 8);
    assert_eq!(r.position, 3);
    assert_eq!(r.tags, tags);
    assert_eq!(r.icon, None);
    assert_eq!(r.unicode_emoji, None);
}

#[test]
fn is_false_of_both_values() {
    assert!(is_false(&false));
    assert!(!is_false(&true));
}

#[test]
fn premium_subscriber_null_sets_the_tag() {
    assert_eq!(premium_subscriber::deserialize(&JsonValue::Null), Ok(true));
}

#[test]
fn premium_subscriber_refuses_other_values() {
    assert_eq!(premium_subscriber::deserialize(&JsonValue::Bool(true)), Err(ExpectedNull));
    assert_eq!(premium_subscriber::deserialize(&JsonValue::Bool(false)), Err(ExpectedNull));
    assert_eq!(
        premium_subscriber::deserialize(&JsonValue::Number(JsonNumber::PosInt(1))),
        Err(ExpectedNull)
    );
    assert_eq!(
        premium_subscriber::deserialize(&JsonValue::String(String::new())),
        Err(ExpectedNull)
    );
}

#[test]
fn premium_subscriber_serializes_as_null() {
    assert!(matches!(premium_subscriber::serialize(&true), JsonValue::Null));
    assert!(matches!(premium_subscriber::serialize(&false), JsonValue::Null));
}

#[test]
fn premium_subscriber_round_trip() {
    for flag in [false, true] {
        // Written as the encoding writes it: skipped when unset, `null` otherwise.
        let read = if is_false(&flag) {
            false
        } else {
            premium_subscriber::deserialize(&premium_subscriber::serialize(&flag)).unwrap()
        };
        assert_eq!(read, flag);
    }
}

#[test]
fn resolved_string_debug() {
    let cir = CommandInteractionResolved::String("Test".to_string());
    assert_eq!(format!("{:?}", cir), "String(\"Test\")");
}

#[test]
fn resolved_user_carries_the_user() {
    let user: serenity::model::user::User = serde_json::from_str(
        r#"{"id":"1","username":"u","discriminator":"0001","avatar":null,"bot":false}"#,
    )
    .unwrap();
    match CommandInteractionResolved::User(user, None) {
        CommandInteractionResolved::User(u, m) => {
            assert_eq!(u.id.0, 1);
            assert!(m.is_none());
        },
        _ => panic!("wrong variant"),
    }
}

#[test]
fn role_without_icon_survives_rebuilding() {
    let role = Role {
        id: 10,
        guild_id: 20,
        colour: 0xabcdef,
        hoist: true,
        managed: true,
        mentionable: false,
        name: "admins".to_string(),
        permissions: 0x8,
        position: -1,
        tags: RoleTags { bot_id: None, integration_id: Some(5), premium_subscriber: false },
        icon: None,
        unicode_emoji: None,
    };
    let rebuilt = Role::from_resolved(
        role.id,
        role.guild_id,
        role.colour,
        role.hoist,
        role.managed,
        role.mentionable,
        role.name.clone(),
        role.permissions,
        role.position,
        role.tags.clone(),
    );
    assert_eq!(rebuilt, role);
    let defaults = Role::default();
    let rebuilt = Role::from_resolved(
        0, 0, 0, false, false, false, String::new(), 0, 0, RoleTags::default(),
    );
    assert_eq!(rebuilt, defaults);
}
