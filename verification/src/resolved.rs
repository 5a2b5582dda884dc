//! The objects that a command option can resolve to.
use vstd::prelude::*;
use serenity::model::guild::PartialMember;
use serenity::model::user::User;
use crate::kinds::LocalChannelType;

verus! {

/// The gateway's user object, carried through unchanged.
#[verifier::external_type_specification]
#[verifier::external_body]
pub struct ExUser(User);

/// The gateway's partial guild member object, carried through unchanged.
#[verifier::external_type_specification]
#[verifier::external_body]
pub struct ExPartialMember(PartialMember);

/// A file attached to a message or given as a command option.
#[derive(Clone, Debug, PartialEq, Eq)]
pub struct Attachment {
    pub id: u64,
    pub filename: String,
    pub height: Option<u64>,
    pub proxy_url: String,
    pub size: u64,
    pub url: String,
    pub width: Option<u64>,
    pub content_type: Option<String>,
    pub ephemeral: bool,
}

impl Default for Attachment {
    /// An attachment with id 0, empty names and no dimensions.
    fn default() -> (a: Self)
        ensures
            a.id == 0,
            a.filename@ == Seq::<char>::empty(),
            a.height is None,
            a.proxy_url@ == Seq::<char>::empty(),
            a.size == 0,
            a.url@ == Seq::<char>::empty(),
            a.width is None,
            a.content_type is None,
            !a.ephemeral,
    {
        Attachment {
            id: 0,
            filename: String::new(),
            height: None,
            proxy_url: String::new(),
            size: 0,
            url: String::new(),
            width: None,
            content_type: None,
            ephemeral: false,
        }
    }
}

/// The tags of a role: the bot or integration it belongs to, and whether it
/// is the guild's booster role.
#[derive(Clone, Debug, PartialEq, Eq)]
pub struct RoleTags {
    pub bot_id: Option<u64>,
    pub integration_id: Option<u64>,
    pub premium_subscriber: bool,
}

impl Default for RoleTags {
    /// No bot, no integration, not the booster role.
    fn default() -> (t: Self)
        ensures
            t.bot_id is None,
            t.integration_id is None,
            !t.premium_subscriber,
    {
        RoleTags { bot_id: None, integration_id: None, premium_subscriber: false }
    }
}

/// A guild role.
#[derive(Clone, Debug, PartialEq, Eq)]
pub struct Role {
    pub id: u64,
    pub guild_id: u64,
    /// The colour, as `0xRRGGBB`.
    pub colour: u32,
    pub hoist: bool,
    pub managed: bool,
    pub mentionable: bool,
    pub name: String,
    /// The permission bits.
    pub permissions: u64,
    pub position: i64,
    pub tags: RoleTags,
    pub icon: Option<String>,
    pub unicode_emoji: Option<String>,
}

impl Default for Role {
    /// A role with every number 0, every flag unset, an empty name, default
    /// tags and no icon or emoji.
    fn default() -> (r: Self)
        ensures
            r.id == 0,
            r.guild_id == 0,
            r.colour == 0,
            !r.hoist,
            !r.managed,
            !r.mentionable,
            r.name@ == Seq::<char>::empty(),
            r.permissions == 0,
            r.position == 0,
            r.tags.bot_id is None,
            r.tags.integration_id is None,
            !r.tags.premium_subscriber,
            r.icon is None,
            r.unicode_emoji is None,
    {
        Role {
            id: 0,
            guild_id: 0,
            colour: 0,
            hoist: false,
            managed: false,
            mentionable: false,
            name: String::new(),
            permissions: 0,
            position: 0,
            tags: RoleTags::default(),
            icon: None,
            unicode_emoji: None,
        }
    }
}

impl Role {
    /// The role that a resolved command option reports: the fields the
    /// gateway sends, with no icon and no emoji.
    pub open spec fn spec_from_resolved(
        id: u64,
        guild_id: u64,
        colour: u32,
        hoist: bool,
        managed: bool,
        mentionable: bool,
        name: String,
        permissions: u64,
        position: i64,
        tags: RoleTags,
    ) -> Role {
        Role {
            id,
            guild_id,
            colour,
            hoist,
            managed,
            mentionable,
            name,
            permissions,
            position,
            tags,
            icon: None,
            unicode_emoji: None,
        }
    }

    /// Builds the role that a resolved command option reports; its icon and
    /// emoji are not carried over.
    pub fn from_resolved(
        id: u64,
        guild_id: u64,
        colour: u32,
        hoist: bool,
        managed: bool,
        mentionable: bool,
        name: String,
        permissions: u64,
        position: i64,
        tags: RoleTags,
    ) -> (r: Role)
        ensures
            r == Self::spec_from_resolved(
                id,
                guild_id,
                colour,
                hoist,
                managed,
                mentionable,
                name,
                permissions,
                position,
                tags,
            ),
    {
        Role {
            id,
            guild_id,
            colour,
            hoist,
            managed,
            mentionable,
            name,
            permissions,
            position,
            tags,
            icon: None,
            unicode_emoji: None,
        }
    }
}

/// A role without icon or emoji comes back unchanged when it is rebuilt from
/// the fields that a resolved command option reports.
pub proof fn lemma_from_resolved_keeps_role(role: Role)
    requires
        role.icon is None,
        role.unicode_emoji is None,
    ensures
        Role::spec_from_resolved(
            role.id,
            role.guild_id,
            role.colour,
            role.hoist,
            role.managed,
            role.mentionable,
            role.name,
            role.permissions,
            role.position,
            role.tags,
        ) == role,
{
}

/// The part of a channel that a resolved command option reports.
#[derive(Clone, Debug, PartialEq, Eq)]
pub struct PartialChannel {
    pub id: u64,
    pub name: Option<String>,
    pub kind: LocalChannelType,
    /// The permission bits of the invoking user in the channel.
    pub permissions: Option<u64>,
}

impl Default for PartialChannel {
    /// Channel 0 of unknown type, with an empty name and no permissions.
    fn default() -> (c: Self)
        ensures
            c.id == 0,
            c.name matches Some(n) && n@ == Seq::<char>::empty(),
            c.kind == LocalChannelType::Unknown,
            c.permissions == Some(0u64),
    {
        PartialChannel {
            id: 0,
            name: Some(String::new()),
            kind: LocalChannelType::Unknown,
            permissions: Some(0),
        }
    }
}

/// What a command option's value resolves to.
#[derive(Debug)]
pub enum CommandInteractionResolved {
    String(String),
    Integer(i64),
    Boolean(bool),
    User(User, Option<PartialMember>),
    Channel(PartialChannel),
    Role(Role),
    /// A number, by its IEEE 754 bit pattern.
    Number(u64),
    Attachment(Attachment),
}

} // verus!
