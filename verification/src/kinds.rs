//! Enumerations that Discord transmits as plain numbers.
//!
//! Each type is encoded as its number; decoding a number that names no
//! variant gives `Unknown`, whose own number is 255.
use vstd::prelude::*;

verus! {

/// The kind of an application command.
#[derive(Copy, Clone, Debug, Hash, Eq, PartialEq, Structural, PartialOrd, Ord)]
pub enum LocalCommandType {
    ChatInput,
    User,
    Message,
    Unknown,
}

impl LocalCommandType {
    /// The number that encodes this kind.
    pub open spec fn spec_num(self) -> u64 {
        match self {
            LocalCommandType::ChatInput => 1,
            LocalCommandType::User => 2,
            LocalCommandType::Message => 3,
            LocalCommandType::Unknown => 255,
        }
    }

    /// The kind that a number decodes to.
    pub open spec fn spec_from_num(n: u64) -> LocalCommandType {
        if n == 1 {
            LocalCommandType::ChatInput
        } else if n == 2 {
            LocalCommandType::User
        } else if n == 3 {
            LocalCommandType::Message
        } else {
            LocalCommandType::Unknown
        }
    }

    /// Returns the number that encodes this kind.
    pub fn num(&self) -> (n: u64)
        ensures
            n == self.spec_num(),
    {
        match self {
            LocalCommandType::ChatInput => 1,
            LocalCommandType::User => 2,
            LocalCommandType::Message => 3,
            LocalCommandType::Unknown => 255,
        }
    }

    /// Decodes a number; one that names no kind gives `Unknown`.
    pub fn from_num(n: u64) -> (t: LocalCommandType)
        ensures
            t == Self::spec_from_num(n),
    {
        if n == 1 {
            LocalCommandType::ChatInput
        } else if n == 2 {
            LocalCommandType::User
        } else if n == 3 {
            LocalCommandType::Message
        } else {
            LocalCommandType::Unknown
        }
    }
}

/// The number of each variant.
pub proof fn lemma_command_type_numbers()
    ensures
        LocalCommandType::ChatInput.spec_num() == 1,
        LocalCommandType::User.spec_num() == 2,
        LocalCommandType::Message.spec_num() == 3,
        LocalCommandType::Unknown.spec_num() == 255,
{
}

/// A number that numbers no variant decodes to `Unknown`.
pub proof fn lemma_command_type_unknown(n: u64)
    requires
        n != 1 && n != 2 && n != 3,
    ensures
        LocalCommandType::spec_from_num(n) == LocalCommandType::Unknown,
{
}

/// Decoding the number of a kind gives that kind back.
pub proof fn lemma_command_type_num_round_trip(t: LocalCommandType)
    ensures
        LocalCommandType::spec_from_num(t.spec_num()) == t,
{
}

/// A number survives decoding and encoding exactly when it is the number of
/// some kind.
pub proof fn lemma_command_type_num_canonical(n: u64)
    ensures
        LocalCommandType::spec_from_num(n).spec_num() == n <==> (n == 1 || n == 2 || n == 3 || n == 255),
{
}

/// The kind of a command option: a subcommand, a group of them, or the type of value it takes.
#[derive(Copy, Clone, Debug, Hash, Eq, PartialEq, Structural, PartialOrd, Ord)]
pub enum LocalCommandOptionType {
    SubCommand,
    SubCommandGroup,
    String,
    Integer,
    Boolean,
    User,
    Channel,
    Role,
    Mentionable,
    Number,
    Attachment,
    Unknown,
}

impl LocalCommandOptionType {
    /// The number that encodes this option type.
    pub open spec fn spec_num(self) -> u64 {
        match self {
            LocalCommandOptionType::SubCommand => 1,
            LocalCommandOptionType::SubCommandGroup => 2,
            LocalCommandOptionType::String => 3,
            LocalCommandOptionType::Integer => 4,
            LocalCommandOptionType::Boolean => 5,
            LocalCommandOptionType::User => 6,
            LocalCommandOptionType::Channel => 7,
            LocalCommandOptionType::Role => 8,
            LocalCommandOptionType::Mentionable => 9,
            LocalCommandOptionType::Number => 10,
            LocalCommandOptionType::Attachment => 11,
            LocalCommandOptionType::Unknown => 255,
        }
    }

    /// The option type that a number decodes to.
    pub open spec fn spec_from_num(n: u64) -> LocalCommandOptionType {
        if n == 1 {
            LocalCommandOptionType::SubCommand
        } else if n == 2 {
            LocalCommandOptionType::SubCommandGroup
        } else if n == 3 {
            LocalCommandOptionType::String
        } else if n == 4 {
            LocalCommandOptionType::Integer
        } else if n == 5 {
            LocalCommandOptionType::Boolean
        } else if n == 6 {
            LocalCommandOptionType::User
        } else if n == 7 {
            LocalCommandOptionType::Channel
        } else if n == 8 {
            LocalCommandOptionType::Role
        } else if n == 9 {
            LocalCommandOptionType::Mentionable
        } else if n == 10 {
            LocalCommandOptionType::Number
        } else if n == 11 {
            LocalCommandOptionType::Attachment
        } else {
            LocalCommandOptionType::Unknown
        }
    }

    /// Returns the number that encodes this option type.
    pub fn num(&self) -> (n: u64)
        ensures
            n == self.spec_num(),
    {
        match self {
            LocalCommandOptionType::SubCommand => 1,
            LocalCommandOptionType::SubCommandGroup => 2,
            LocalCommandOptionType::String => 3,
            LocalCommandOptionType::Integer => 4,
            LocalCommandOptionType::Boolean => 5,
            LocalCommandOptionType::User => 6,
            LocalCommandOptionType::Channel => 7,
            LocalCommandOptionType::Role => 8,
            LocalCommandOptionType::Mentionable => 9,
            LocalCommandOptionType::Number => 10,
            LocalCommandOptionType::Attachment => 11,
            LocalCommandOptionType::Unknown => 255,
        }
    }

    /// Decodes a number; one that names no option type gives `Unknown`.
    pub fn from_num(n: u64) -> (t: LocalCommandOptionType)
        ensures
            t == Self::spec_from_num(n),
    {
        if n == 1 {
            LocalCommandOptionType::SubCommand
        } else if n == 2 {
            LocalCommandOptionType::SubCommandGroup
        } else if n == 3 {
            LocalCommandOptionType::String
        } else if n == 4 {
            LocalCommandOptionType::Integer
        } else if n == 5 {
            LocalCommandOptionType::Boolean
        } else if n == 6 {
            LocalCommandOptionType::User
        } else if n == 7 {
            LocalCommandOptionType::Channel
        } else if n == 8 {
            LocalCommandOptionType::Role
        } else if n == 9 {
            LocalCommandOptionType::Mentionable
        } else if n == 10 {
            LocalCommandOptionType::Number
        } else if n == 11 {
            LocalCommandOptionType::Attachment
        } else {
            LocalCommandOptionType::Unknown
        }
    }
}

/// The number of each variant.
pub proof fn lemma_option_type_numbers()
    ensures
        LocalCommandOptionType::SubCommand.spec_num() == 1,
        LocalCommandOptionType::SubCommandGroup.spec_num() == 2,
        LocalCommandOptionType::String.spec_num() == 3,
        LocalCommandOptionType::Integer.spec_num() == 4,
        LocalCommandOptionType::Boolean.spec_num() == 5,
        LocalCommandOptionType::User.spec_num() == 6,
        LocalCommandOptionType::Channel.spec_num() == 7,
        LocalCommandOptionType::Role.spec_num() == 8,
        LocalCommandOptionType::Mentionable.spec_num() == 9,
        LocalCommandOptionType::Number.spec_num() == 10,
        LocalCommandOptionType::Attachment.spec_num() == 11,
        LocalCommandOptionType::Unknown.spec_num() == 255,
{
}

/// A number that numbers no variant decodes to `Unknown`.
pub proof fn lemma_option_type_unknown(n: u64)
    requires
        n != 1 && n != 2 && n != 3 && n != 4 && n != 5 && n != 6 && n != 7 && n != 8 && n != 9 && n != 10 && n != 11,
    ensures
        LocalCommandOptionType::spec_from_num(n) == LocalCommandOptionType::Unknown,
{
}

/// Decoding the number of a option type gives that option type back.
pub proof fn lemma_option_type_num_round_trip(t: LocalCommandOptionType)
    ensures
        LocalCommandOptionType::spec_from_num(t.spec_num()) == t,
{
}

/// A number survives decoding and encoding exactly when it is the number of
/// some option type.
pub proof fn lemma_option_type_num_canonical(n: u64)
    ensures
        LocalCommandOptionType::spec_from_num(n).spec_num() == n <==> (n == 1 || n == 2 || n == 3 || n == 4 || n == 5 || n == 6 || n == 7 || n == 8 || n == 9 || n == 10 || n == 11 || n == 255),
{
}

/// The kind of a channel.
#[derive(Copy, Clone, Debug, Hash, Eq, PartialEq, Structural, PartialOrd, Ord)]
pub enum LocalChannelType {
    Text,
    Private,
    Voice,
    Category,
    News,
    NewsThread,
    PublicThread,
    PrivateThread,
    Stage,
    Directory,
    Unknown,
}

impl LocalChannelType {
    /// The number that encodes this channel type.
    pub open spec fn spec_num(self) -> u64 {
        match self {
            LocalChannelType::Text => 0,
            LocalChannelType::Private => 1,
            LocalChannelType::Voice => 2,
            LocalChannelType::Category => 4,
            LocalChannelType::News => 5,
            LocalChannelType::NewsThread => 10,
            LocalChannelType::PublicThread => 11,
            LocalChannelType::PrivateThread => 12,
            LocalChannelType::Stage => 13,
            LocalChannelType::Directory => 14,
            LocalChannelType::Unknown => 255,
        }
    }

    /// The channel type that a number decodes to.
    pub open spec fn spec_from_num(n: u64) -> LocalChannelType {
        if n == 0 {
            LocalChannelType::Text
        } else if n == 1 {
            LocalChannelType::Private
        } else if n == 2 {
            LocalChannelType::Voice
        } else if n == 4 {
            LocalChannelType::Category
        } else if n == 5 {
            LocalChannelType::News
        } else if n == 10 {
            LocalChannelType::NewsThread
        } else if n == 11 {
            LocalChannelType::PublicThread
        } else if n == 12 {
            LocalChannelType::PrivateThread
        } else if n == 13 {
            LocalChannelType::Stage
        } else if n == 14 {
            LocalChannelType::Directory
        } else {
            LocalChannelType::Unknown
        }
    }

    /// Returns the number that encodes this channel type.
    pub fn num(&self) -> (n: u64)
        ensures
            n == self.spec_num(),
    {
        match self {
            LocalChannelType::Text => 0,
            LocalChannelType::Private => 1,
            LocalChannelType::Voice => 2,
            LocalChannelType::Category => 4,
            LocalChannelType::News => 5,
            LocalChannelType::NewsThread => 10,
            LocalChannelType::PublicThread => 11,
            LocalChannelType::PrivateThread => 12,
            LocalChannelType::Stage => 13,
            LocalChannelType::Directory => 14,
            LocalChannelType::Unknown => 255,
        }
    }

    /// Decodes a number; one that names no channel type gives `Unknown`.
    pub fn from_num(n: u64) -> (t: LocalChannelType)
        ensures
            t == Self::spec_from_num(n),
    {
        if n == 0 {
            LocalChannelType::Text
        } else if n == 1 {
            LocalChannelType::Private
        } else if n == 2 {
            LocalChannelType::Voice
        } else if n == 4 {
            LocalChannelType::Category
        } else if n == 5 {
            LocalChannelType::News
        } else if n == 10 {
            LocalChannelType::NewsThread
        } else if n == 11 {
            LocalChannelType::PublicThread
        } else if n == 12 {
            LocalChannelType::PrivateThread
        } else if n == 13 {
            LocalChannelType::Stage
        } else if n == 14 {
            LocalChannelType::Directory
        } else {
            LocalChannelType::Unknown
        }
    }
}

/// The number of each variant.
pub proof fn lemma_channel_type_numbers()
    ensures
        LocalChannelType::Text.spec_num() == 0,
        LocalChannelType::Private.spec_num() == 1,
        LocalChannelType::Voice.spec_num() == 2,
        LocalChannelType::Category.spec_num() == 4,
        LocalChannelType::News.spec_num() == 5,
        LocalChannelType::NewsThread.spec_num() == 10,
        LocalChannelType::PublicThread.spec_num() == 11,
        LocalChannelType::PrivateThread.spec_num() == 12,
        LocalChannelType::Stage.spec_num() == 13,
        LocalChannelType::Directory.spec_num() == 14,
        LocalChannelType::Unknown.spec_num() == 255,
{
}

/// A number that numbers no variant decodes to `Unknown`.
pub proof fn lemma_channel_type_unknown(n: u64)
    requires
        n != 0 && n != 1 && n != 2 && n != 4 && n != 5 && n != 10 && n != 11 && n != 12 && n != 13 && n != 14,
    ensures
        LocalChannelType::spec_from_num(n) == LocalChannelType::Unknown,
{
}

/// Decoding the number of a channel type gives that channel type back.
pub proof fn lemma_channel_type_num_round_trip(t: LocalChannelType)
    ensures
        LocalChannelType::spec_from_num(t.spec_num()) == t,
{
}

/// A number survives decoding and encoding exactly when it is the number of
/// some channel type.
pub proof fn lemma_channel_type_num_canonical(n: u64)
    ensures
        LocalChannelType::spec_from_num(n).spec_num() == n <==> (n == 0 || n == 1 || n == 2 || n == 4 || n == 5 || n == 10 || n == 11 || n == 12 || n == 13 || n == 14 || n == 255),
{
}

} // verus!
