//! What the platform tells about a guild, as plain values.
//!
//! Guilds, channels, categories and members are known by their numbers. The
//! types here hold what the decisions of this library read, and nothing else.

use vstd::prelude::*;

verus! {

/// What is set when the manager is made: the name of the designated channel,
/// the only one from which rooms are built and whose category holds them.
#[derive(Clone, Debug)]
pub struct Config {
    pub designated_channel: String,
}

/// Which voice channel a member is in, if any.
#[derive(Clone, Copy, Debug, PartialEq, Eq)]
pub struct VoiceState {
    pub channel_id: Option<u64>,
}

/// A channel of a guild.
#[derive(Clone, Debug, PartialEq, Eq)]
pub struct GuildChannel {
    pub id: u64,
    pub name: String,
    pub category_id: Option<u64>,
}

/// The answer to a request for a channel.
#[derive(Clone, Debug, PartialEq, Eq)]
pub enum ChannelLookup {
    /// The platform gave no answer.
    Unresolved,
    /// The channel is outside any guild.
    Private,
    /// The channel belongs to a guild.
    Guild(GuildChannel),
}

/// For whom a permission overwrite holds.
#[derive(Clone, Copy, Debug, PartialEq, Eq)]
pub enum OverwriteTarget {
    Member(u64),
    Role(u64),
}

/// An exception to a channel's permissions: the bits allowed and the bits
/// denied to one member or role.
#[derive(Clone, Copy, Debug, PartialEq, Eq)]
pub struct PermissionOverwrite {
    pub allow: u64,
    pub deny: u64,
    pub kind: OverwriteTarget,
}

/// A category with the overwrites that its channels start from.
#[derive(Clone, Debug, PartialEq, Eq)]
pub struct Category {
    pub id: u64,
    pub overwrites: Vec<PermissionOverwrite>,
}

/// The kind of a channel.
#[derive(Clone, Copy, Debug, PartialEq, Eq)]
pub enum ChannelKind {
    Text,
    Voice,
}

impl ChannelLookup {
    /// The category of the channel, where it belongs to a guild and to a category.
    pub open spec fn category(self) -> Option<u64> {
        match self {
            ChannelLookup::Guild(c) => c.category_id,
            _ => None,
        }
    }
}

} // verus!
