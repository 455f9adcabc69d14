//! The checks that a command to build has to pass, and the pipeline that runs
//! them in their order.

use vstd::prelude::*;
use vstd::string::*;
use crate::model::{Category, ChannelLookup, Config, VoiceState};
use crate::provision::BuildContext;

verus! {

/// Why a check failed, and for whom the reason is meant.
#[derive(Clone, Debug, PartialEq, Eq)]
pub enum Reason {
    /// No reason is known.
    Unknown,
    /// A message for the member who gave the command.
    User(String),
    /// A line for the log.
    Log(String),
    /// A message for the member and a line for the log.
    UserAndLog { user: String, log: String },
}

/// What a `Reason` says.
pub enum ReasonView {
    Unknown,
    User(Seq<char>),
    Log(Seq<char>),
    UserAndLog { user: Seq<char>, log: Seq<char> },
}

impl View for Reason {
    type V = ReasonView;

    open spec fn view(&self) -> ReasonView {
        match *self {
            Reason::Unknown => ReasonView::Unknown,
            Reason::User(user) => ReasonView::User(user@),
            Reason::Log(log) => ReasonView::Log(log@),
            Reason::UserAndLog { user, log } => ReasonView::UserAndLog { user: user@, log: log@ },
        }
    }
}

/// The outcome of a check.
#[derive(Clone, Debug, PartialEq, Eq)]
pub enum CheckResult {
    Success,
    Failure(Reason),
}

/// What a `CheckResult` says.
pub enum CheckResultView {
    Success,
    Failure(ReasonView),
}

impl View for CheckResult {
    type V = CheckResultView;

    open spec fn view(&self) -> CheckResultView {
        match *self {
            CheckResult::Success => CheckResultView::Success,
            CheckResult::Failure(reason) => CheckResultView::Failure(reason@),
        }
    }
}

/// The answer to a request for the guild of a command.
#[derive(Clone, Copy, Debug, PartialEq, Eq)]
pub enum GuildLookup {
    /// The platform gave no answer.
    Unresolved,
    /// The guild is known, and with it the voice state of the command's
    /// author, where there is one.
    Found { author_voice: Option<VoiceState> },
}

/// A command as it arrives, with what the platform tells about its place.
#[derive(Clone, Debug, PartialEq, Eq)]
pub struct Invocation {
    /// Whether the command was given in a guild.
    pub in_guild: bool,
    /// The channel in which the command was given.
    pub channel: ChannelLookup,
    /// The category of that channel, where it has one and the platform
    /// delivered it.
    pub category: Option<Category>,
    /// The guild of the command.
    pub guild: GuildLookup,
    /// The member who gave the command.
    pub author: u64,
}

/// Why a command was not run.
#[derive(Clone, Debug, PartialEq, Eq)]
pub enum DispatchError {
    /// The command was given outside a guild.
    OnlyForGuilds,
    /// The check of this name failed, for this reason.
    CheckFailed(String, Reason),
    /// Anything else.
    Other,
}

/// What a `DispatchError` says.
pub enum DispatchErrorView {
    OnlyForGuilds,
    CheckFailed(Seq<char>, ReasonView),
    Other,
}

impl View for DispatchError {
    type V = DispatchErrorView;

    open spec fn view(&self) -> DispatchErrorView {
        match *self {
            DispatchError::OnlyForGuilds => DispatchErrorView::OnlyForGuilds,
            DispatchError::CheckFailed(check, reason) => DispatchErrorView::CheckFailed(
                check@,
                reason@,
            ),
            DispatchError::Other => DispatchErrorView::Other,
        }
    }
}

/// The log line for a channel that the platform did not deliver.
pub open spec fn channel_unresolved_text() -> Seq<char> {
    "Could not fetch bot channel info from the Discord API."@
}

/// The message for a command given outside any guild.
pub open spec fn not_in_server_text() -> Seq<char> {
    "This channel isn't inside a server."@
}

/// The message for a command given in another channel than the one named
/// `designated`.
pub open spec fn wrong_channel_text(designated: Seq<char>) -> Seq<char> {
    "This channel isn't named #"@ + designated + ", so commands won't run here."@
}

/// The message for a command given in a channel without a category.
pub open spec fn no_category_text() -> Seq<char> {
    "This channel isn't inside a category."@
}

/// The log line for a category that the platform did not deliver.
pub open spec fn category_unresolved_text() -> Seq<char> {
    "Could not fetch bot category info from the Discord API"@
}

/// The log line for a guild that the platform did not deliver.
pub open spec fn guild_unresolved_text() -> Seq<char> {
    "Could not fetch guild info from the Discord API."@
}

/// The message for a member who is in no voice channel.
pub open spec fn not_in_voice_text() -> Seq<char> {
    "You must be connected to a voice channel in order to run this command."@
}

/// The first check: the command was given in the channel named `designated`.
pub open spec fn match_channel_name(
    designated: Seq<char>,
    channel: ChannelLookup,
) -> CheckResultView {
    match channel {
        ChannelLookup::Unresolved => CheckResultView::Failure(
            ReasonView::Log(channel_unresolved_text()),
        ),
        ChannelLookup::Private => CheckResultView::Failure(ReasonView::User(not_in_server_text())),
        ChannelLookup::Guild(found) => if found.name@ == designated {
            CheckResultView::Success
        } else {
            CheckResultView::Failure(ReasonView::User(wrong_channel_text(designated)))
        },
    }
}

/// The second check: the channel of the command is in a category, and the
/// platform delivered that category.
pub open spec fn ensure_category(
    channel: ChannelLookup,
    category: Option<Category>,
) -> CheckResultView {
    match channel {
        ChannelLookup::Unresolved => CheckResultView::Failure(
            ReasonView::Log(channel_unresolved_text()),
        ),
        ChannelLookup::Private => CheckResultView::Failure(ReasonView::User(not_in_server_text())),
        ChannelLookup::Guild(found) => if found.category_id is None {
            CheckResultView::Failure(ReasonView::User(no_category_text()))
        } else if category is None {
            CheckResultView::Failure(ReasonView::Log(category_unresolved_text()))
        } else {
            CheckResultView::Success
        },
    }
}

/// The third check: the author of the command is in a voice channel.
pub open spec fn ensure_connected_to_voice(guild: GuildLookup) -> CheckResultView {
    match guild {
        GuildLookup::Unresolved => CheckResultView::Failure(
            ReasonView::Log(guild_unresolved_text()),
        ),
        GuildLookup::Found { author_voice } => if author_voice is None {
            CheckResultView::Failure(ReasonView::User(not_in_voice_text()))
        } else {
            CheckResultView::Success
        },
    }
}

/// Checks that the command was given in the designated channel.
pub fn check_match_channel_name(config: &Config, channel: &ChannelLookup) -> (result: CheckResult)
    ensures
        result@ == match_channel_name(config.designated_channel@, *channel),
{
    match channel {
        ChannelLookup::Unresolved => CheckResult::Failure(
            Reason::Log("Could not fetch bot channel info from the Discord API.".to_owned()),
        ),
        ChannelLookup::Private => CheckResult::Failure(
            Reason::User("This channel isn't inside a server.".to_owned()),
        ),
        ChannelLookup::Guild(found) => {
            if found.name == config.designated_channel {
                CheckResult::Success
            } else {
                let mut text = "This channel isn't named #".to_owned();
                text.append(config.designated_channel.as_str());
                text.append(", so commands won't run here.");
                CheckResult::Failure(Reason::User(text))
            }
        },
    }
}

/// Checks that the channel of the command is in a category that the platform
/// delivers. `category` is that category where it was asked for and came.
pub fn check_ensure_category(channel: &ChannelLookup, category: &Option<Category>) -> (result:
    CheckResult)
    ensures
        result@ == ensure_category(*channel, *category),
{
    match channel {
        ChannelLookup::Unresolved => CheckResult::Failure(
            Reason::Log("Could not fetch bot channel info from the Discord API.".to_owned()),
        ),
        ChannelLookup::Private => CheckResult::Failure(
            Reason::User("This channel isn't inside a server.".to_owned()),
        ),
        ChannelLookup::Guild(found) => {
            if found.category_id.is_none() {
                CheckResult::Failure(
                    Reason::User("This channel isn't inside a category.".to_owned()),
                )
            } else if category.is_none() {
                CheckResult::Failure(
                    Reason::Log(
                        "Could not fetch bot category info from the Discord API".to_owned(),
                    ),
                )
            } else {
                CheckResult::Success
            }
        },
    }
}

/// Checks that the author of the command is in a voice channel.
pub fn check_ensure_connected_to_voice(guild: &GuildLookup) -> (result: CheckResult)
    ensures
        result@ == ensure_connected_to_voice(*guild),
{
    match guild {
        GuildLookup::Unresolved => CheckResult::Failure(
            Reason::Log("Could not fetch guild info from the Discord API.".to_owned()),
        ),
        GuildLookup::Found { author_voice } => {
            if author_voice.is_none() {
                CheckResult::Failure(
                    Reason::User(
                        "You must be connected to a voice channel in order to run this command.".to_owned(),
                    ),
                )
            } else {
                CheckResult::Success
            }
        },
    }
}

/// The name of the first check.
pub open spec fn match_channel_name_check() -> Seq<char> {
    "MatchChannelName"@
}

/// The name of the second check.
pub open spec fn ensure_category_check() -> Seq<char> {
    "EnsureCategory"@
}

/// The name of the third check.
pub open spec fn ensure_connected_to_voice_check() -> Seq<char> {
    "EnsureConnectedToVoice"@
}

/// Why the command `invocation` is not run, if it is not: it was given
/// outside a guild, or one of the three checks failed, the first of them that
/// did.
pub open spec fn rejection(designated: Seq<char>, invocation: Invocation) -> Option<
    DispatchErrorView,
> {
    if !invocation.in_guild {
        Some(DispatchErrorView::OnlyForGuilds)
    } else {
        match match_channel_name(designated, invocation.channel) {
            CheckResultView::Failure(reason) => Some(
                DispatchErrorView::CheckFailed(match_channel_name_check(), reason),
            ),
            CheckResultView::Success => match ensure_category(
                invocation.channel,
                invocation.category,
            ) {
                CheckResultView::Failure(reason) => Some(
                    DispatchErrorView::CheckFailed(ensure_category_check(), reason),
                ),
                CheckResultView::Success => match ensure_connected_to_voice(invocation.guild) {
                    CheckResultView::Failure(reason) => Some(
                        DispatchErrorView::CheckFailed(ensure_connected_to_voice_check(), reason),
                    ),
                    CheckResultView::Success => None,
                },
            },
        }
    }
}

/// Decides whether the command `invocation` is run. A command that is run
/// comes with the channel it was given in, the category of that channel with
/// the overwrites that the platform delivered, and its author.
pub fn dispatch(config: &Config, invocation: Invocation) -> (result: Result<
    BuildContext,
    DispatchError,
>)
    ensures
        match result {
            Ok(context) => {
                &&& rejection(config.designated_channel@, invocation) is None
                &&& invocation.channel matches ChannelLookup::Guild(found)
                &&& context.channel == found.id
                &&& Some(context.category.id) == found.category_id
                &&& invocation.category is Some
                &&& context.category.overwrites@ == invocation.category->0.overwrites@
                &&& context.author == invocation.author
            },
            Err(error) => rejection(config.designated_channel@, invocation) == Some(error@),
        },
{
    if !invocation.in_guild {
        return Err(DispatchError::OnlyForGuilds);
    }
    match check_match_channel_name(config, &invocation.channel) {
        CheckResult::Failure(reason) => {
            return Err(DispatchError::CheckFailed("MatchChannelName".to_owned(), reason));
        },
        CheckResult::Success => {},
    }
    match check_ensure_category(&invocation.channel, &invocation.category) {
        CheckResult::Failure(reason) => {
            return Err(DispatchError::CheckFailed("EnsureCategory".to_owned(), reason));
        },
        CheckResult::Success => {},
    }
    match check_ensure_connected_to_voice(&invocation.guild) {
        CheckResult::Failure(reason) => {
            return Err(DispatchError::CheckFailed("EnsureConnectedToVoice".to_owned(), reason));
        },
        CheckResult::Success => {},
    }
    // The checks have passed: the channel is in a guild and in a category,
    // and the category came. The other arms are never taken.
    let author = invocation.author;
    match (invocation.channel, invocation.category) {
        (ChannelLookup::Guild(found), Some(category)) => match found.category_id {
            Some(id) => Ok(
                BuildContext {
                    channel: found.id,
                    category: Category { id, overwrites: category.overwrites },
                    author,
                },
            ),
            None => Err(DispatchError::Other),
        },
        _ => Err(DispatchError::Other),
    }
}

} // verus!
