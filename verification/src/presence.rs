//! The watcher of voice presence: whenever a member leaves a voice channel it
//! decides, one question to the platform at a time, whether the channel left
//! behind is an empty room of the designated category, and has it removed.

use vstd::prelude::*;
use crate::model::{ChannelLookup, Config, GuildChannel, VoiceState};

verus! {

/// Why a change of presence removes no room.
#[derive(Clone, Copy, Debug, PartialEq, Eq)]
pub enum Skip {
    /// The change names no guild.
    UnknownGuild,
    /// The guild could not be fetched.
    GuildUnavailable,
    /// The member was in no voice channel before.
    JustJoined,
    /// The earlier presence names no channel.
    UnknownChannel,
    /// The member is still in the channel it was in.
    SameChannel,
    /// The channel left could not be fetched.
    ChannelUnavailable,
    /// The channel left belongs to no guild.
    NotInGuild,
    /// The channel left belongs to no category.
    NoCategory,
    /// The members of the channel left could not be listed.
    MembersUnavailable,
    /// Somebody is still in the channel left.
    NotEmpty,
    /// The channels of the guild could not be listed.
    ChannelsUnavailable,
    /// The guild has no channel of the designated name.
    NoDesignatedChannel,
    /// The designated channel belongs to no category.
    NoDesignatedCategory,
    /// The channel left is not in the category of the designated channel.
    OutsideCategory,
    /// The platform refused to delete the room.
    DeleteFailed,
}

/// The words for the log that say why no room is removed.
pub open spec fn skip_text(why: Skip) -> Seq<char> {
    match why {
        Skip::UnknownGuild => "Unknown guild_id"@,
        Skip::GuildUnavailable => "Could not fetch guild data"@,
        Skip::JustJoined => "User just joined voice chat"@,
        Skip::UnknownChannel => "User was in an unknown channel"@,
        Skip::SameChannel => "User left and rejoined the same channel"@,
        Skip::ChannelUnavailable => "Could not fetch channel data"@,
        Skip::NotInGuild => "Channel was not in a guild"@,
        Skip::NoCategory => "Previous channel isn't in any category"@,
        Skip::MembersUnavailable => "Could not fetch channel members"@,
        Skip::NotEmpty => "Channel isn't empty"@,
        Skip::ChannelsUnavailable => "Could not fetch guild channels"@,
        Skip::NoDesignatedChannel => "No bob channel found"@,
        Skip::NoDesignatedCategory => "No bob category found"@,
        Skip::OutsideCategory => "Channel isn't in the bob category"@,
        Skip::DeleteFailed => "Failed to delete channel"@,
    }
}

impl Skip {
    /// The words for the log that say why no room is removed.
    pub fn describe(&self) -> (text: &'static str)
        ensures
            text@ == skip_text(*self),
    {
        match self {
            Skip::UnknownGuild => "Unknown guild_id",
            Skip::GuildUnavailable => "Could not fetch guild data",
            Skip::JustJoined => "User just joined voice chat",
            Skip::UnknownChannel => "User was in an unknown channel",
            Skip::SameChannel => "User left and rejoined the same channel",
            Skip::ChannelUnavailable => "Could not fetch channel data",
            Skip::NotInGuild => "Channel was not in a guild",
            Skip::NoCategory => "Previous channel isn't in any category",
            Skip::MembersUnavailable => "Could not fetch channel members",
            Skip::NotEmpty => "Channel isn't empty",
            Skip::ChannelsUnavailable => "Could not fetch guild channels",
            Skip::NoDesignatedChannel => "No bob channel found",
            Skip::NoDesignatedCategory => "No bob category found",
            Skip::OutsideCategory => "Channel isn't in the bob category",
            Skip::DeleteFailed => "Failed to delete channel",
        }
    }
}

/// How a request to delete a channel ended.
#[derive(Clone, Copy, Debug, PartialEq, Eq)]
pub enum Deletion {
    Deleted,
    /// The channel was no longer there.
    AlreadyGone,
    Failed,
}

/// A question that the watcher has for the platform, with what it has found
/// out so far.
#[derive(Clone, Copy, Debug, PartialEq, Eq)]
pub enum Watch {
    /// Fetch the guild.
    FetchGuild { guild: u64, old: Option<VoiceState>, new: VoiceState },
    /// Fetch the channel that the member left.
    FetchChannel { guild: u64, channel: u64 },
    /// List the members of the channel left, which is in `category`.
    ListMembers { guild: u64, channel: u64, category: u64 },
    /// List the channels of the guild.
    ListChannels { guild: u64, channel: u64, category: u64 },
    /// Say in the designated channel `home` that the room `channel` is removed.
    Announce { home: u64, channel: u64 },
    /// Delete the room `channel`.
    Delete { channel: u64 },
}

/// Where the watcher stands: at a question, or at its end.
#[derive(Clone, Copy, Debug, PartialEq, Eq)]
pub enum Progress {
    Ask(Watch),
    /// The room is removed, or was already.
    Removed,
    /// No room is removed.
    Skipped(Skip),
}

/// What the platform answered.
#[derive(Clone, Debug, PartialEq, Eq)]
pub enum WatchEvent {
    /// Whether the guild was fetched.
    Guild(bool),
    Channel(ChannelLookup),
    /// The number of members in the channel, where they could be listed.
    Members(Option<usize>),
    /// The channels of the guild, where they could be listed.
    Channels(Option<Vec<GuildChannel>>),
    /// Whether the announcement was sent.
    Announced(bool),
    Deleted(Deletion),
}

/// The place of the first channel named `name` among `channels`, or their
/// number where none has that name.
pub open spec fn first_named(channels: Seq<GuildChannel>, name: Seq<char>) -> nat
    decreases channels.len(),
{
    if channels.len() == 0 {
        0
    } else if channels[0].name@ == name {
        0
    } else {
        1 + first_named(channels.drop_first(), name)
    }
}

/// The first channel named `name` among `channels`.
pub open spec fn designated(channels: Seq<GuildChannel>, name: Seq<char>) -> Option<
    GuildChannel,
> {
    if first_named(channels, name) < channels.len() {
        Some(channels[first_named(channels, name) as int])
    } else {
        None
    }
}

/// The first step on a change of presence in `guild`, from `old` to `new`.
pub open spec fn watch_start(
    guild: Option<u64>,
    old: Option<VoiceState>,
    new: VoiceState,
) -> Progress {
    match guild {
        None => Progress::Skipped(Skip::UnknownGuild),
        Some(g) => Progress::Ask(Watch::FetchGuild { guild: g, old, new }),
    }
}

/// The step after the guild was fetched.
pub open spec fn after_guild(guild: u64, old: Option<VoiceState>, new: VoiceState) -> Progress {
    match old {
        None => Progress::Skipped(Skip::JustJoined),
        Some(before) => match before.channel_id {
            None => Progress::Skipped(Skip::UnknownChannel),
            Some(channel) => if new.channel_id == Some(channel) {
                Progress::Skipped(Skip::SameChannel)
            } else {
                Progress::Ask(Watch::FetchChannel { guild, channel })
            },
        },
    }
}

/// The step after the channel left was fetched.
pub open spec fn after_channel(guild: u64, channel: u64, found: ChannelLookup) -> Progress {
    match found {
        ChannelLookup::Unresolved => Progress::Skipped(Skip::ChannelUnavailable),
        ChannelLookup::Private => Progress::Skipped(Skip::NotInGuild),
        ChannelLookup::Guild(left) => match left.category_id {
            None => Progress::Skipped(Skip::NoCategory),
            Some(category) => Progress::Ask(Watch::ListMembers { guild, channel, category }),
        },
    }
}

/// The step after the channels of the guild were listed.
pub open spec fn after_channels(
    name: Seq<char>,
    channel: u64,
    category: u64,
    channels: Seq<GuildChannel>,
) -> Progress {
    match designated(channels, name) {
        None => Progress::Skipped(Skip::NoDesignatedChannel),
        Some(home) => match home.category_id {
            None => Progress::Skipped(Skip::NoDesignatedCategory),
            Some(managed) => if managed == category {
                Progress::Ask(Watch::Announce { home: home.id, channel })
            } else {
                Progress::Skipped(Skip::OutsideCategory)
            },
        },
    }
}

/// The step that the watcher takes from the question `state` on the answer
/// `event`, where the designated channel is named `name`. An answer to another
/// question than the one asked counts as a failed request. Whether the
/// announcement was sent makes no difference.
pub open spec fn watch_step(name: Seq<char>, state: Watch, event: WatchEvent) -> Progress {
    match state {
        Watch::FetchGuild { guild, old, new } => match event {
            WatchEvent::Guild(true) => after_guild(guild, old, new),
            _ => Progress::Skipped(Skip::GuildUnavailable),
        },
        Watch::FetchChannel { guild, channel } => match event {
            WatchEvent::Channel(found) => after_channel(guild, channel, found),
            _ => Progress::Skipped(Skip::ChannelUnavailable),
        },
        Watch::ListMembers { guild, channel, category } => match event {
            WatchEvent::Members(Some(count)) => if count == 0 {
                Progress::Ask(Watch::ListChannels { guild, channel, category })
            } else {
                Progress::Skipped(Skip::NotEmpty)
            },
            _ => Progress::Skipped(Skip::MembersUnavailable),
        },
        Watch::ListChannels { guild, channel, category } => match event {
            WatchEvent::Channels(Some(channels)) => after_channels(
                name,
                channel,
                category,
                channels@,
            ),
            _ => Progress::Skipped(Skip::ChannelsUnavailable),
        },
        Watch::Announce { home, channel } => Progress::Ask(Watch::Delete { channel }),
        Watch::Delete { channel } => match event {
            WatchEvent::Deleted(Deletion::Deleted) => Progress::Removed,
            WatchEvent::Deleted(Deletion::AlreadyGone) => Progress::Removed,
            _ => Progress::Skipped(Skip::DeleteFailed),
        },
    }
}

/// Where the watcher stands after the answer `event`: a watcher that has ended
/// stays where it is.
pub open spec fn watch_next(name: Seq<char>, at: Progress, event: WatchEvent) -> Progress {
    match at {
        Progress::Ask(state) => watch_step(name, state, event),
        _ => at,
    }
}

/// Where the watcher stands after the answers `events`, one after the other.
pub open spec fn watch_after(name: Seq<char>, at: Progress, events: Seq<WatchEvent>) -> Progress
    decreases events.len(),
{
    if events.len() == 0 {
        at
    } else {
        watch_after(name, watch_next(name, at, events[0]), events.drop_first())
    }
}

/// Where `channels[j]` is not named `name` for `j` below `k`, and `channels[k]`
/// is, or `k` is their number, `k` is the place of the first channel of that name.
pub proof fn lemma_first_named(channels: Seq<GuildChannel>, name: Seq<char>, k: int)
    requires
        0 <= k <= channels.len(),
        forall|j: int| 0 <= j < k ==> channels[j].name@ != name,
        k < channels.len() ==> channels[k].name@ == name,
    ensures
        first_named(channels, name) == k,
    decreases channels.len(),
{
    if k > 0 {
        let rest = channels.drop_first();
        assert forall|j: int| 0 <= j < k - 1 implies rest[j].name@ != name by {
            assert(rest[j] == channels[j + 1]);
        }
        lemma_first_named(rest, name, k - 1);
    }
}

/// The first channel of `channels` that is named `name`.
pub fn find_designated<'a>(channels: &'a Vec<GuildChannel>, name: &String) -> (found: Option<
    &'a GuildChannel,
>)
    ensures
        match found {
            Some(home) => designated(channels@, name@) == Some(*home),
            None => designated(channels@, name@) is None,
        },
{
    let mut i: usize = 0;
    while i < channels.len()
        invariant
            i <= channels.len(),
            forall|j: int| 0 <= j < i ==> channels@[j].name@ != name@,
        decreases channels.len() - i,
    {
        if channels[i].name == *name {
            proof {
                lemma_first_named(channels@, name@, i as int);
            }
            return Some(&channels[i]);
        }
        i += 1;
    }
    proof {
        lemma_first_named(channels@, name@, i as int);
    }
    None
}

/// Takes up a change of presence: the member's state was `old` and is `new`.
/// Gives the first question to the platform, or the reason why there is
/// nothing to do.
pub fn delete_left_temp_channel(
    guild: Option<u64>,
    old: Option<VoiceState>,
    new: VoiceState,
) -> (at: Progress)
    ensures
        at == watch_start(guild, old, new),
{
    match guild {
        None => Progress::Skipped(Skip::UnknownGuild),
        Some(g) => Progress::Ask(Watch::FetchGuild { guild: g, old, new }),
    }
}

/// Whether the two states name the same channel.
fn same_channel(before: u64, new: &VoiceState) -> (same: bool)
    ensures
        same == (new.channel_id == Some(before)),
{
    match new.channel_id {
        Some(now) => now == before,
        None => false,
    }
}

impl Watch {
    /// The step on the answer `event` to the question `self`.
    pub fn step(self, config: &Config, event: &WatchEvent) -> (at: Progress)
        ensures
            at == watch_step(config.designated_channel@, self, *event),
    {
        match self {
            Watch::FetchGuild { guild, old, new } => match event {
                WatchEvent::Guild(true) => match old {
                    None => Progress::Skipped(Skip::JustJoined),
                    Some(before) => match before.channel_id {
                        None => Progress::Skipped(Skip::UnknownChannel),
                        Some(channel) => if same_channel(channel, &new) {
                            Progress::Skipped(Skip::SameChannel)
                        } else {
                            Progress::Ask(Watch::FetchChannel { guild, channel })
                        },
                    },
                },
                _ => Progress::Skipped(Skip::GuildUnavailable),
            },
            Watch::FetchChannel { guild, channel } => match event {
                WatchEvent::Channel(ChannelLookup::Unresolved) => Progress::Skipped(
                    Skip::ChannelUnavailable,
                ),
                WatchEvent::Channel(ChannelLookup::Private) => Progress::Skipped(Skip::NotInGuild),
                WatchEvent::Channel(ChannelLookup::Guild(left)) => match left.category_id {
                    None => Progress::Skipped(Skip::NoCategory),
                    Some(category) => Progress::Ask(
                        Watch::ListMembers { guild, channel, category },
                    ),
                },
                _ => Progress::Skipped(Skip::ChannelUnavailable),
            },
            Watch::ListMembers { guild, channel, category } => match event {
                WatchEvent::Members(Some(count)) => if *count == 0 {
                    Progress::Ask(Watch::ListChannels { guild, channel, category })
                } else {
                    Progress::Skipped(Skip::NotEmpty)
                },
                _ => Progress::Skipped(Skip::MembersUnavailable),
            },
            Watch::ListChannels { guild, channel, category } => match event {
                WatchEvent::Channels(Some(channels)) => match find_designated(
                    channels,
                    &config.designated_channel,
                ) {
                    None => Progress::Skipped(Skip::NoDesignatedChannel),
                    Some(home) => match home.category_id {
                        None => Progress::Skipped(Skip::NoDesignatedCategory),
                        Some(managed) => if managed == category {
                            Progress::Ask(Watch::Announce { home: home.id, channel })
                        } else {
                            Progress::Skipped(Skip::OutsideCategory)
                        },
                    },
                },
                _ => Progress::Skipped(Skip::ChannelsUnavailable),
            },
            Watch::Announce { home, channel } => Progress::Ask(Watch::Delete { channel }),
            Watch::Delete { channel } => match event {
                WatchEvent::Deleted(Deletion::Deleted) => Progress::Removed,
                WatchEvent::Deleted(Deletion::AlreadyGone) => Progress::Removed,
                _ => Progress::Skipped(Skip::DeleteFailed),
            },
        }
    }
}

/// What holds of where the watcher stands, and is kept by every step on an
/// answer that is `allowed`, holds after any number of such answers.
pub proof fn lemma_watch_keeps(
    name: Seq<char>,
    at: Progress,
    events: Seq<WatchEvent>,
    holds: spec_fn(Progress) -> bool,
    allowed: spec_fn(WatchEvent) -> bool,
)
    requires
        holds(at),
        forall|i: int| 0 <= i < events.len() ==> allowed(#[trigger] events[i]),
        forall|p: Progress, e: WatchEvent|
            holds(p) && allowed(e) ==> holds(#[trigger] watch_next(name, p, e)),
    ensures
        holds(watch_after(name, at, events)),
    decreases events.len(),
{
    if events.len() > 0 {
        let rest = events.drop_first();
        assert(allowed(events[0]));
        assert forall|i: int| 0 <= i < rest.len() implies allowed(#[trigger] rest[i]) by {
            assert(rest[i] == events[i + 1]);
        }
        lemma_watch_keeps(name, watch_next(name, at, events[0]), rest, holds, allowed);
    }
}

/// The watcher is about to announce or to delete, or has removed a room.
pub open spec fn removing(at: Progress) -> bool {
    match at {
        Progress::Ask(Watch::Announce { .. }) => true,
        Progress::Ask(Watch::Delete { .. }) => true,
        Progress::Removed => true,
        _ => false,
    }
}

/// A member who is still in the channel it was in has left nothing: whatever
/// the platform answers, the watcher neither asks who is in that channel nor
/// announces or deletes anything.
pub proof fn lemma_same_channel_is_left_alone(
    name: Seq<char>,
    guild: Option<u64>,
    channel: u64,
    events: Seq<WatchEvent>,
)
    ensures
        ({
            let state = VoiceState { channel_id: Some(channel) };
            let at = watch_after(name, watch_start(guild, Some(state), state), events);
            !removing(at) && !(at matches Progress::Ask(Watch::ListMembers { .. })) && !(
            at matches Progress::Ask(Watch::ListChannels { .. }))
        }),
{
    let state = VoiceState { channel_id: Some(channel) };
    let holds = |p: Progress|
        match p {
            Progress::Ask(Watch::FetchGuild { guild, old, new }) => old == Some(state) && new
                == state,
            Progress::Skipped(_) => true,
            _ => false,
        };
    let allowed = |e: WatchEvent| true;
    lemma_watch_keeps(name, watch_start(guild, Some(state), state), events, holds, allowed);
}

/// A channel in which the platform still counts a member is not removed:
/// unless some answer says that nobody is in the channel, the watcher neither
/// announces nor deletes.
pub proof fn lemma_occupied_channel_stays(
    name: Seq<char>,
    guild: Option<u64>,
    old: Option<VoiceState>,
    new: VoiceState,
    events: Seq<WatchEvent>,
)
    requires
        forall|i: int| 0 <= i < events.len() ==> events[i] != WatchEvent::Members(Some(0)),
    ensures
        !removing(watch_after(name, watch_start(guild, old, new), events)),
{
    let holds = |p: Progress|
        match p {
            Progress::Ask(Watch::FetchGuild { .. }) => true,
            Progress::Ask(Watch::FetchChannel { .. }) => true,
            Progress::Ask(Watch::ListMembers { .. }) => true,
            Progress::Skipped(_) => true,
            _ => false,
        };
    let allowed = |e: WatchEvent| e != WatchEvent::Members(Some(0));
    lemma_watch_keeps(name, watch_start(guild, old, new), events, holds, allowed);
}

/// A channel outside the category of the designated channel is not removed,
/// empty or not: where every list of channels puts the designated channel in
/// the category `managed` and no answer puts the channel left there, the
/// watcher neither announces nor deletes.
pub proof fn lemma_channel_elsewhere_stays(
    name: Seq<char>,
    guild: Option<u64>,
    old: Option<VoiceState>,
    new: VoiceState,
    managed: u64,
    events: Seq<WatchEvent>,
)
    requires
        forall|i: int|
            0 <= i < events.len() ==> (#[trigger] events[i] matches WatchEvent::Channel(found)
                ==> found.category() != Some(managed)),
        forall|i: int|
            0 <= i < events.len() ==> (#[trigger] events[i] matches WatchEvent::Channels(
                Some(channels),
            ) ==> (designated(channels@, name) matches Some(home) ==> home.category_id == Some(
                managed,
            ))),
    ensures
        !removing(watch_after(name, watch_start(guild, old, new), events)),
{
    let holds = |p: Progress|
        match p {
            Progress::Ask(Watch::FetchGuild { .. }) => true,
            Progress::Ask(Watch::FetchChannel { .. }) => true,
            Progress::Ask(Watch::ListMembers { guild, channel, category }) => category != managed,
            Progress::Ask(Watch::ListChannels { guild, channel, category }) => category != managed,
            Progress::Skipped(_) => true,
            _ => false,
        };
    let allowed = |e: WatchEvent|
        {
            &&& (e matches WatchEvent::Channel(found) ==> found.category() != Some(managed))
            &&& (e matches WatchEvent::Channels(Some(channels)) ==> (designated(channels@, name)
                matches Some(home) ==> home.category_id == Some(managed)))
        };
    lemma_watch_keeps(name, watch_start(guild, old, new), events, holds, allowed);
}

/// Only the channel that the member left for another place is ever announced
/// as removed or deleted.
pub proof fn lemma_only_the_channel_left_is_removed(
    name: Seq<char>,
    guild: Option<u64>,
    old: Option<VoiceState>,
    new: VoiceState,
    events: Seq<WatchEvent>,
)
    ensures
        ({
            let at = watch_after(name, watch_start(guild, old, new), events);
            &&& (at matches Progress::Ask(Watch::Announce { home, channel }) ==> old == Some(
                VoiceState { channel_id: Some(channel) },
            ) && new.channel_id != Some(channel))
            &&& (at matches Progress::Ask(Watch::Delete { channel }) ==> old == Some(
                VoiceState { channel_id: Some(channel) },
            ) && new.channel_id != Some(channel))
            &&& (at is Removed ==> old is Some && old->0.channel_id is Some && new.channel_id
                != old->0.channel_id)
        }),
{
    let left = |channel: u64|
        old == Some(VoiceState { channel_id: Some(channel) }) && new.channel_id != Some(channel);
    let holds = |p: Progress|
        match p {
            Progress::Ask(Watch::FetchGuild { guild: g, old: o, new: n }) => o == old && n == new,
            Progress::Ask(Watch::FetchChannel { guild, channel }) => left(channel),
            Progress::Ask(Watch::ListMembers { guild, channel, category }) => left(channel),
            Progress::Ask(Watch::ListChannels { guild, channel, category }) => left(channel),
            Progress::Ask(Watch::Announce { home, channel }) => left(channel),
            Progress::Ask(Watch::Delete { channel }) => left(channel),
            Progress::Removed => old is Some && old->0.channel_id is Some && new.channel_id
                != old->0.channel_id,
            Progress::Skipped(_) => true,
        };
    let allowed = |e: WatchEvent| true;
    lemma_watch_keeps(name, watch_start(guild, old, new), events, holds, allowed);
}

/// An empty room of the designated category is removed. Where a member leaves
/// `channel`, the platform finds it in `category` with nobody in it, and the
/// channel named `name` is in `category` too, the watcher asks its four
/// questions, announces the removal once, in the designated channel, deletes
/// `channel` and no other, and ends once the platform has deleted it or
/// reports it gone.
pub proof fn lemma_empty_room_is_removed(
    name: Seq<char>,
    guild: u64,
    channel: u64,
    new: VoiceState,
    left: GuildChannel,
    category: u64,
    channels: Vec<GuildChannel>,
    announced: bool,
    deleted: Deletion,
)
    requires
        new.channel_id != Some(channel),
        left.category_id == Some(category),
        designated(channels@, name) is Some,
        designated(channels@, name)->0.category_id == Some(category),
        deleted != Deletion::Failed,
    ensures
        ({
            let old = Some(VoiceState { channel_id: Some(channel) });
            let home = designated(channels@, name)->0.id;
            let start = watch_start(Some(guild), old, new);
            let answers = seq![
                WatchEvent::Guild(true),
                WatchEvent::Channel(ChannelLookup::Guild(left)),
                WatchEvent::Members(Some(0)),
                WatchEvent::Channels(Some(channels)),
                WatchEvent::Announced(announced),
                WatchEvent::Deleted(deleted),
            ];
            &&& start == Progress::Ask(Watch::FetchGuild { guild, old, new })
            &&& watch_after(name, start, answers.take(1)) == Progress::Ask(
                Watch::FetchChannel { guild, channel },
            )
            &&& watch_after(name, start, answers.take(2)) == Progress::Ask(
                Watch::ListMembers { guild, channel, category },
            )
            &&& watch_after(name, start, answers.take(3)) == Progress::Ask(
                Watch::ListChannels { guild, channel, category },
            )
            &&& watch_after(name, start, answers.take(4)) == Progress::Ask(
                Watch::Announce { home, channel },
            )
            &&& watch_after(name, start, answers.take(5)) == Progress::Ask(
                Watch::Delete { channel },
            )
            &&& watch_after(name, start, answers) == Progress::Removed
        }),
{
    let old = Some(VoiceState { channel_id: Some(channel) });
    let start = watch_start(Some(guild), old, new);
    let answers = seq![
        WatchEvent::Guild(true),
        WatchEvent::Channel(ChannelLookup::Guild(left)),
        WatchEvent::Members(Some(0)),
        WatchEvent::Channels(Some(channels)),
        WatchEvent::Announced(announced),
        WatchEvent::Deleted(deleted),
    ];
    lemma_watch_after_one_more(name, start, answers.take(0), answers[0]);
    assert(answers.take(0).push(answers[0]) =~= answers.take(1));
    lemma_watch_after_one_more(name, start, answers.take(1), answers[1]);
    assert(answers.take(1).push(answers[1]) =~= answers.take(2));
    lemma_watch_after_one_more(name, start, answers.take(2), answers[2]);
    assert(answers.take(2).push(answers[2]) =~= answers.take(3));
    lemma_watch_after_one_more(name, start, answers.take(3), answers[3]);
    assert(answers.take(3).push(answers[3]) =~= answers.take(4));
    lemma_watch_after_one_more(name, start, answers.take(4), answers[4]);
    assert(answers.take(4).push(answers[4]) =~= answers.take(5));
    lemma_watch_after_one_more(name, start, answers.take(5), answers[5]);
    assert(answers.take(5).push(answers[5]) =~= answers);
}

/// One more answer is one more step from where the watcher stood.
pub proof fn lemma_watch_after_one_more(
    name: Seq<char>,
    at: Progress,
    events: Seq<WatchEvent>,
    event: WatchEvent,
)
    ensures
        watch_after(name, at, events.push(event)) == watch_next(
            name,
            watch_after(name, at, events),
            event,
        ),
    decreases events.len(),
{
    if events.len() == 0 {
        assert(events.push(event).drop_first() =~= events);
        assert(watch_after(name, watch_next(name, at, event), events) == watch_next(
            name,
            at,
            event,
        ));
    } else {
        assert(events.push(event).drop_first() =~= events.drop_first().push(event));
        lemma_watch_after_one_more(
            name,
            watch_next(name, at, events[0]),
            events.drop_first(),
            event,
        );
    }
}

} // verus!
