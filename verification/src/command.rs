//! The command to build a room, from its arrival to the room: the checks
//! first, then the builder.

use vstd::prelude::*;
use crate::checks::{
    dispatch, match_channel_name_check, rejection, wrong_channel_text, DispatchError,
    DispatchErrorView, Invocation, ReasonView,
};
use crate::model::{ChannelLookup, Config};
use crate::provision::{
    build, build_after, build_start, planned_room, BuildEvent, BuildProgress, BuildProgressView,
    BuildView,
};
use crate::report::{guild_only_text, report_of, warning_text};

verus! {

/// How the command `invocation` with the text `args` begins: rejected, or with
/// the first request of the builder.
pub open spec fn command_start(
    designated: Seq<char>,
    invocation: Invocation,
    args: Seq<char>,
) -> Result<BuildProgressView, DispatchErrorView> {
    match rejection(designated, invocation) {
        Some(error) => Err(error),
        None => Ok(
            build_start(
                args,
                invocation.channel->Guild_0.id,
                invocation.channel->Guild_0.category_id->0,
                invocation.category->0.overwrites@,
                invocation.author,
            ),
        ),
    }
}

/// Where the command stands after the answers `events` to the requests of its
/// builder. A command that was rejected has no builder, and stays rejected.
pub open spec fn command_after(
    designated: Seq<char>,
    invocation: Invocation,
    args: Seq<char>,
    events: Seq<BuildEvent>,
) -> Result<BuildProgressView, DispatchErrorView> {
    match command_start(designated, invocation, args) {
        Ok(at) => Ok(build_after(at, events)),
        Err(error) => Err(error),
    }
}

/// Takes up the command `invocation` with the text `args`: runs the checks
/// and, where they pass, plans the room and gives the first request of the
/// builder.
pub fn command(config: &Config, invocation: Invocation, args: &str) -> (result: Result<
    BuildProgress,
    DispatchError,
>)
    ensures
        match result {
            Ok(at) => command_start(config.designated_channel@, invocation, args@) == Ok::<
                BuildProgressView,
                DispatchErrorView,
            >(at@),
            Err(error) => command_start(config.designated_channel@, invocation, args@) == Err::<
                BuildProgressView,
                DispatchErrorView,
            >(error@),
        },
{
    match dispatch(config, invocation) {
        Ok(context) => Ok(build(context, args)),
        Err(error) => Err(error),
    }
}

/// A command given outside a guild is rejected for that, the member is told
/// so, and no answer of the platform makes it ask for anything: no channel is
/// created.
pub proof fn lemma_outside_guild_is_rejected(
    designated: Seq<char>,
    invocation: Invocation,
    args: Seq<char>,
    events: Seq<BuildEvent>,
)
    requires
        !invocation.in_guild,
    ensures
        command_after(designated, invocation, args, events) == Err::<
            BuildProgressView,
            DispatchErrorView,
        >(DispatchErrorView::OnlyForGuilds),
        report_of(DispatchErrorView::OnlyForGuilds).reply == Some(guild_only_text()),
{
}

/// A command given in a guild, in a channel that is not named as the
/// designated one, is rejected with a warning that names the designated
/// channel, and no answer of the platform makes it ask for anything: no
/// channel is created.
pub proof fn lemma_wrong_channel_is_rejected(
    designated: Seq<char>,
    invocation: Invocation,
    args: Seq<char>,
    events: Seq<BuildEvent>,
)
    requires
        invocation.in_guild,
        invocation.channel matches ChannelLookup::Guild(found) && found.name@ != designated,
    ensures
        ({
            let error = DispatchErrorView::CheckFailed(
                match_channel_name_check(),
                ReasonView::User(wrong_channel_text(designated)),
            );
            &&& command_after(designated, invocation, args, events) == Err::<
                BuildProgressView,
                DispatchErrorView,
            >(error)
            &&& report_of(error).reply == Some(warning_text(wrong_channel_text(designated)))
            &&& wrong_channel_text(designated) == "This channel isn't named #"@ + designated
                + ", so commands won't run here."@
        }),
{
}

/// A command that passes the checks builds its room as long as the platform
/// carries out each request. It shows that work is under way in the channel of
/// the command, creates a voice channel in the category of that channel, named
/// by the sanitized text, with the overwrites of the category and full access
/// for the author, says in the channel of the command that the room was
/// built, moves the author into the room, and ends.
pub proof fn lemma_command_builds_room(
    designated: Seq<char>,
    invocation: Invocation,
    args: Seq<char>,
    made: u64,
)
    requires
        rejection(designated, invocation) is None,
    ensures
        ({
            let channel = invocation.channel->Guild_0.id;
            let category = invocation.channel->Guild_0.category_id->0;
            let author = invocation.author;
            let plan = planned_room(args, category, invocation.category->0.overwrites@, author);
            let answers = seq![
                BuildEvent::Done,
                BuildEvent::Created(made),
                BuildEvent::Done,
                BuildEvent::Done,
            ];
            let after = |n: int| command_after(designated, invocation, args, answers.take(n));
            &&& invocation.in_guild
            &&& invocation.channel is Guild
            &&& invocation.channel->Guild_0.name@ == designated
            &&& invocation.channel->Guild_0.category_id is Some
            &&& invocation.category is Some
            &&& after(0) == Ok::<BuildProgressView, DispatchErrorView>(
                BuildProgressView::Ask(BuildView::BroadcastTyping { channel, author, plan }),
            )
            &&& after(1) == Ok::<BuildProgressView, DispatchErrorView>(
                BuildProgressView::Ask(BuildView::CreateChannel { channel, author, plan }),
            )
            &&& after(2) == Ok::<BuildProgressView, DispatchErrorView>(
                BuildProgressView::Ask(BuildView::Announce { channel, author, room: made }),
            )
            &&& after(3) == Ok::<BuildProgressView, DispatchErrorView>(
                BuildProgressView::Ask(BuildView::MoveMember { member: author, room: made }),
            )
            &&& after(4) == Ok::<BuildProgressView, DispatchErrorView>(
                BuildProgressView::Built(made),
            )
        }),
{
    let answers = seq![
        BuildEvent::Done,
        BuildEvent::Created(made),
        BuildEvent::Done,
        BuildEvent::Done,
    ];
    let start = command_start(designated, invocation, args)->Ok_0;
    lemma_build_after_one_more(start, answers.take(0), answers[0]);
    assert(answers.take(0).push(answers[0]) =~= answers.take(1));
    lemma_build_after_one_more(start, answers.take(1), answers[1]);
    assert(answers.take(1).push(answers[1]) =~= answers.take(2));
    lemma_build_after_one_more(start, answers.take(2), answers[2]);
    assert(answers.take(2).push(answers[2]) =~= answers.take(3));
    lemma_build_after_one_more(start, answers.take(3), answers[3]);
    assert(answers.take(3).push(answers[3]) =~= answers.take(4));
}

/// One more answer is one more step from where the builder stood.
pub proof fn lemma_build_after_one_more(
    at: BuildProgressView,
    events: Seq<BuildEvent>,
    event: BuildEvent,
)
    ensures
        build_after(at, events.push(event)) == crate::provision::build_next(
            build_after(at, events),
            event,
        ),
    decreases events.len(),
{
    if events.len() == 0 {
        assert(events.push(event).drop_first() =~= events);
        assert(build_after(crate::provision::build_next(at, event), events)
            == crate::provision::build_next(at, event));
    } else {
        assert(events.push(event).drop_first() =~= events.drop_first().push(event));
        lemma_build_after_one_more(
            crate::provision::build_next(at, events[0]),
            events.drop_first(),
            event,
        );
    }
}

} // verus!
