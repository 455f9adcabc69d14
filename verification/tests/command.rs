use bob::checks::{DispatchError, GuildLookup, Invocation, Reason};
use bob::command::command;
use bob::model::{
    Category, ChannelKind, ChannelLookup, Config, GuildChannel, OverwriteTarget,
    PermissionOverwrite, VoiceState,
};
use bob::provision::{Build, BuildEvent, BuildFailure, BuildProgress, RoomSpec};
use bob::report::error;
use bob::text::creation_announcement;
use serenity::model::permissions::Permissions;

const LOBBY: u64 = 20;
const C: u64 = 50;
const M: u64 = 90;

fn lobby_config() -> Config {
    Config { designated_channel: String::from("lobby") }
}

fn overwrites_of_c() -> Vec<PermissionOverwrite> {
    vec![PermissionOverwrite { allow: 0x100000, deny: 0x400, kind: OverwriteTarget::Role(5) }]
}

fn from_lobby(author_voice: Option<VoiceState>) -> Invocation {
    Invocation {
        in_guild: true,
        channel: ChannelLookup::Guild(GuildChannel {
            id: LOBBY,
            name: String::from("lobby"),
            category_id: Some(C),
        }),
        category: Some(Category { id: C, overwrites: overwrites_of_c() }),
        guild: GuildLookup::Found { author_voice },
        author: M,
    }
}

fn creates_channel(result: &Result<BuildProgress, DispatchError>) -> bool {
    matches!(result, Ok(BuildProgress::Ask(Build::CreateChannel { .. })))
}

#[test]
fn build_outside_a_guild_creates_nothing() {
    let mut invocation = from_lobby(Some(VoiceState { channel_id: Some(1) }));
    invocation.in_guild = false;
    let result = command(&lobby_config(), invocation, "my room");
    assert_eq!(result, Err(DispatchError::OnlyForGuilds));
    assert!(!creates_channel(&result));
    assert_eq!(
        error(&result.unwrap_err()).reply,
        Some(String::from("⚠️ This command only works in a guild."))
    );
}

#[test]
fn build_in_another_channel_names_the_designated_one() {
    let mut invocation = from_lobby(Some(VoiceState { channel_id: Some(1) }));
    invocation.channel = ChannelLookup::Guild(GuildChannel {
        id: 21,
        name: String::from("general"),
        category_id: Some(C),
    });
    let result = command(&lobby_config(), invocation, "my room");
    assert_eq!(
        result,
        Err(DispatchError::CheckFailed(
            String::from("MatchChannelName"),
            Reason::User(String::from(
                "This channel isn't named #lobby, so commands won't run here."
            ))
        ))
    );
    assert!(!creates_channel(&result));
    let reply = error(&result.unwrap_err()).reply.unwrap();
    assert_eq!(reply, "⚠️ This channel isn't named #lobby, so commands won't run here.");
    assert!(reply.contains("lobby"));
}

#[test]
fn build_without_voice_presence_is_rejected() {
    let result = command(&lobby_config(), from_lobby(None), "my room");
    assert_eq!(
        result,
        Err(DispatchError::CheckFailed(
            String::from("EnsureConnectedToVoice"),
            Reason::User(String::from(
                "You must be connected to a voice channel in order to run this command."
            ))
        ))
    );
}

#[test]
fn build_my_room_from_the_lobby() {
    let invocation = from_lobby(Some(VoiceState { channel_id: Some(1) }));
    let mut overwrites = overwrites_of_c();
    overwrites.push(PermissionOverwrite {
        allow: Permissions::all().bits(),
        deny: Permissions::empty().bits(),
        kind: OverwriteTarget::Member(M),
    });
    let plan = RoomSpec {
        name: String::from("my-room"),
        kind: ChannelKind::Voice,
        category: C,
        overwrites,
    };

    let at = command(&lobby_config(), invocation, "my room").unwrap();
    let typing = match at {
        BuildProgress::Ask(state) => state,
        other => panic!("no request: {:?}", other),
    };
    assert_eq!(typing, Build::BroadcastTyping { channel: LOBBY, author: M, plan: plan.clone() });

    let create = match typing.step(BuildEvent::Done) {
        BuildProgress::Ask(state) => state,
        other => panic!("no request: {:?}", other),
    };
    assert_eq!(create, Build::CreateChannel { channel: LOBBY, author: M, plan });

    let announce = match create.step(BuildEvent::Created(31)) {
        BuildProgress::Ask(state) => state,
        other => panic!("no request: {:?}", other),
    };
    assert_eq!(announce, Build::Announce { channel: LOBBY, author: M, room: 31 });
    assert_eq!(creation_announcement(31), "🔨 Temp channel <#31> was built.");

    let move_member = match announce.step(BuildEvent::Done) {
        BuildProgress::Ask(state) => state,
        other => panic!("no request: {:?}", other),
    };
    assert_eq!(move_member, Build::MoveMember { member: M, room: 31 });

    assert_eq!(move_member.step(BuildEvent::Done), BuildProgress::Built(31));
}

#[test]
fn build_ends_when_the_move_fails() {
    let invocation = from_lobby(Some(VoiceState { channel_id: Some(1) }));
    let mut at = command(&lobby_config(), invocation, "my room").unwrap();
    let answers =
        [BuildEvent::Done, BuildEvent::Created(31), BuildEvent::Done, BuildEvent::Failed];
    for answer in answers.iter() {
        at = match at {
            BuildProgress::Ask(state) => state.step(*answer),
            ended => ended,
        };
    }
    // The room stays: the builder ends, and has no request that would take it back.
    assert_eq!(at, BuildProgress::Failed(BuildFailure::Move));
}

#[test]
fn build_creates_nothing_when_typing_fails() {
    let invocation = from_lobby(Some(VoiceState { channel_id: Some(1) }));
    let at = command(&lobby_config(), invocation, "my room").unwrap();
    let next = match at {
        BuildProgress::Ask(state) => state.step(BuildEvent::Failed),
        ended => ended,
    };
    assert_eq!(next, BuildProgress::Failed(BuildFailure::Typing));
}
