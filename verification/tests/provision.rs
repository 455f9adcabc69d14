use bob::model::{Category, ChannelKind, OverwriteTarget, PermissionOverwrite};
use bob::provision::{
    build, plan_room, Build, BuildContext, BuildEvent, BuildFailure, BuildProgress, RoomSpec,
    ALL_PERMISSIONS,
};
use serenity::model::permissions::Permissions;

const LOBBY: u64 = 20;
const MANAGED: u64 = 50;
const AUTHOR: u64 = 90;
const MADE: u64 = 31;

fn template() -> Vec<PermissionOverwrite> {
    vec![
        PermissionOverwrite { allow: 0x400, deny: 0x800, kind: OverwriteTarget::Role(7) },
        PermissionOverwrite { allow: 0, deny: 0x100000, kind: OverwriteTarget::Member(8) },
    ]
}

fn context() -> BuildContext {
    BuildContext {
        channel: LOBBY,
        category: Category { id: MANAGED, overwrites: template() },
        author: AUTHOR,
    }
}

fn grant() -> PermissionOverwrite {
    PermissionOverwrite {
        allow: Permissions::all().bits(),
        deny: Permissions::empty().bits(),
        kind: OverwriteTarget::Member(AUTHOR),
    }
}

fn my_room() -> RoomSpec {
    let mut overwrites = template();
    overwrites.push(grant());
    RoomSpec {
        name: String::from("my-room"),
        kind: ChannelKind::Voice,
        category: MANAGED,
        overwrites,
    }
}

#[test]
fn all_permissions_are_those_of_the_client() {
    assert_eq!(ALL_PERMISSIONS, Permissions::all().bits());
    assert_eq!(ALL_PERMISSIONS, 2146958847);
}

#[test]
fn plan_room_adds_full_access_for_the_author() {
    let room = plan_room("My Room!!", Category { id: MANAGED, overwrites: template() }, AUTHOR);
    assert_eq!(room, my_room());
    assert_eq!(room.overwrites.len(), 3);
    assert_eq!(room.overwrites[2].allow, Permissions::all().bits());
    assert_eq!(room.overwrites[2].allow, 0x7ff7fdff);
    assert_eq!(room.overwrites[2].deny, 0);
    assert_eq!(room.overwrites[2].kind, OverwriteTarget::Member(AUTHOR));
}

#[test]
fn plan_room_in_category_without_overwrites() {
    let room = plan_room("  ", Category { id: 3, overwrites: Vec::new() }, 4);
    assert_eq!(room.name, "");
    assert_eq!(room.kind, ChannelKind::Voice);
    assert_eq!(room.category, 3);
    assert_eq!(
        room.overwrites,
        vec![PermissionOverwrite {
            allow: Permissions::all().bits(),
            deny: 0,
            kind: OverwriteTarget::Member(4)
        }]
    );
}

#[test]
fn build_starts_with_typing() {
    assert_eq!(
        build(context(), "my room"),
        BuildProgress::Ask(Build::BroadcastTyping {
            channel: LOBBY,
            author: AUTHOR,
            plan: my_room()
        })
    );
}

#[test]
fn build_runs_through_its_requests() {
    let typing = Build::BroadcastTyping { channel: LOBBY, author: AUTHOR, plan: my_room() };
    let create = Build::CreateChannel { channel: LOBBY, author: AUTHOR, plan: my_room() };
    let announce = Build::Announce { channel: LOBBY, author: AUTHOR, room: MADE };
    let move_member = Build::MoveMember { member: AUTHOR, room: MADE };
    assert_eq!(typing.step(BuildEvent::Done), BuildProgress::Ask(create.clone()));
    assert_eq!(create.step(BuildEvent::Created(MADE)), BuildProgress::Ask(announce.clone()));
    assert_eq!(announce.step(BuildEvent::Done), BuildProgress::Ask(move_member.clone()));
    assert_eq!(move_member.step(BuildEvent::Done), BuildProgress::Built(MADE));
}

#[test]
fn build_stops_at_the_first_failure() {
    let typing = Build::BroadcastTyping { channel: LOBBY, author: AUTHOR, plan: my_room() };
    let create = Build::CreateChannel { channel: LOBBY, author: AUTHOR, plan: my_room() };
    let announce = Build::Announce { channel: LOBBY, author: AUTHOR, room: MADE };
    let move_member = Build::MoveMember { member: AUTHOR, room: MADE };
    assert_eq!(typing.step(BuildEvent::Failed), BuildProgress::Failed(BuildFailure::Typing));
    assert_eq!(create.step(BuildEvent::Failed), BuildProgress::Failed(BuildFailure::Create));
    assert_eq!(announce.step(BuildEvent::Failed), BuildProgress::Failed(BuildFailure::Announce));
    assert_eq!(move_member.step(BuildEvent::Failed), BuildProgress::Failed(BuildFailure::Move));
}

#[test]
fn build_takes_an_answer_that_does_not_fit_as_failure() {
    let typing = Build::BroadcastTyping { channel: LOBBY, author: AUTHOR, plan: my_room() };
    let create = Build::CreateChannel { channel: LOBBY, author: AUTHOR, plan: my_room() };
    let announce = Build::Announce { channel: LOBBY, author: AUTHOR, room: MADE };
    let move_member = Build::MoveMember { member: AUTHOR, room: MADE };
    assert_eq!(typing.step(BuildEvent::Created(1)), BuildProgress::Failed(BuildFailure::Typing));
    assert_eq!(create.step(BuildEvent::Done), BuildProgress::Failed(BuildFailure::Create));
    assert_eq!(
        announce.step(BuildEvent::Created(1)),
        BuildProgress::Failed(BuildFailure::Announce)
    );
    assert_eq!(move_member.step(BuildEvent::Created(1)), BuildProgress::Failed(BuildFailure::Move));
}
