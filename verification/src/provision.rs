//! The building of a room: what is created, and the four requests to the
//! platform in their order.

use vstd::prelude::*;
use crate::model::{Category, ChannelKind, OverwriteTarget, PermissionOverwrite};
use crate::name::{sanitize_channel_name, sanitized};

verus! {

/// Every permission that the platform client knows, as bits: those below bit
/// 31 but for bits 9 and 19, which name no permission.
pub const ALL_PERMISSIONS: u64 = 0x7ff7_fdff;

/// The channel that is to be created.
#[derive(Clone, Debug, PartialEq, Eq)]
pub struct RoomSpec {
    pub name: String,
    pub kind: ChannelKind,
    pub category: u64,
    pub overwrites: Vec<PermissionOverwrite>,
}

/// What a `RoomSpec` says.
pub struct RoomPlan {
    pub name: Seq<char>,
    pub kind: ChannelKind,
    pub category: u64,
    pub overwrites: Seq<PermissionOverwrite>,
}

impl View for RoomSpec {
    type V = RoomPlan;

    open spec fn view(&self) -> RoomPlan {
        RoomPlan {
            name: self.name@,
            kind: self.kind,
            category: self.category,
            overwrites: self.overwrites@,
        }
    }
}

/// What a command to build was found to come with: the channel in which it was
/// given, the category of that channel, and the member who gave it.
#[derive(Clone, Debug, PartialEq, Eq)]
pub struct BuildContext {
    pub channel: u64,
    pub category: Category,
    pub author: u64,
}

/// The overwrite that lets `member` do everything in a room.
pub open spec fn full_access(member: u64) -> PermissionOverwrite {
    PermissionOverwrite { allow: ALL_PERMISSIONS, deny: 0, kind: OverwriteTarget::Member(member) }
}

/// The room that `author` gets for the text `args` in the category `category`
/// with the overwrites `template`: a voice channel in that category, named by
/// the text, with the overwrites of the category and, after them, full access
/// for `author`.
pub open spec fn planned_room(
    args: Seq<char>,
    category: u64,
    template: Seq<PermissionOverwrite>,
    author: u64,
) -> RoomPlan {
    RoomPlan {
        name: sanitized(args),
        kind: ChannelKind::Voice,
        category,
        overwrites: template.push(full_access(author)),
    }
}

/// The bits of serenity's `Permissions::all()`: the union of the permissions
/// that the client defines. In the version in use these are bits 0 to 8, 10 to
/// 18 and 20 to 30.
#[verifier::external_body]
fn all_permissions() -> (bits: u64)
    ensures
        bits == ALL_PERMISSIONS,
{
    serenity::model::permissions::Permissions::all().bits()
}

/// The bits of serenity's `Permissions::empty()`: none.
#[verifier::external_body]
fn no_permissions() -> (bits: u64)
    ensures
        bits == 0,
{
    serenity::model::permissions::Permissions::empty().bits()
}

/// The room that is created for the text `args`.
pub fn plan_room(args: &str, category: Category, author: u64) -> (room: RoomSpec)
    ensures
        room@ == planned_room(args@, category.id, category.overwrites@, author),
{
    let name = sanitize_channel_name(args);
    let mut overwrites = category.overwrites;
    overwrites.push(
        PermissionOverwrite {
            allow: all_permissions(),
            deny: no_permissions(),
            kind: OverwriteTarget::Member(author),
        },
    );
    RoomSpec { name, kind: ChannelKind::Voice, category: category.id, overwrites }
}

/// The stage at which the building of a room failed.
#[derive(Clone, Copy, Debug, PartialEq, Eq)]
pub enum BuildFailure {
    Typing,
    Create,
    Announce,
    Move,
}

/// A request that the builder has for the platform, with what it needs to go on.
#[derive(Clone, Debug, PartialEq, Eq)]
pub enum Build {
    /// Show in `channel` that work is under way.
    BroadcastTyping { channel: u64, author: u64, plan: RoomSpec },
    /// Create the channel that `plan` describes.
    CreateChannel { channel: u64, author: u64, plan: RoomSpec },
    /// Say in `channel` that the room `room` was built.
    Announce { channel: u64, author: u64, room: u64 },
    /// Move `member` into the room `room`.
    MoveMember { member: u64, room: u64 },
}

/// What a `Build` says.
pub enum BuildView {
    BroadcastTyping { channel: u64, author: u64, plan: RoomPlan },
    CreateChannel { channel: u64, author: u64, plan: RoomPlan },
    Announce { channel: u64, author: u64, room: u64 },
    MoveMember { member: u64, room: u64 },
}

impl View for Build {
    type V = BuildView;

    open spec fn view(&self) -> BuildView {
        match *self {
            Build::BroadcastTyping { channel, author, plan } => BuildView::BroadcastTyping {
                channel,
                author,
                plan: plan@,
            },
            Build::CreateChannel { channel, author, plan } => BuildView::CreateChannel {
                channel,
                author,
                plan: plan@,
            },
            Build::Announce { channel, author, room } => BuildView::Announce {
                channel,
                author,
                room,
            },
            Build::MoveMember { member, room } => BuildView::MoveMember { member, room },
        }
    }
}

/// Where the builder stands: at a request, or at its end.
#[derive(Clone, Debug, PartialEq, Eq)]
pub enum BuildProgress {
    Ask(Build),
    /// The room with this number is built and its author is in it.
    Built(u64),
    Failed(BuildFailure),
}

/// What a `BuildProgress` says.
pub enum BuildProgressView {
    Ask(BuildView),
    Built(u64),
    Failed(BuildFailure),
}

impl View for BuildProgress {
    type V = BuildProgressView;

    open spec fn view(&self) -> BuildProgressView {
        match *self {
            BuildProgress::Ask(state) => BuildProgressView::Ask(state@),
            BuildProgress::Built(room) => BuildProgressView::Built(room),
            BuildProgress::Failed(stage) => BuildProgressView::Failed(stage),
        }
    }
}

/// What the platform answered to a request of the builder.
#[derive(Clone, Copy, Debug, PartialEq, Eq)]
pub enum BuildEvent {
    /// The request was carried out.
    Done,
    /// The channel was created, under this number.
    Created(u64),
    Failed,
}

/// The first step of a build: the room is planned and the channel is told
/// that work is under way.
pub open spec fn build_start(
    args: Seq<char>,
    channel: u64,
    category: u64,
    template: Seq<PermissionOverwrite>,
    author: u64,
) -> BuildProgressView {
    BuildProgressView::Ask(
        BuildView::BroadcastTyping {
            channel,
            author,
            plan: planned_room(args, category, template, author),
        },
    )
}

/// The step that the builder takes from the request `state` on the answer
/// `event`. The requests follow each other as long as each is carried out; an
/// answer that does not fit the request counts as a failure.
pub open spec fn build_step(state: BuildView, event: BuildEvent) -> BuildProgressView {
    match state {
        BuildView::BroadcastTyping { channel, author, plan } => match event {
            BuildEvent::Done => BuildProgressView::Ask(
                BuildView::CreateChannel { channel, author, plan },
            ),
            _ => BuildProgressView::Failed(BuildFailure::Typing),
        },
        BuildView::CreateChannel { channel, author, plan } => match event {
            BuildEvent::Created(made) => BuildProgressView::Ask(
                BuildView::Announce { channel, author, room: made },
            ),
            _ => BuildProgressView::Failed(BuildFailure::Create),
        },
        BuildView::Announce { channel, author, room } => match event {
            BuildEvent::Done => BuildProgressView::Ask(
                BuildView::MoveMember { member: author, room },
            ),
            _ => BuildProgressView::Failed(BuildFailure::Announce),
        },
        BuildView::MoveMember { member, room } => match event {
            BuildEvent::Done => BuildProgressView::Built(room),
            _ => BuildProgressView::Failed(BuildFailure::Move),
        },
    }
}

/// Where the builder stands after the answer `event`: a builder that has ended
/// stays where it is.
pub open spec fn build_next(at: BuildProgressView, event: BuildEvent) -> BuildProgressView {
    match at {
        BuildProgressView::Ask(state) => build_step(state, event),
        _ => at,
    }
}

/// Where the builder stands after the answers `events`, one after the other.
pub open spec fn build_after(at: BuildProgressView, events: Seq<BuildEvent>) -> BuildProgressView
    decreases events.len(),
{
    if events.len() == 0 {
        at
    } else {
        build_after(build_next(at, events[0]), events.drop_first())
    }
}

/// Takes up the command to build a room, given by `context.author` in
/// `context.channel` with the text `args`.
pub fn build(context: BuildContext, args: &str) -> (at: BuildProgress)
    ensures
        at@ == build_start(
            args@,
            context.channel,
            context.category.id,
            context.category.overwrites@,
            context.author,
        ),
{
    let channel = context.channel;
    let author = context.author;
    let plan = plan_room(args, context.category, author);
    BuildProgress::Ask(Build::BroadcastTyping { channel, author, plan })
}

impl Build {
    /// The step on the answer `event` to the request `self`.
    pub fn step(self, event: BuildEvent) -> (at: BuildProgress)
        ensures
            at@ == build_step(self@, event),
    {
        match self {
            Build::BroadcastTyping { channel, author, plan } => match event {
                BuildEvent::Done => BuildProgress::Ask(
                    Build::CreateChannel { channel, author, plan },
                ),
                _ => BuildProgress::Failed(BuildFailure::Typing),
            },
            Build::CreateChannel { channel, author, plan } => match event {
                BuildEvent::Created(made) => BuildProgress::Ask(
                    Build::Announce { channel, author, room: made },
                ),
                _ => BuildProgress::Failed(BuildFailure::Create),
            },
            Build::Announce { channel, author, room } => match event {
                BuildEvent::Done => BuildProgress::Ask(
                    Build::MoveMember { member: author, room },
                ),
                _ => BuildProgress::Failed(BuildFailure::Announce),
            },
            Build::MoveMember { member, room } => match event {
                BuildEvent::Done => BuildProgress::Built(room),
                _ => BuildProgress::Failed(BuildFailure::Move),
            },
        }
    }
}

} // verus!
