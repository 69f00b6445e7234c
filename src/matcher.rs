use vstd::prelude::*;
use crate::binding::{ReactionMarker, ReactionRoleConfig, marker_names, emoji_matches};
use crate::state::{BindingState, StoreRead, stored_binding};

verus! {

/// Whether a reaction was added or removed.
#[derive(Clone, Copy, Debug, PartialEq, Eq, Structural)]
pub enum ReactionKind {
    Added,
    Removed,
}

/// The role operation asked of the platform.
#[derive(Clone, Copy, Debug, PartialEq, Eq, Structural)]
pub enum RoleOp {
    Grant,
    Revoke,
}

/// One grant or revoke of `role_id` for `user_id` in community `guild_id`.
#[derive(Clone, Copy, Debug, PartialEq, Eq, Structural)]
pub struct RoleCall {
    pub op: RoleOp,
    pub guild_id: u64,
    pub user_id: u64,
    pub role_id: u64,
}

/// A reaction notification: who reacted with what on which message, and in
/// which community (none outside any community).
#[derive(Clone, Debug, PartialEq, Eq)]
pub struct ReactionEvent {
    pub message_id: u64,
    pub emoji: ReactionMarker,
    pub guild_id: Option<u64>,
    pub user_id: Option<u64>,
}

/// The role operation that a kind of reaction asks for.
pub open spec fn op_for(kind: ReactionKind) -> RoleOp {
    match kind {
        ReactionKind::Added => RoleOp::Grant,
        ReactionKind::Removed => RoleOp::Revoke,
    }
}

/// A notification concerns a binding when it is on the bound message and its
/// emoji names the bound emoji; the channel plays no part.
pub open spec fn event_matches(b: ReactionRoleConfig, e: ReactionEvent) -> bool {
    e.message_id == b.message_id && marker_names(e.emoji, b.emoji@)
}

/// The call owed for a notification under the binding `current`: one grant (on
/// add) or revoke (on remove) of the bound role, when the notification matches
/// and names both a community and a user; otherwise none.
pub open spec fn intended_call(
    current: Option<ReactionRoleConfig>,
    e: ReactionEvent,
    kind: ReactionKind,
) -> Option<RoleCall> {
    match current {
        None => None,
        Some(b) => if event_matches(b, e) && e.guild_id.is_some() && e.user_id.is_some() {
            Some(
                RoleCall {
                    op: op_for(kind),
                    guild_id: e.guild_id.unwrap(),
                    user_id: e.user_id.unwrap(),
                    role_id: b.role_id,
                },
            )
        } else {
            None
        },
    }
}

/// Decides what a reaction notification asks of the platform under the
/// current binding. The slot is only read.
pub fn decide_reaction(state: &BindingState, event: &ReactionEvent, kind: ReactionKind) -> (r:
    Option<RoleCall>)
    ensures
        r == intended_call(state@, *event, kind),
{
    let current = state.get();
    let binding = match current {
        Some(b) => b,
        None => return None,
    };
    if event.message_id != binding.message_id {
        return None;
    }
    if !emoji_matches(&event.emoji, &binding.emoji) {
        return None;
    }
    let guild_id = match event.guild_id {
        Some(g) => g,
        None => return None,
    };
    let user_id = match event.user_id {
        Some(u) => u,
        None => return None,
    };
    let op = match kind {
        ReactionKind::Added => RoleOp::Grant,
        ReactionKind::Removed => RoleOp::Revoke,
    };
    Some(RoleCall { op, guild_id, user_id, role_id: binding.role_id })
}

/// Under a fixed binding, a "reaction added" notification that matches and
/// names a community and a user asks for exactly one grant of the bound role,
/// and any call asked for is a grant.
pub proof fn lemma_matching_add_is_one_grant(b: ReactionRoleConfig, e: ReactionEvent)
    ensures
        event_matches(b, e) && e.guild_id is Some && e.user_id is Some ==> intended_call(
            Some(b),
            e,
            ReactionKind::Added,
        ) == Some(
            RoleCall {
                op: RoleOp::Grant,
                guild_id: e.guild_id.unwrap(),
                user_id: e.user_id.unwrap(),
                role_id: b.role_id,
            },
        ),
        intended_call(Some(b), e, ReactionKind::Added) is Some ==> intended_call(
            Some(b),
            e,
            ReactionKind::Added,
        ).unwrap().op == RoleOp::Grant,
{
}

/// With no binding, no notification leads to any call.
pub proof fn lemma_no_binding_inert(e: ReactionEvent, kind: ReactionKind)
    ensures
        intended_call(None, e, kind) is None,
{
}

/// A notification on another message than the bound one leads to no call,
/// whatever its emoji.
pub proof fn lemma_other_message_inert(b: ReactionRoleConfig, e: ReactionEvent, kind: ReactionKind)
    requires
        e.message_id != b.message_id,
    ensures
        intended_call(Some(b), e, kind) is None,
{
}

/// On the bound message, a standard emoji other than the bound one leads to no
/// call, and the bound one to exactly one call of the kind's operation.
pub proof fn lemma_emoji_discrimination(
    b: ReactionRoleConfig,
    text: String,
    guild_id: u64,
    user_id: u64,
    kind: ReactionKind,
)
    ensures
        ({
            let e = ReactionEvent {
                message_id: b.message_id,
                emoji: ReactionMarker::Standard(text),
                guild_id: Some(guild_id),
                user_id: Some(user_id),
            };
            &&& text@ != b.emoji@ ==> intended_call(Some(b), e, kind) is None
            &&& text@ == b.emoji@ ==> intended_call(Some(b), e, kind) == Some(
                RoleCall { op: op_for(kind), guild_id, user_id, role_id: b.role_id },
            )
        }),
{
}

/// Starting from a malformed state file is starting from none: the same slot,
/// and no notification leads to a call.
pub proof fn lemma_malformed_file_as_absent(e: ReactionEvent, kind: ReactionKind)
    ensures
        stored_binding(StoreRead::Malformed) == stored_binding(StoreRead::Absent),
        intended_call(stored_binding(StoreRead::Malformed), e, kind) is None,
{
}

} // verus!
