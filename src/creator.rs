use vstd::prelude::*;
use crate::binding::{ReactionMarker, ReactionRoleConfig};
use crate::command::{
    CommandOption, CreationRequest, request_of, parse_request, is_standard_text, marker_for,
    confirmation, confirmation_text, marker_of_text, error_reply, error_text, usage_text,
};
use crate::matcher::{ReactionEvent, ReactionKind, event_matches, intended_call};
use crate::state::BindingState;

verus! {

/// Where the creation of a reaction-role post stands.
#[derive(Clone, Debug, PartialEq, Eq)]
pub enum CreationFlow {
    /// The post is being sent.
    AwaitingPost { request: CreationRequest },
    /// The post is out as `message_id`; its reaction is being attached.
    AwaitingReaction { request: CreationRequest, message_id: u64 },
    /// The binding is being written to the state file.
    AwaitingSave { binding: ReactionRoleConfig },
    /// The binding is in effect; the confirmation is being sent.
    AwaitingReply,
    /// Nothing more is to be done.
    Finished,
}

/// The outcome of the last action performed for the flow.
#[derive(Clone, Debug, PartialEq, Eq)]
pub enum CreationEvent {
    Posted { message_id: u64 },
    Reacted,
    Saved,
    Replied,
    Failed { reason: String },
}

/// What the flow asks to be done next.
#[derive(Clone, Debug, PartialEq, Eq)]
pub enum CreationAction {
    PostMessage { channel_id: u64, content: String },
    AddReaction { channel_id: u64, message_id: u64, marker: ReactionMarker },
    Save { binding: ReactionRoleConfig },
    Reply { text: String },
    Nothing,
}

/// Whether `m` is the reaction to attach for the emoji text `emoji`: what the
/// platform's parser makes of the text, or else the text itself as a standard
/// symbol; a text not opening with `<` is always that symbol.
pub open spec fn marker_fits(m: ReactionMarker, emoji: Seq<char>) -> bool {
    &&& marker_of_text(m, emoji)
    &&& emoji.len() == 0 || emoji[0] != '<' ==> is_standard_text(m, emoji)
}

/// Whether `a` is a reply to the operator with exactly `text`.
pub open spec fn is_reply(a: CreationAction, text: Seq<char>) -> bool {
    match a {
        CreationAction::Reply { text: t } => t@ == text,
        _ => false,
    }
}

/// Whether `a` posts exactly `content` in `channel_id`.
pub open spec fn is_post(a: CreationAction, channel_id: u64, content: Seq<char>) -> bool {
    match a {
        CreationAction::PostMessage { channel_id: c, content: t } => c == channel_id && t@ == content,
        _ => false,
    }
}

/// Whether `a` attaches to `message_id` in `channel_id` a reaction that fits `emoji`.
pub open spec fn is_reaction(a: CreationAction, channel_id: u64, message_id: u64, emoji: Seq<char>) -> bool {
    match a {
        CreationAction::AddReaction { channel_id: c, message_id: m, marker } => c == channel_id
            && m == message_id && marker_fits(marker, emoji),
        _ => false,
    }
}

/// The binding that a request makes once its post is out as `message_id`.
pub open spec fn binding_for(request: CreationRequest, message_id: u64) -> ReactionRoleConfig {
    ReactionRoleConfig {
        channel_id: request.channel_id,
        message_id,
        role_id: request.role_id,
        emoji: request.emoji,
    }
}

/// How a flow at `f` that meets `e` goes on to `g`, asking for `a`. A failure
/// ends an unfinished flow with an error reply; an event that does not fit the
/// stage is ignored.
pub open spec fn stepped(f: CreationFlow, e: CreationEvent, g: CreationFlow, a: CreationAction) -> bool {
    if f is Finished {
        g == f && a is Nothing
    } else if e is Failed {
        g is Finished && is_reply(a, error_text(e->reason@))
    } else {
        match f {
            CreationFlow::AwaitingPost { request } => match e {
                CreationEvent::Posted { message_id } => g == (CreationFlow::AwaitingReaction {
                    request,
                    message_id,
                }) && is_reaction(a, request.channel_id, message_id, request.emoji@),
                _ => g == f && a is Nothing,
            },
            CreationFlow::AwaitingReaction { request, message_id } => match e {
                CreationEvent::Reacted => g == (CreationFlow::AwaitingSave {
                    binding: binding_for(request, message_id),
                }) && a == (CreationAction::Save { binding: binding_for(request, message_id) }),
                _ => g == f && a is Nothing,
            },
            CreationFlow::AwaitingSave { binding } => match e {
                CreationEvent::Saved => g is AwaitingReply && is_reply(
                    a,
                    confirmation_text(binding.channel_id, binding.emoji@, binding.role_id),
                ),
                _ => g == f && a is Nothing,
            },
            _ => match e {
                CreationEvent::Replied => g is Finished && a is Nothing,
                _ => g == f && a is Nothing,
            },
        }
    }
}

/// Whether the binding slot is to take a new binding when `f` meets `e`: only
/// when the binding has just been saved.
pub open spec fn installs(f: CreationFlow, e: CreationEvent) -> bool {
    f is AwaitingSave && e is Saved
}

impl CreationFlow {
    /// Starts a creation from a command's parameters: it posts the message, or,
    /// when a parameter is missing, only says which.
    pub fn start(opts: &Vec<CommandOption>) -> (r: (CreationFlow, CreationAction))
        ensures
            match request_of(opts@) {
                Ok(request) => r.0 == (CreationFlow::AwaitingPost { request }) && is_post(
                    r.1,
                    request.channel_id,
                    request.message_text@,
                ),
                Err(e) => r.0 is Finished && is_reply(r.1, error_text(usage_text(e))),
            },
    {
        match parse_request(opts) {
            Ok(request) => {
                let content = request.message_text.clone();
                let channel_id = request.channel_id;
                (CreationFlow::AwaitingPost { request }, CreationAction::PostMessage { channel_id, content })
            },
            Err(e) => {
                let why = e.message();
                (CreationFlow::Finished, CreationAction::Reply { text: error_reply(&why) })
            },
        }
    }

    /// Takes the flow one stage on. The slot changes only when the binding has
    /// just been saved, and then takes exactly that binding; a failed save
    /// leaves it as it was.
    pub fn step(&mut self, state: &mut BindingState, event: CreationEvent) -> (a: CreationAction)
        ensures
            stepped(*old(self), event, *final(self), a),
            installs(*old(self), event) ==> final(state)@ == Some(old(self)->binding),
            !installs(*old(self), event) ==> final(state)@ == old(state)@,
    {
        if let CreationFlow::Finished = self {
            return CreationAction::Nothing;
        }
        if let CreationEvent::Failed { reason } = &event {
            let text = error_reply(reason);
            *self = CreationFlow::Finished;
            return CreationAction::Reply { text };
        }
        match self {
            CreationFlow::AwaitingPost { request } => {
                if let CreationEvent::Posted { message_id } = event {
                    let marker = marker_for(&request.emoji);
                    let channel_id = request.channel_id;
                    *self = CreationFlow::AwaitingReaction { request: request.copied(), message_id };
                    CreationAction::AddReaction { channel_id, message_id, marker }
                } else {
                    CreationAction::Nothing
                }
            },
            CreationFlow::AwaitingReaction { request, message_id } => {
                if let CreationEvent::Reacted = event {
                    let binding = ReactionRoleConfig::new(
                        request.channel_id,
                        *message_id,
                        request.role_id,
                        request.emoji.clone(),
                    );
                    let saved = binding.copied();
                    *self = CreationFlow::AwaitingSave { binding };
                    CreationAction::Save { binding: saved }
                } else {
                    CreationAction::Nothing
                }
            },
            CreationFlow::AwaitingSave { binding } => {
                if let CreationEvent::Saved = event {
                    let text = confirmation(binding.channel_id, &binding.emoji, binding.role_id);
                    state.replace(binding.copied());
                    *self = CreationFlow::AwaitingReply;
                    CreationAction::Reply { text }
                } else {
                    CreationAction::Nothing
                }
            },
            _ => {
                if let CreationEvent::Replied = event {
                    *self = CreationFlow::Finished;
                }
                CreationAction::Nothing
            },
        }
    }
}

/// A failure reported at any stage, the write of the state file included,
/// installs nothing: the slot takes a binding only once that binding is saved.
pub proof fn lemma_failed_save_keeps_state(f: CreationFlow, e: CreationEvent)
    ensures
        e is Failed ==> !installs(f, e),
        installs(f, e) ==> e is Saved && f is AwaitingSave,
{
}

/// A creation of `b2` that reaches its save replaces whatever binding was in
/// effect (`b1` or none): from then on a notification leads to a call only when
/// it matches `b2`, so one matching only `b1` leads to none, and one matching
/// `b2` from a community member leads to one call.
pub proof fn lemma_replacement(
    b1: Option<ReactionRoleConfig>,
    b2: ReactionRoleConfig,
    e: ReactionEvent,
    kind: ReactionKind,
)
    ensures
        installs(CreationFlow::AwaitingSave { binding: b2 }, CreationEvent::Saved),
        intended_call(Some(b2), e, kind) is Some ==> event_matches(b2, e),
        b1 is Some && event_matches(b1->Some_0, e) && !event_matches(b2, e) ==> intended_call(
            Some(b2),
            e,
            kind,
        ) is None,
        event_matches(b2, e) && e.guild_id is Some && e.user_id is Some ==> intended_call(
            Some(b2),
            e,
            kind,
        ) is Some,
{
}

} // verus!
