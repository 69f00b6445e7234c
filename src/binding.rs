use vstd::prelude::*;

verus! {

/// The emoji of a reaction, as the chat platform reports it or as an operator
/// wrote it.
#[derive(Clone, Debug, PartialEq, Eq)]
pub enum ReactionMarker {
    /// A standard symbol, held as its text.
    Standard(String),
    /// A community's own emoji; its name may be missing.
    Custom { animated: bool, id: u64, name: Option<String> },
    /// A kind of reaction that this library does not know.
    Other,
}

/// The single reaction-role binding: reacting with `emoji` on `message_id`
/// grants `role_id`; `channel_id` is where the message was posted.
#[derive(Clone, Debug, PartialEq, Eq)]
pub struct ReactionRoleConfig {
    pub channel_id: u64,
    pub message_id: u64,
    pub role_id: u64,
    pub emoji: String,
}

/// Whether a reaction's emoji names the stored emoji text: a standard symbol by
/// its text, a custom emoji by its name; a custom emoji without a name never does.
pub open spec fn marker_names(m: ReactionMarker, emoji: Seq<char>) -> bool {
    match m {
        ReactionMarker::Standard(text) => text@ == emoji,
        ReactionMarker::Custom { name: Some(n), .. } => n@ == emoji,
        _ => false,
    }
}

impl ReactionRoleConfig {
    pub fn new(channel_id: u64, message_id: u64, role_id: u64, emoji: String) -> (r: Self)
        ensures
            r.channel_id == channel_id,
            r.message_id == message_id,
            r.role_id == role_id,
            r.emoji == emoji,
    {
        ReactionRoleConfig { channel_id, message_id, role_id, emoji }
    }

    /// An independent copy of the binding.
    pub fn copied(&self) -> (r: Self)
        ensures
            r == *self,
    {
        ReactionRoleConfig {
            channel_id: self.channel_id,
            message_id: self.message_id,
            role_id: self.role_id,
            emoji: self.emoji.clone(),
        }
    }
}

/// Decides whether `marker` names the stored emoji text.
pub fn emoji_matches(marker: &ReactionMarker, emoji: &String) -> (r: bool)
    ensures
        r == marker_names(*marker, emoji@),
{
    match marker {
        ReactionMarker::Standard(text) => *text == *emoji,
        ReactionMarker::Custom { name: Some(n), .. } => *n == *emoji,
        _ => false,
    }
}

} // verus!
