use vstd::prelude::*;
use vstd::string::StringExecFns;
use crate::binding::ReactionMarker;

verus! {

/// The value an operator gave for one parameter of a command.
#[derive(Clone, Debug, PartialEq, Eq)]
pub enum OptionValue {
    Channel(u64),
    Role(u64),
    Text(String),
    Other,
}

/// One named parameter of a command invocation.
#[derive(Clone, Debug, PartialEq, Eq)]
pub struct CommandOption {
    pub name: String,
    pub value: OptionValue,
}

/// A complete request to create a reaction-role post.
#[derive(Clone, Debug, PartialEq, Eq)]
pub struct CreationRequest {
    pub channel_id: u64,
    pub role_id: u64,
    pub emoji: String,
    pub message_text: String,
}

impl CreationRequest {
    /// An independent copy of the request.
    pub fn copied(&self) -> (r: Self)
        ensures
            r == *self,
    {
        CreationRequest {
            channel_id: self.channel_id,
            role_id: self.role_id,
            emoji: self.emoji.clone(),
            message_text: self.message_text.clone(),
        }
    }
}

/// A required parameter that the invocation lacked.
#[derive(Clone, Copy, Debug, PartialEq, Eq, Structural)]
pub enum UsageError {
    MissingChannel,
    MissingRole,
    MissingEmoji,
    MissingMessage,
}

/// The channel given last under `name`; parameters of another kind are passed over.
pub open spec fn last_channel(opts: Seq<CommandOption>, name: Seq<char>) -> Option<u64>
    decreases opts.len(),
{
    if opts.len() == 0 {
        None
    } else {
        match opts.last().value {
            OptionValue::Channel(id) if opts.last().name@ == name => Some(id),
            _ => last_channel(opts.drop_last(), name),
        }
    }
}

/// The role given last under `name`.
pub open spec fn last_role(opts: Seq<CommandOption>, name: Seq<char>) -> Option<u64>
    decreases opts.len(),
{
    if opts.len() == 0 {
        None
    } else {
        match opts.last().value {
            OptionValue::Role(id) if opts.last().name@ == name => Some(id),
            _ => last_role(opts.drop_last(), name),
        }
    }
}

/// The text given last under `name`.
pub open spec fn last_text(opts: Seq<CommandOption>, name: Seq<char>) -> Option<String>
    decreases opts.len(),
{
    if opts.len() == 0 {
        None
    } else {
        match opts.last().value {
            OptionValue::Text(s) if opts.last().name@ == name => Some(s),
            _ => last_text(opts.drop_last(), name),
        }
    }
}

/// The request that a list of parameters makes: the last channel under
/// "channel", role under "role", and texts under "emoji" and "message"; the
/// first of these four that is missing, in that order, is the error.
pub open spec fn request_of(opts: Seq<CommandOption>) -> Result<CreationRequest, UsageError> {
    let c = last_channel(opts, "channel"@);
    let r = last_role(opts, "role"@);
    let e = last_text(opts, "emoji"@);
    let m = last_text(opts, "message"@);
    if c is None {
        Err(UsageError::MissingChannel)
    } else if r is None {
        Err(UsageError::MissingRole)
    } else if e is None {
        Err(UsageError::MissingEmoji)
    } else if m is None {
        Err(UsageError::MissingMessage)
    } else {
        Ok(
            CreationRequest {
                channel_id: c.unwrap(),
                role_id: r.unwrap(),
                emoji: e.unwrap(),
                message_text: m.unwrap(),
            },
        )
    }
}

/// Reads a creation request out of a command's parameters.
pub fn parse_request(opts: &Vec<CommandOption>) -> (r: Result<CreationRequest, UsageError>)
    ensures
        r == request_of(opts@),
{
    let channel_name = String::from_str("channel");
    let role_name = String::from_str("role");
    let emoji_name = String::from_str("emoji");
    let message_name = String::from_str("message");
    let mut channel: Option<u64> = None;
    let mut role: Option<u64> = None;
    let mut emoji: Option<String> = None;
    let mut message: Option<String> = None;
    let mut i: usize = 0;
    while i < opts.len()
        invariant
            i <= opts@.len(),
            channel_name@ == "channel"@,
            role_name@ == "role"@,
            emoji_name@ == "emoji"@,
            message_name@ == "message"@,
            channel == last_channel(opts@.take(i as int), "channel"@),
            role == last_role(opts@.take(i as int), "role"@),
            emoji == last_text(opts@.take(i as int), "emoji"@),
            message == last_text(opts@.take(i as int), "message"@),
        decreases opts@.len() - i,
    {
        let opt = &opts[i];
        assert(opts@.take(i + 1).drop_last() =~= opts@.take(i as int));
        assert(opts@.take(i + 1).last() == opts@[i as int]);
        match &opt.value {
            OptionValue::Channel(id) => {
                if opt.name == channel_name {
                    channel = Some(*id);
                }
            },
            OptionValue::Role(id) => {
                if opt.name == role_name {
                    role = Some(*id);
                }
            },
            OptionValue::Text(s) => {
                if opt.name == emoji_name {
                    emoji = Some(s.clone());
                }
                if opt.name == message_name {
                    message = Some(s.clone());
                }
            },
            OptionValue::Other => {},
        }
        i = i + 1;
    }
    assert(opts@.take(opts@.len() as int) =~= opts@);
    let channel_id = match channel {
        Some(c) => c,
        None => return Err(UsageError::MissingChannel),
    };
    let role_id = match role {
        Some(r) => r,
        None => return Err(UsageError::MissingRole),
    };
    let emoji = match emoji {
        Some(e) => e,
        None => return Err(UsageError::MissingEmoji),
    };
    let message_text = match message {
        Some(m) => m,
        None => return Err(UsageError::MissingMessage),
    };
    Ok(CreationRequest { channel_id, role_id, emoji, message_text })
}

/// Whether `m` is the standard symbol with exactly the text `text`.
pub open spec fn is_standard_text(m: ReactionMarker, text: Seq<char>) -> bool {
    match m {
        ReactionMarker::Standard(t) => t@ == text,
        _ => false,
    }
}

/// What the platform's parser makes of an emoji text, when it accepts it.
pub uninterp spec fn parsed_reaction(s: Seq<char>) -> Option<ReactionMarker>;

/// Relies on serenity's `FromStr for ReactionType` (`ReactionType::try_from(&str)`):
/// the result depends on the text alone; an empty text is refused, a text that
/// does not open with `<` is that standard symbol, and any other text that is
/// accepted is a custom emoji.
#[verifier::external_body]
fn parse_reaction_type(s: &String) -> (r: Option<ReactionMarker>)
    ensures
        r == parsed_reaction(s@),
        s@.len() == 0 ==> r is None,
        s@.len() > 0 && s@[0] != '<' ==> r is Some && is_standard_text(r->Some_0, s@),
        s@.len() > 0 && s@[0] == '<' && r is Some ==> r->Some_0 is Custom,
        r is Some ==> !(r->Some_0 is Other),
{
    match s.parse::<serenity::model::channel::ReactionType>() {
        Ok(serenity::model::channel::ReactionType::Unicode(t)) => Some(ReactionMarker::Standard(t)),
        Ok(serenity::model::channel::ReactionType::Custom { animated, id, name }) => Some(
            ReactionMarker::Custom { animated, id: id.get(), name },
        ),
        Ok(_) => Some(ReactionMarker::Other),
        Err(_) => None,
    }
}

/// The reaction that the emoji text `emoji` stands for: what the platform's
/// parser makes of it, or else the text itself as a standard symbol.
pub open spec fn marker_of_text(m: ReactionMarker, emoji: Seq<char>) -> bool {
    &&& parsed_reaction(emoji) is Some ==> m == parsed_reaction(emoji)->Some_0
    &&& parsed_reaction(emoji) is None ==> is_standard_text(m, emoji)
}

/// The reaction to attach for an operator's emoji text: what the platform's
/// parser makes of it, or else the text itself as a standard symbol.
pub fn marker_for(emoji: &String) -> (r: ReactionMarker)
    ensures
        marker_of_text(r, emoji@),
        emoji@.len() == 0 || emoji@[0] != '<' ==> is_standard_text(r, emoji@),
        r is Custom || is_standard_text(r, emoji@),
        !(r is Other),
{
    match parse_reaction_type(emoji) {
        Some(m) => m,
        None => ReactionMarker::Standard(emoji.clone()),
    }
}

/// The decimal digit for `d`, which is below ten.
pub open spec fn digit_char(d: nat) -> char {
    if d == 0 { '0' }
    else if d == 1 { '1' }
    else if d == 2 { '2' }
    else if d == 3 { '3' }
    else if d == 4 { '4' }
    else if d == 5 { '5' }
    else if d == 6 { '6' }
    else if d == 7 { '7' }
    else if d == 8 { '8' }
    else { '9' }
}

/// `n` written in decimal, without sign or leading zeros.
pub open spec fn decimal_text(n: nat) -> Seq<char>
    decreases n,
{
    if n < 10 {
        seq![digit_char(n)]
    } else {
        decimal_text(n / 10).push(digit_char(n % 10))
    }
}

/// The one-character text of the digit `d`, which is below ten.
fn digit_text(d: u64) -> (r: &'static str)
    requires
        d < 10,
    ensures
        r@ == seq![digit_char(d as nat)],
{
    proof {
        reveal_strlit("0");
        reveal_strlit("1");
        reveal_strlit("2");
        reveal_strlit("3");
        reveal_strlit("4");
        reveal_strlit("5");
        reveal_strlit("6");
        reveal_strlit("7");
        reveal_strlit("8");
        reveal_strlit("9");
    }
    if d == 0 { "0" }
    else if d == 1 { "1" }
    else if d == 2 { "2" }
    else if d == 3 { "3" }
    else if d == 4 { "4" }
    else if d == 5 { "5" }
    else if d == 6 { "6" }
    else if d == 7 { "7" }
    else if d == 8 { "8" }
    else { "9" }
}

/// Writes `n` in decimal.
fn decimal(n: u64) -> (r: String)
    ensures
        r@ == decimal_text(n as nat),
    decreases n,
{
    if n < 10 {
        String::from_str(digit_text(n))
    } else {
        let mut t = decimal(n / 10);
        t.append(digit_text(n % 10));
        t
    }
}

/// The confirmation shown to the operator after a creation.
pub open spec fn confirmation_text(channel_id: u64, emoji: Seq<char>, role_id: u64) -> Seq<char> {
    "Reaction role post created in <#"@ + decimal_text(channel_id as nat)
        + ">. Users can react with "@ + emoji + " to get <@&"@ + decimal_text(role_id as nat)
        + ">."@
}

/// Builds the confirmation shown to the operator after a creation.
pub fn confirmation(channel_id: u64, emoji: &String, role_id: u64) -> (r: String)
    ensures
        r@ == confirmation_text(channel_id, emoji@, role_id),
{
    let mut t = String::from_str("Reaction role post created in <#");
    let c = decimal(channel_id);
    t.append(c.as_str());
    t.append(">. Users can react with ");
    t.append(emoji.as_str());
    t.append(" to get <@&");
    let r = decimal(role_id);
    t.append(r.as_str());
    t.append(">.");
    assert(t@ =~= confirmation_text(channel_id, emoji@, role_id));
    t
}

/// The error shown to the operator when a creation fails for `reason`.
pub open spec fn error_text(reason: Seq<char>) -> Seq<char> {
    "Error: "@ + reason
}

/// Builds the error shown to the operator when a creation fails for `reason`.
pub fn error_reply(reason: &String) -> (r: String)
    ensures
        r@ == error_text(reason@),
{
    let mut t = String::from_str("Error: ");
    t.append(reason.as_str());
    t
}

/// How each usage error reads.
pub open spec fn usage_text(e: UsageError) -> Seq<char> {
    match e {
        UsageError::MissingChannel => "Missing channel option"@,
        UsageError::MissingRole => "Missing role option"@,
        UsageError::MissingEmoji => "Missing emoji option"@,
        UsageError::MissingMessage => "Missing message option"@,
    }
}

impl UsageError {
    /// The text of this error.
    pub fn message(&self) -> (r: String)
        ensures
            r@ == usage_text(*self),
    {
        match self {
            UsageError::MissingChannel => String::from_str("Missing channel option"),
            UsageError::MissingRole => String::from_str("Missing role option"),
            UsageError::MissingEmoji => String::from_str("Missing emoji option"),
            UsageError::MissingMessage => String::from_str("Missing message option"),
        }
    }
}

/// Whether a command invocation is the reaction-role command.
pub fn is_reaction_role_command(name: &String) -> (r: bool)
    ensures
        r == (name@ == "reactionrole"@),
{
    let expected = String::from_str("reactionrole");
    *name == expected
}

} // verus!
