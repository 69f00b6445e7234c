use bananabot::binding::{emoji_matches, ReactionMarker, ReactionRoleConfig};
use bananabot::command::{
    confirmation, error_reply, is_reaction_role_command, marker_for, parse_request,
    CommandOption, CreationRequest, OptionValue, UsageError,
};
use bananabot::creator::{CreationAction, CreationEvent, CreationFlow};
use bananabot::guilds::should_leave;
use bananabot::matcher::{decide_reaction, ReactionEvent, ReactionKind, RoleCall, RoleOp};
use bananabot::state::{BindingState, StoreRead};

fn opt(name: &str, value: OptionValue) -> CommandOption {
    CommandOption { name: name.to_string(), value }
}

fn text(s: &str) -> OptionValue {
    OptionValue::Text(s.to_string())
}

fn full_options(emoji: &str) -> Vec<CommandOption> {
    vec![
        opt("channel", OptionValue::Channel(100)),
        opt("role", OptionValue::Role(200)),
        opt("emoji", text(emoji)),
        opt("message", text("React to get the Helper role!")),
    ]
}

fn binding(message_id: u64, role_id: u64, emoji: &str) -> ReactionRoleConfig {
    ReactionRoleConfig::new(100, message_id, role_id, emoji.to_string())
}

fn state_with(b: ReactionRoleConfig) -> BindingState {
    let mut s = BindingState::empty();
    s.replace(b);
    s
}

fn event(message_id: u64, emoji: &str) -> ReactionEvent {
    ReactionEvent {
        message_id,
        emoji: ReactionMarker::Standard(emoji.to_string()),
        guild_id: Some(900),
        user_id: Some(300),
    }
}

fn call(op: RoleOp, role_id: u64) -> Option<RoleCall> {
    Some(RoleCall { op, guild_id: 900, user_id: 300, role_id })
}

/// Runs a creation through posting, reacting and saving, as the platform would answer.
fn create(state: &mut BindingState, opts: &Vec<CommandOption>, message_id: u64) -> CreationAction {
    let (mut flow, _) = CreationFlow::start(opts);
    flow.step(state, CreationEvent::Posted { message_id });
    flow.step(state, CreationEvent::Reacted);
    flow.step(state, CreationEvent::Saved)
}

#[test]
fn create_then_grant_and_revoke_scenario() {
    let opts = full_options("✅");
    let mut state = BindingState::empty();
    let (mut flow, action) = CreationFlow::start(&opts);
    assert_eq!(
        action,
        CreationAction::PostMessage {
            channel_id: 100,
            content: "React to get the Helper role!".to_string()
        }
    );
    let action = flow.step(&mut state, CreationEvent::Posted { message_id: 555 });
    assert_eq!(
        action,
        CreationAction::AddReaction {
            channel_id: 100,
            message_id: 555,
            marker: ReactionMarker::Standard("✅".to_string())
        }
    );
    let action = flow.step(&mut state, CreationEvent::Reacted);
    assert_eq!(action, CreationAction::Save { binding: ReactionRoleConfig::new(100, 555, 200, "✅".to_string()) });
    assert_eq!(state.get(), &None);
    let action = flow.step(&mut state, CreationEvent::Saved);
    assert_eq!(
        action,
        CreationAction::Reply {
            text: "Reaction role post created in <#100>. Users can react with ✅ to get <@&200>."
                .to_string()
        }
    );
    assert_eq!(state.get(), &Some(ReactionRoleConfig::new(100, 555, 200, "✅".to_string())));
    assert_eq!(flow, CreationFlow::AwaitingReply);
    assert_eq!(flow.step(&mut state, CreationEvent::Replied), CreationAction::Nothing);
    assert_eq!(flow, CreationFlow::Finished);

    assert_eq!(decide_reaction(&state, &event(555, "✅"), ReactionKind::Added), call(RoleOp::Grant, 200));
    assert_eq!(decide_reaction(&state, &event(555, "❌"), ReactionKind::Added), None);
    assert_eq!(decide_reaction(&state, &event(555, "✅"), ReactionKind::Removed), call(RoleOp::Revoke, 200));
}

#[test]
fn same_add_twice_gives_one_grant_each_time() {
    let state = state_with(binding(555, 200, "✅"));
    let e = event(555, "✅");
    let first = decide_reaction(&state, &e, ReactionKind::Added);
    let second = decide_reaction(&state, &e, ReactionKind::Added);
    assert_eq!(first, call(RoleOp::Grant, 200));
    assert_eq!(first, second);
}

#[test]
fn empty_state_is_inert() {
    let state = BindingState::empty();
    assert_eq!(decide_reaction(&state, &event(555, "✅"), ReactionKind::Added), None);
    assert_eq!(decide_reaction(&state, &event(0, ""), ReactionKind::Removed), None);
}

#[test]
fn other_message_is_ignored_whatever_the_emoji() {
    let state = state_with(binding(555, 200, "✅"));
    assert_eq!(decide_reaction(&state, &event(556, "✅"), ReactionKind::Added), None);
    assert_eq!(decide_reaction(&state, &event(554, "✅"), ReactionKind::Removed), None);
}

#[test]
fn banana_and_lemon_are_told_apart() {
    let state = state_with(binding(555, 200, "🍌"));
    assert_eq!(decide_reaction(&state, &event(555, "🍋"), ReactionKind::Added), None);
    assert_eq!(decide_reaction(&state, &event(555, "🍌"), ReactionKind::Added), call(RoleOp::Grant, 200));
    assert_eq!(decide_reaction(&state, &event(555, "🍋"), ReactionKind::Removed), None);
    assert_eq!(decide_reaction(&state, &event(555, "🍌"), ReactionKind::Removed), call(RoleOp::Revoke, 200));
}

#[test]
fn custom_emoji_matches_by_name_only() {
    let state = state_with(binding(555, 200, "banana"));
    let mut e = event(555, "banana");
    e.emoji = ReactionMarker::Custom { animated: false, id: 42, name: Some("banana".to_string()) };
    assert_eq!(decide_reaction(&state, &e, ReactionKind::Added), call(RoleOp::Grant, 200));
    e.emoji = ReactionMarker::Custom { animated: true, id: 42, name: None };
    assert_eq!(decide_reaction(&state, &e, ReactionKind::Added), None);
    e.emoji = ReactionMarker::Other;
    assert_eq!(decide_reaction(&state, &e, ReactionKind::Added), None);
}

#[test]
fn reaction_outside_a_community_is_ignored() {
    let state = state_with(binding(555, 200, "✅"));
    let mut e = event(555, "✅");
    e.guild_id = None;
    assert_eq!(decide_reaction(&state, &e, ReactionKind::Added), None);
    let mut e = event(555, "✅");
    e.user_id = None;
    assert_eq!(decide_reaction(&state, &e, ReactionKind::Removed), None);
}

#[test]
fn new_binding_replaces_old() {
    let mut state = BindingState::empty();
    create(&mut state, &full_options("🍌"), 555);
    assert_eq!(decide_reaction(&state, &event(555, "🍌"), ReactionKind::Added), call(RoleOp::Grant, 200));
    let opts = vec![
        opt("channel", OptionValue::Channel(101)),
        opt("role", OptionValue::Role(201)),
        opt("emoji", text("🍋")),
        opt("message", text("second")),
    ];
    create(&mut state, &opts, 777);
    assert_eq!(decide_reaction(&state, &event(555, "🍌"), ReactionKind::Added), None);
    assert_eq!(decide_reaction(&state, &event(777, "🍌"), ReactionKind::Added), None);
    assert_eq!(decide_reaction(&state, &event(777, "🍋"), ReactionKind::Added), call(RoleOp::Grant, 201));
}

#[test]
fn failed_save_leaves_state_unchanged() {
    let mut state = state_with(binding(555, 200, "🍌"));
    let (mut flow, _) = CreationFlow::start(&full_options("✅"));
    flow.step(&mut state, CreationEvent::Posted { message_id: 777 });
    flow.step(&mut state, CreationEvent::Reacted);
    let action = flow.step(&mut state, CreationEvent::Failed { reason: "disk full".to_string() });
    assert_eq!(action, CreationAction::Reply { text: "Error: disk full".to_string() });
    assert_eq!(flow, CreationFlow::Finished);
    assert_eq!(state.get(), &Some(binding(555, 200, "🍌")));
    assert_eq!(flow.step(&mut state, CreationEvent::Saved), CreationAction::Nothing);
    assert_eq!(state.get(), &Some(binding(555, 200, "🍌")));
}

#[test]
fn failed_post_and_failed_reaction_end_the_flow() {
    let mut state = BindingState::empty();
    let (mut flow, _) = CreationFlow::start(&full_options("✅"));
    let action = flow.step(&mut state, CreationEvent::Failed { reason: "Missing Access".to_string() });
    assert_eq!(action, CreationAction::Reply { text: "Error: Missing Access".to_string() });
    assert_eq!(flow, CreationFlow::Finished);

    let (mut flow, _) = CreationFlow::start(&full_options("✅"));
    flow.step(&mut state, CreationEvent::Posted { message_id: 9 });
    let action = flow.step(&mut state, CreationEvent::Failed { reason: "Unknown Emoji".to_string() });
    assert_eq!(action, CreationAction::Reply { text: "Error: Unknown Emoji".to_string() });
    assert_eq!(state.get(), &None);
}

#[test]
fn failed_confirmation_gives_error_reply() {
    let mut state = BindingState::empty();
    let (mut flow, _) = CreationFlow::start(&full_options("✅"));
    flow.step(&mut state, CreationEvent::Posted { message_id: 9 });
    flow.step(&mut state, CreationEvent::Reacted);
    flow.step(&mut state, CreationEvent::Saved);
    let action = flow.step(&mut state, CreationEvent::Failed { reason: "timeout".to_string() });
    assert_eq!(action, CreationAction::Reply { text: "Error: timeout".to_string() });
    assert_eq!(state.get(), &Some(ReactionRoleConfig::new(100, 9, 200, "✅".to_string())));
}

#[test]
fn out_of_order_event_is_ignored() {
    let mut state = BindingState::empty();
    let (mut flow, _) = CreationFlow::start(&full_options("✅"));
    assert_eq!(flow.step(&mut state, CreationEvent::Saved), CreationAction::Nothing);
    assert_eq!(flow.step(&mut state, CreationEvent::Reacted), CreationAction::Nothing);
    assert_eq!(state.get(), &None);
    assert!(matches!(flow, CreationFlow::AwaitingPost { .. }));
}

#[test]
fn malformed_file_is_like_no_file() {
    let absent = BindingState::seeded(StoreRead::Absent);
    let malformed = BindingState::seeded(StoreRead::Malformed);
    assert_eq!(absent.get(), &None);
    assert_eq!(malformed.get(), &None);
    assert_eq!(decide_reaction(&malformed, &event(555, "✅"), ReactionKind::Added), None);
    let stored = BindingState::seeded(StoreRead::Record(binding(555, 200, "✅")));
    assert_eq!(decide_reaction(&stored, &event(555, "✅"), ReactionKind::Added), call(RoleOp::Grant, 200));
}

#[test]
fn each_missing_option_is_reported() {
    let mut opts = full_options("✅");
    opts.remove(3);
    assert_eq!(parse_request(&opts), Err(UsageError::MissingMessage));
    opts.remove(2);
    assert_eq!(parse_request(&opts), Err(UsageError::MissingEmoji));
    opts.remove(1);
    assert_eq!(parse_request(&opts), Err(UsageError::MissingRole));
    opts.remove(0);
    assert_eq!(parse_request(&opts), Err(UsageError::MissingChannel));
    assert_eq!(UsageError::MissingChannel.message(), "Missing channel option");
    assert_eq!(UsageError::MissingRole.message(), "Missing role option");
    assert_eq!(UsageError::MissingEmoji.message(), "Missing emoji option");
    assert_eq!(UsageError::MissingMessage.message(), "Missing message option");
}

#[test]
fn missing_option_ends_the_flow_with_its_error() {
    let opts = vec![opt("channel", OptionValue::Channel(100)), opt("emoji", text("✅"))];
    let (flow, action) = CreationFlow::start(&opts);
    assert_eq!(flow, CreationFlow::Finished);
    assert_eq!(action, CreationAction::Reply { text: "Error: Missing role option".to_string() });
}

#[test]
fn options_of_the_wrong_kind_do_not_count_and_last_one_wins() {
    let opts = vec![
        opt("channel", OptionValue::Channel(1)),
        opt("channel", OptionValue::Role(2)),
        opt("role", OptionValue::Role(3)),
        opt("role", text("x")),
        opt("emoji", text("a")),
        opt("emoji", text("b")),
        opt("message", text("m")),
        opt("extra", OptionValue::Other),
    ];
    assert_eq!(
        parse_request(&opts),
        Ok(CreationRequest {
            channel_id: 1,
            role_id: 3,
            emoji: "b".to_string(),
            message_text: "m".to_string()
        })
    );
}

#[test]
fn emoji_text_parses_through_the_platform_parser() {
    assert_eq!(marker_for(&"✅".to_string()), ReactionMarker::Standard("✅".to_string()));
    assert_eq!(marker_for(&"".to_string()), ReactionMarker::Standard("".to_string()));
    assert_eq!(
        marker_for(&"<:banana:600404340292059257>".to_string()),
        ReactionMarker::Custom { animated: false, id: 600404340292059257, name: Some("banana".to_string()) }
    );
    assert_eq!(
        marker_for(&"<a:dance:12>".to_string()),
        ReactionMarker::Custom { animated: true, id: 12, name: Some("dance".to_string()) }
    );
    assert_eq!(marker_for(&"<oops".to_string()), ReactionMarker::Standard("<oops".to_string()));
}

#[test]
fn emoji_match_rule() {
    assert!(emoji_matches(&ReactionMarker::Standard("🍌".to_string()), &"🍌".to_string()));
    assert!(!emoji_matches(&ReactionMarker::Standard("🍌 ".to_string()), &"🍌".to_string()));
    assert!(!emoji_matches(&ReactionMarker::Custom { animated: false, id: 1, name: None }, &"".to_string()));
}

#[test]
fn reply_texts() {
    assert_eq!(
        confirmation(0, &"x".to_string(), 18446744073709551615),
        "Reaction role post created in <#0>. Users can react with x to get <@&18446744073709551615>."
    );
    assert_eq!(error_reply(&"".to_string()), "Error: ");
}

#[test]
fn command_name_and_allow_list() {
    assert!(is_reaction_role_command(&"reactionrole".to_string()));
    assert!(!is_reaction_role_command(&"reactionroles".to_string()));
    assert!(!should_leave(&vec![5, 7], 7));
    assert!(should_leave(&vec![5, 7], 6));
    assert!(should_leave(&vec![], 6));
}

#[test]
fn copies_are_equal() {
    let b = binding(1, 2, "z");
    assert_eq!(b.copied(), b);
    let r = CreationRequest { channel_id: 1, role_id: 2, emoji: "e".to_string(), message_text: "m".to_string() };
    assert_eq!(r.copied(), r);
}
