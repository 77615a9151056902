use kovi_plugin_irc_gateway::calendar::rvs_format_utc_timestamp;
use kovi_plugin_irc_gateway::irc_message::{CapSubCommand, Command};
use kovi_plugin_irc_gateway::irc_proto::{
    rvs_build_away_replies, rvs_build_cap_ls_reply, rvs_build_join_reply, rvs_build_lusers_reply,
    rvs_build_motd_burst, rvs_build_no_such_channel, rvs_build_part_broadcast, rvs_build_pong,
    rvs_build_time_reply, rvs_build_userhost_reply, rvs_build_version_reply,
    rvs_build_welcome_burst, rvs_build_whois_reply, rvs_extract_digits, rvs_handle_part,
    rvs_parse_prefix_number_E, rvs_plan_irc_command, rvs_resolve_privmsg_target,
    rvs_sanitize_nick, IrcCommandEffect, PrivmsgTarget, RegistrationState,
};

#[test]
fn test_20260418_format_utc_timestamp_epoch() {
    let result = rvs_format_utc_timestamp(0);
    assert_eq!(result, "1970-01-01T00:00:00Z");
}

#[test]
fn test_20260418_format_utc_timestamp_known_date() {
    let result = rvs_format_utc_timestamp(1700000000);
    assert!(result.starts_with("202"));
    assert!(result.contains("T"));
    assert!(result.ends_with("Z"));
}

#[test]
fn test_20260418_format_utc_timestamp_midnight() {
    let result = rvs_format_utc_timestamp(86400);
    assert_eq!(result, "1970-01-02T00:00:00Z");
}

#[test]
fn test_20260418_format_utc_timestamp_leap_year() {
    let result = rvs_format_utc_timestamp(86400 * 59);
    assert!(result.contains("03-01") || result.contains("02-29") || result.contains("02-28"));
}

#[test]
fn test_20260418_parse_prefix_number_valid() {
    assert_eq!(rvs_parse_prefix_number_E::<i64>("12345"), Some(12345));
    assert_eq!(rvs_parse_prefix_number_E::<i64>("#12345"), Some(12345));
    assert_eq!(rvs_parse_prefix_number_E::<i64>("group123"), Some(123));
}

#[test]
fn test_20260418_parse_prefix_number_empty() {
    assert_eq!(rvs_parse_prefix_number_E::<i64>(""), None);
    assert_eq!(rvs_parse_prefix_number_E::<i64>("abc"), None);
    assert_eq!(rvs_parse_prefix_number_E::<i64>("#"), None);
}

#[test]
fn test_20260418_parse_prefix_number_overflow() {
    assert_eq!(rvs_parse_prefix_number_E::<u8>("999"), None);
}

#[test]
fn test_20260418_sanitize_nick_normal() {
    let result = rvs_sanitize_nick("hello world");
    assert_eq!(result, "helloworld");
}

#[test]
fn test_20260418_sanitize_nick_with_punctuation() {
    let result = rvs_sanitize_nick("Alice!@# (test)");
    assert_eq!(result, "Alicetest");
}

#[test]
fn test_20260418_sanitize_nick_all_whitespace() {
    let result = rvs_sanitize_nick("  \t\n  ");
    assert!(result.is_empty());
}

#[test]
fn test_20260418_sanitize_nick_chinese() {
    let result = rvs_sanitize_nick("张三 123");
    assert_eq!(result, "张三123");
}

#[test]
fn test_20260418_registration_state() {
    let mut state = RegistrationState::Pending { got_nick: false, got_user: false };
    assert!(!state.rvs_is_registered());
    state = RegistrationState::Registered;
    assert!(state.rvs_is_registered());
}

#[test]
fn test_20260418_build_pong() {
    let msgs = rvs_build_pong("server1".to_owned(), Some("server2".to_owned()));
    assert_eq!(msgs.len(), 1);
}

#[test]
fn test_20260418_build_cap_ls_reply() {
    let msgs = rvs_build_cap_ls_reply();
    assert_eq!(msgs.len(), 1);
}

#[test]
fn test_20260418_build_welcome_burst() {
    let msgs = rvs_build_welcome_burst("testnick", "2024-01-01T00:00:00Z");
    assert!(!msgs.is_empty());
}

#[test]
fn test_20260418_build_motd_burst() {
    let msgs = rvs_build_motd_burst("testnick");
    assert_eq!(msgs.len(), 4);
}

#[test]
fn test_20260418_build_join_reply() {
    let msgs = rvs_build_join_reply("nick", "user", 12345, "TestGroup");
    assert_eq!(msgs.len(), 4);
}

#[test]
fn test_20260418_build_away_replies_unset() {
    let msgs = rvs_build_away_replies("nick", None);
    assert_eq!(msgs.len(), 1);
}

#[test]
fn test_20260418_build_away_replies_set() {
    let away_msg = "brb".to_owned();
    let msgs = rvs_build_away_replies("nick", Some(&away_msg));
    assert_eq!(msgs.len(), 1);
}

#[test]
fn test_20260418_build_userhost_reply() {
    let nicks = vec!["alice".to_owned(), "bob".to_owned()];
    let msgs = rvs_build_userhost_reply("nick", &nicks);
    assert_eq!(msgs.len(), 1);
}

#[test]
fn test_20260418_build_no_such_channel() {
    let msg = rvs_build_no_such_channel("nick", "#abc");
    let _ = format!("{:?}", msg);
}

#[test]
fn test_20260418_build_part_broadcast() {
    let msg = rvs_build_part_broadcast("nick", "user", "#12345", Some("bye".to_owned()));
    let _ = format!("{:?}", msg);
}

#[test]
fn test_20260418_build_whois_reply() {
    let msgs = rvs_build_whois_reply("nick", "user", "target");
    assert_eq!(msgs.len(), 3);
}

#[test]
fn test_20260418_build_lusers_reply() {
    let msgs = rvs_build_lusers_reply("nick");
    assert_eq!(msgs.len(), 2);
}

#[test]
fn test_20260418_build_version_reply() {
    let msgs = rvs_build_version_reply("nick");
    assert_eq!(msgs.len(), 1);
}

#[test]
fn test_20260418_build_time_reply() {
    let msgs = rvs_build_time_reply("nick", "2024-06-15T12:30:00Z");
    assert_eq!(msgs.len(), 1);
}

#[test]
fn test_20260418_extract_digits() {
    assert_eq!(rvs_extract_digits(""), "");
    assert_eq!(rvs_extract_digits("abc"), "");
    assert_eq!(rvs_extract_digits("12345"), "12345");
    assert_eq!(rvs_extract_digits("#12345"), "12345");
    assert_eq!(rvs_extract_digits("group123"), "123");
}

#[test]
fn test_20260418_resolve_privmsg_target_group() {
    let result = rvs_resolve_privmsg_target("#12345");
    assert_eq!(result, PrivmsgTarget::Group(12345));
}

#[test]
fn test_20260418_resolve_privmsg_target_private() {
    let result = rvs_resolve_privmsg_target("67890");
    assert_eq!(result, PrivmsgTarget::Private(67890));
}

#[test]
fn test_20260418_resolve_privmsg_target_invalid() {
    let result = rvs_resolve_privmsg_target("#abc");
    assert!(matches!(result, PrivmsgTarget::Invalid(_)));
}

#[test]
fn test_20260418_resolve_privmsg_target_invalid_no_hash() {
    let result = rvs_resolve_privmsg_target("nobody");
    assert!(matches!(result, PrivmsgTarget::Invalid(_)));
}

#[test]
fn test_20260418_handle_part_single() {
    let msgs = rvs_handle_part("nick", "user", "#12345", &None);
    assert_eq!(msgs.len(), 1);
}

#[test]
fn test_20260418_handle_part_multiple() {
    let msgs = rvs_handle_part("nick", "user", "#12345,#67890", &Some("bye".to_owned()));
    assert_eq!(msgs.len(), 2);
}

#[test]
fn test_20260418_handle_part_empty() {
    let msgs = rvs_handle_part("nick", "user", "", &None);
    assert!(msgs.is_empty());
}

fn pending(got_nick: bool, got_user: bool) -> RegistrationState {
    RegistrationState::Pending { got_nick, got_user }
}

/// Plans `cmd`, with its `{:?}` text as the log text.
fn plan(
    cmd: &Command,
    nick: &str,
    user: &str,
    reg: &RegistrationState,
    cap: bool,
    now: &str,
) -> Vec<IrcCommandEffect> {
    rvs_plan_irc_command(cmd, nick, user, reg, cap, now, &format!("{:?}", cmd))
}

fn count_replies(effects: &[IrcCommandEffect]) -> usize {
    effects.iter().filter(|e| matches!(e, IrcCommandEffect::Reply(_))).count()
}

#[test]
fn test_20260418_plan_ping() {
    let effects = plan(
        &Command::PING("svr".to_owned(), None),
        "nick", "user", &pending(false, false), false, "2024-01-01T00:00:00Z",
    );
    assert_eq!(count_replies(&effects), 1);
}

#[test]
fn test_20260418_plan_nick_before_user() {
    let effects = plan(
        &Command::NICK("mynick".to_owned()),
        "nick", "user", &pending(false, false), false, "2024-01-01T00:00:00Z",
    );
    assert_eq!(count_replies(&effects), 0);
    assert!(effects.iter().any(|e| matches!(e, IrcCommandEffect::SetNick(_))));
}

#[test]
fn test_20260418_plan_nick_after_user_completes_registration() {
    let effects = plan(
        &Command::NICK("mynick".to_owned()),
        "nick", "user", &pending(false, true), false, "2024-01-01T00:00:00Z",
    );
    assert_eq!(count_replies(&effects), 1);
    assert!(effects.iter().any(|e| matches!(e, IrcCommandEffect::SetRegState(_))));
    assert!(effects.iter().any(|e| matches!(e, IrcCommandEffect::BroadcastNick(_))));
}

#[test]
fn test_20260418_plan_nick_blocked_by_cap() {
    let effects = plan(
        &Command::NICK("mynick".to_owned()),
        "nick", "user", &pending(false, true), true, "2024-01-01T00:00:00Z",
    );
    assert_eq!(count_replies(&effects), 0);
}

#[test]
fn test_20260418_plan_user_after_nick_completes_registration() {
    let effects = plan(
        &Command::USER("myuser".to_owned(), "0".to_owned(), "real".to_owned()),
        "nick", "user", &pending(true, false), false, "2024-01-01T00:00:00Z",
    );
    assert_eq!(count_replies(&effects), 1);
    assert!(effects.iter().any(|e| matches!(e, IrcCommandEffect::SetRegState(_))));
}

#[test]
fn test_20260418_plan_cap_end_completes_if_both_received() {
    let effects = plan(
        &Command::CAP(None, CapSubCommand::END, None, None),
        "nick", "user", &pending(true, true), false, "2024-01-01T00:00:00Z",
    );
    assert_eq!(count_replies(&effects), 1);
    assert!(effects.iter().any(|e| matches!(e, IrcCommandEffect::SetRegState(_))));
}

#[test]
fn test_20260418_plan_cap_end_noop_if_not_ready() {
    let effects = plan(
        &Command::CAP(None, CapSubCommand::END, None, None),
        "nick", "user", &pending(false, true), false, "2024-01-01T00:00:00Z",
    );
    assert_eq!(count_replies(&effects), 0);
    assert!(effects.iter().any(|e| matches!(e, IrcCommandEffect::SetCapNegotiating(false))));
}

#[test]
fn test_20260418_plan_join_returns_async_effect() {
    let effects = plan(
        &Command::JOIN("#12345".to_owned(), None, None),
        "nick", "user", &RegistrationState::Registered, false, "",
    );
    assert!(effects.iter().any(|e| matches!(e, IrcCommandEffect::AsyncJoin(_))));
}

#[test]
fn test_20260418_plan_join_ignored_before_registration() {
    let effects = plan(
        &Command::JOIN("#12345".to_owned(), None, None),
        "nick", "user", &pending(false, false), false, "",
    );
    assert!(effects.iter().any(|e| matches!(e, IrcCommandEffect::LogDebug(_))));
    assert!(!effects.iter().any(|e| matches!(e, IrcCommandEffect::AsyncJoin(_))));
}

#[test]
fn test_20260418_plan_privmsg() {
    let effects = plan(
        &Command::PRIVMSG("#12345".to_owned(), "hello".to_owned()),
        "nick", "user", &RegistrationState::Registered, false, "",
    );
    assert!(effects.iter().any(|e| matches!(e, IrcCommandEffect::SendPrivmsg { .. })));
}

#[test]
fn test_20260418_plan_motd() {
    let effects = plan(
        &Command::MOTD(None),
        "nick", "user", &RegistrationState::Registered, false, "",
    );
    assert_eq!(count_replies(&effects), 1);
}

#[test]
fn test_20260418_plan_time() {
    let effects = plan(
        &Command::TIME(None),
        "nick", "user", &RegistrationState::Registered, false, "2024-06-15T12:00:00Z",
    );
    assert_eq!(count_replies(&effects), 1);
}

#[test]
fn test_20260418_plan_nick_change_when_registered() {
    let effects = plan(
        &Command::NICK("newnick".to_owned()),
        "oldnick", "user", &RegistrationState::Registered, false, "",
    );
    assert!(effects.iter().any(|e| matches!(e, IrcCommandEffect::BroadcastNick(_))));
    assert_eq!(count_replies(&effects), 1);
}

#[test]
fn test_20260418_plan_unknown_command() {
    let effects = plan(
        &Command::Raw("BOGUS test".to_owned(), vec![]),
        "nick", "user", &RegistrationState::Registered, false, "",
    );
    assert!(effects.iter().any(|e| matches!(e, IrcCommandEffect::LogDebug(_))));
}

fn apply_effects(effects: &[IrcCommandEffect], state: &mut RegistrationState, cap_neg: &mut bool) {
    for e in effects {
        match e {
            IrcCommandEffect::SetRegState(s) => *state = s.clone(),
            IrcCommandEffect::SetCapNegotiating(v) => *cap_neg = *v,
            _ => {}
        }
    }
}

#[test]
fn test_20260418_irssi_registration_flow() {
    let mut state = pending(false, false);
    let mut cap_neg = false;

    let effects = plan(
        &Command::CAP(None, CapSubCommand::LS, None, None),
        "", "", &state, cap_neg, "",
    );
    apply_effects(&effects, &mut state, &mut cap_neg);
    assert!(cap_neg);

    let effects = plan(
        &Command::NICK("mynick".to_owned()),
        "", "", &state, cap_neg, "",
    );
    apply_effects(&effects, &mut state, &mut cap_neg);
    assert!(matches!(state, RegistrationState::Pending { got_nick: true, got_user: false }));

    let effects = plan(
        &Command::USER("myuser".to_owned(), "0".to_owned(), "real".to_owned()),
        "mynick", "", &state, cap_neg, "",
    );
    apply_effects(&effects, &mut state, &mut cap_neg);
    assert!(matches!(state, RegistrationState::Pending { got_nick: true, got_user: true }));

    let effects = plan(
        &Command::CAP(None, CapSubCommand::END, None, None),
        "mynick", "myuser", &state, cap_neg, "2024-01-01T00:00:00Z",
    );
    assert_eq!(count_replies(&effects), 1);
    assert!(effects
        .iter()
        .any(|e| matches!(e, IrcCommandEffect::SetRegState(RegistrationState::Registered))));
}
