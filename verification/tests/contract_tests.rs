use kovi_plugin_irc_gateway::calendar::rvs_format_utc_timestamp;
use kovi_plugin_irc_gateway::irc_handler::{
    rvs_apply_irc_effect, rvs_group_name, rvs_make_now_str_P, rvs_parse_join_channels,
    rvs_render_onebot_to_irc, IrcSession, SessionActionOf,
};
use kovi_plugin_irc_gateway::irc_message::{CapSubCommand, Command, CommandOf, PrefixOf, Response};
use kovi_plugin_irc_gateway::irc_proto::{
    rvs_build_cap_nak_reply, rvs_build_join_reply, rvs_build_userhost_reply,
    rvs_build_welcome_burst, rvs_current_utc_secs_P, rvs_handle_part,
    rvs_parse_prefix_number_E, rvs_plan_irc_command, rvs_resolve_privmsg_target,
    rvs_sanitize_nick, rvs_server_name, rvs_server_version, secs_or_zero, IrcCommandEffect,
    IrcCommandEffectOf, PrivmsgTarget, RegistrationState,
};
use kovi_plugin_irc_gateway::onebot::{
    rvs_ascii_art_text, rvs_at_mention_name, rvs_fetched_image_path, rvs_render_ascii_art_E,
    rvs_render_image_bytes_E, rvs_at_mention_text, rvs_extract_group_sender_name,
    rvs_image_note, rvs_join_segments, rvs_lookup_emoji_name, rvs_parse_i64,
    rvs_pick_display_name, rvs_pick_sender_name, rvs_split_lines, EmojiInfo, EmojiTable,
    MemberInfo, RenderedOnebotMessage, RenderedOnebotMessageOf,
};
use kovi_plugin_irc_gateway::text::{
    char_is_ascii_punctuation, char_is_whitespace, i64_to_decimal, split_on_char, trim_str,
    u64_to_padded_decimal,
};

fn reply_args(m: &kovi_plugin_irc_gateway::irc_message::Message) -> (Response, Vec<String>) {
    match &m.command {
        CommandOf::Response(r, args) => (*r, args.clone()),
        other => panic!("not a numeric reply: {:?}", other),
    }
}

#[test]
fn timestamps_match_the_calendar() {
    assert_eq!(rvs_format_utc_timestamp(1700000000), "2023-11-14T22:13:20Z");
    assert_eq!(rvs_format_utc_timestamp(86400 * 59), "1970-03-01T00:00:00Z");
    assert_eq!(rvs_format_utc_timestamp(951782400), "2000-02-29T00:00:00Z");
    assert_eq!(rvs_format_utc_timestamp(4107542400), "2100-03-01T00:00:00Z");
    assert_eq!(rvs_format_utc_timestamp(86399), "1970-01-01T23:59:59Z");
    assert_eq!(rvs_format_utc_timestamp(253402300800), "10000-01-01T00:00:00Z");
}

#[test]
fn padded_decimals() {
    assert_eq!(u64_to_padded_decimal(7, 2), "07");
    assert_eq!(u64_to_padded_decimal(1970, 4), "1970");
    assert_eq!(u64_to_padded_decimal(5, 4), "0005");
    assert_eq!(u64_to_padded_decimal(123456, 2), "123456");
    assert_eq!(i64_to_decimal(i64::MIN), i64::MIN.to_string());
    assert_eq!(i64_to_decimal(-42), "-42");
    assert_eq!(i64_to_decimal(0), "0");
}

#[test]
fn character_classes_agree_with_std() {
    for u in 0u32..0x3100 {
        if let Some(c) = char::from_u32(u) {
            assert_eq!(char_is_whitespace(c), c.is_whitespace(), "{u:#x}");
            assert_eq!(char_is_ascii_punctuation(c), c.is_ascii_punctuation(), "{u:#x}");
        }
    }
    for c in ['\u{feff}', '\u{ffff}', '\u{10ffff}', '字'] {
        assert_eq!(char_is_whitespace(c), c.is_whitespace());
    }
}

#[test]
fn splitting_and_trimming_agree_with_std() {
    for s in ["", ",", "a,b", ",,,", " a , b ,", "#1,#2"] {
        let ours = split_on_char(s, ',');
        let std_pieces: Vec<String> = s.split(',').map(str::to_owned).collect();
        assert_eq!(ours, std_pieces);
    }
    for s in ["", "  ", " a b ", "\u{3000}x\t", "x"] {
        assert_eq!(trim_str(s), s.trim());
    }
    assert_eq!(rvs_split_lines("a\nb\n"), vec!["a".to_owned(), "b".to_owned(), String::new()]);
}

#[test]
fn parse_i64_agrees_with_std() {
    for s in ["", "+", "-", "0", "-0", "+12", "-12", "12a", "9223372036854775807",
        "9223372036854775808", "-9223372036854775808", "-9223372036854775809", " 1", "007"]
    {
        assert_eq!(rvs_parse_i64(s), s.parse::<i64>().ok(), "{s:?}");
    }
}

#[test]
fn prefix_numbers_by_type() {
    assert_eq!(rvs_parse_prefix_number_E::<u8>("255"), Some(255u8));
    assert_eq!(rvs_parse_prefix_number_E::<u8>("256"), None);
    assert_eq!(rvs_parse_prefix_number_E::<u64>("a18446744073709551615b"), Some(u64::MAX));
    assert_eq!(rvs_parse_prefix_number_E::<i32>("x-5"), Some(5));
}

#[test]
fn server_identity() {
    assert_eq!(rvs_server_name(), "onebotirc.villv.tech");
    assert_eq!(rvs_server_version(), "kovi-irc-gateway-0.1");
    assert_eq!(Response::RPL_WELCOME.code(), 1);
    assert_eq!(Response::ERR_NOSUCHCHANNEL.code(), 403);
    assert_eq!(Response::RPL_TIME.code(), 391);
}

#[test]
fn welcome_burst_contents() {
    let msgs = rvs_build_welcome_burst("testnick", "2024-01-01T00:00:00Z");
    assert_eq!(msgs.len(), 9);
    for m in &msgs {
        assert!(matches!(&m.prefix, Some(PrefixOf::ServerName(s)) if s == "onebotirc.villv.tech"));
    }
    assert_eq!(
        reply_args(&msgs[0]),
        (
            Response::RPL_WELCOME,
            vec![
                "testnick".to_owned(),
                "Welcome to the QQ IRC Gateway testnick!testnick@onebotirc.villv.tech".to_owned()
            ]
        )
    );
    assert_eq!(
        reply_args(&msgs[1]).1[1],
        "Your host is onebotirc.villv.tech, running version kovi-irc-gateway-0.1"
    );
    assert_eq!(reply_args(&msgs[2]).1[1], "This server was created 2024-01-01T00:00:00Z");
    assert_eq!(reply_args(&msgs[4]).1[3], "CHANMODES=,,,m");
    assert_eq!(reply_args(&msgs[5]).1[1], "- onebotirc.villv.tech Message of the Day -");
    assert_eq!(reply_args(&msgs[6]).1[1], "- Welcome to the QQ IRC Gateway!");
    assert_eq!(reply_args(&msgs[8]).0, Response::RPL_ENDOFMOTD);
}

#[test]
fn join_reply_contents() {
    let msgs = rvs_build_join_reply("nick", "user", 12345, "TestGroup");
    assert!(matches!(&msgs[0].command, CommandOf::JOIN(c, None, None) if c == "#12345"));
    assert!(matches!(&msgs[0].prefix,
        Some(PrefixOf::Nickname(n, u, h)) if n == "nick" && u == "user" && h == "onebotirc.villv.tech"));
    assert_eq!(
        reply_args(&msgs[2]),
        (
            Response::RPL_NAMREPLY,
            vec!["nick".to_owned(), "=".to_owned(), "#12345".to_owned(), "@nick".to_owned()]
        )
    );
}

#[test]
fn userhost_and_cap_contents() {
    let nicks = vec!["alice".to_owned(), "bob".to_owned()];
    let msgs = rvs_build_userhost_reply("nick", &nicks);
    assert_eq!(
        reply_args(&msgs[0]).1[1],
        "alice=+alice@onebotirc.villv.tech bob=+bob@onebotirc.villv.tech"
    );
    let msgs = rvs_build_cap_nak_reply(None);
    assert!(matches!(&msgs[0].command,
        CommandOf::CAP(Some(t), CapSubCommand::NAK, None, Some(c)) if t == "*" && c.is_empty()));
}

#[test]
fn part_trims_and_skips_empty_channels() {
    let msgs = rvs_handle_part("nick", "user", " #1 ,, #2", &Some("bye".to_owned()));
    assert_eq!(msgs.len(), 2);
    assert!(matches!(&msgs[1].command, CommandOf::PART(c, Some(b)) if c == "#2" && b == "bye"));
    let chans = rvs_parse_join_channels(" #1 ,, #2");
    assert_eq!(chans.len(), msgs.len());
}

#[test]
fn join_channel_ids() {
    let chans = rvs_parse_join_channels("##5,#99999999999999999999,grp7");
    assert_eq!(chans[0].group_id, Some(5));
    assert_eq!(chans[1].group_id, None);
    assert_eq!(chans[2].group_id, Some(7));
}

#[test]
fn group_channel_round_trip() {
    for g in [0i64, 1, 12345, i64::MAX] {
        let chan = format!("#{g}");
        assert_eq!(rvs_resolve_privmsg_target(&chan), PrivmsgTarget::Group(g));
        assert_eq!(rvs_parse_join_channels(&chan)[0].group_id, Some(g));
    }
    assert_eq!(
        rvs_resolve_privmsg_target("#99999999999999999999"),
        PrivmsgTarget::Invalid("#99999999999999999999".to_owned())
    );
}

#[test]
fn sanitize_nick_is_idempotent() {
    for s in ["Alice!@# (test)", "张三 123", "  ", "a_b-c"] {
        let once = rvs_sanitize_nick(s);
        assert_eq!(rvs_sanitize_nick(&once), once);
    }
    assert_eq!(rvs_sanitize_nick("a_b-c"), "abc");
}

#[test]
fn log_text_names_the_command() {
    let cmd = Command::JOIN("#1".to_owned(), None, None);
    let effects = rvs_plan_irc_command(
        &cmd,
        "",
        "",
        &RegistrationState::Pending { got_nick: false, got_user: false },
        false,
        "",
        "JOIN(\"#1\", None, None)",
    );
    assert_eq!(effects.len(), 1);
    match &effects[0] {
        IrcCommandEffectOf::LogDebug(t) => {
            assert_eq!(t, "ignoring command before registration: JOIN(\"#1\", None, None)")
        }
        _ => panic!("expected a log"),
    }
    let cmd = Command::PONG("x".to_owned(), None);
    let effects =
        rvs_plan_irc_command(&cmd, "n", "u", &RegistrationState::Registered, false, "", "PONG");
    assert!(matches!(&effects[0],
        IrcCommandEffectOf::LogDebug(t) if t == "unhandled IRC command: PONG"));
}

/// Plans `cmd` for the session and applies the effects in order, as the
/// connection does.
fn run(session: &mut IrcSession, cmd: Command, now: &str) {
    let effects: Vec<IrcCommandEffect> = rvs_plan_irc_command(
        &cmd,
        &session.nick.clone(),
        &session.user.clone(),
        &session.reg_state.clone(),
        session.cap_negotiating,
        now,
        &format!("{:?}", cmd),
    );
    for e in effects {
        let _ = rvs_apply_irc_effect(session, e);
    }
}

#[test]
fn session_registers_after_nick_user_and_cap_end() {
    let mut s = IrcSession::new();
    run(&mut s, Command::CAP(None, CapSubCommand::LS, None, None), "");
    assert!(s.cap_negotiating);
    run(&mut s, Command::NICK("mynick".to_owned()), "");
    run(&mut s, Command::USER("me".to_owned(), "0".to_owned(), "r".to_owned()), "");
    assert_eq!(s.reg_state, RegistrationState::Pending { got_nick: true, got_user: true });
    run(&mut s, Command::CAP(None, CapSubCommand::END, None, None), "t");
    assert_eq!(s.reg_state, RegistrationState::Registered);
    assert_eq!(s.nick, "mynick");
    assert_eq!(s.user, "me");
    assert!(!s.cap_negotiating);
    run(&mut s, Command::NICK("other".to_owned()), "");
    assert_eq!(s.reg_state, RegistrationState::Registered);
}

#[test]
fn session_does_not_register_without_user() {
    let mut s = IrcSession::new();
    run(&mut s, Command::NICK("a".to_owned()), "");
    run(&mut s, Command::NICK("b".to_owned()), "");
    run(&mut s, Command::CAP(None, CapSubCommand::END, None, None), "");
    run(&mut s, Command::MOTD(None), "");
    assert_eq!(s.reg_state, RegistrationState::Pending { got_nick: true, got_user: false });
}

#[test]
fn session_actions() {
    let mut s = IrcSession::new();
    let _ = rvs_apply_irc_effect(&mut s, IrcCommandEffectOf::SetNick("n".to_owned()));
    let _ = rvs_apply_irc_effect(&mut s, IrcCommandEffectOf::SetUser("u".to_owned()));
    match rvs_apply_irc_effect(&mut s, IrcCommandEffectOf::AsyncJoin("#1".to_owned())) {
        SessionActionOf::Join { nick, user, chanlist } => {
            assert_eq!((nick.as_str(), user.as_str(), chanlist.as_str()), ("n", "u", "#1"));
        }
        _ => panic!("expected a join"),
    }
    match rvs_apply_irc_effect(
        &mut s,
        IrcCommandEffectOf::SendPrivmsg { target: "42".to_owned(), text: "hi".to_owned() },
    ) {
        SessionActionOf::Forward { target, text } => {
            assert_eq!(target, PrivmsgTarget::Private(42));
            assert_eq!(text, "hi");
        }
        _ => panic!("expected a forward"),
    }
}

#[test]
fn onebot_messages_on_irc() {
    let group: RenderedOnebotMessage = RenderedOnebotMessageOf::Group {
        content: vec!["hello".to_owned(), String::new(), "world".to_owned()],
        sender_id: 42,
        sender_name: "Alice".to_owned(),
        group_id: 123,
    };
    let msgs = rvs_render_onebot_to_irc(group, "me");
    assert_eq!(msgs.len(), 2);
    assert!(matches!(&msgs[1].command, CommandOf::PRIVMSG(t, l) if t == "#123" && l == "world"));
    assert!(matches!(&msgs[0].prefix,
        Some(PrefixOf::Nickname(n, u, h)) if n == "Alice" && u == "42" && h == "onebotirc.villv.tech"));
    let private: RenderedOnebotMessage = RenderedOnebotMessageOf::Private {
        content: vec!["yo".to_owned()],
        sender_id: -7,
        sender_name: "Bob".to_owned(),
    };
    let msgs = rvs_render_onebot_to_irc(private.clone(), "");
    assert!(matches!(&msgs[0].command, CommandOf::PRIVMSG(t, _) if t == "you"));
    let msgs = rvs_render_onebot_to_irc(private, "me");
    assert!(matches!(&msgs[0].command, CommandOf::PRIVMSG(t, _) if t == "me"));
}

#[test]
fn rendered_messages_from_parts() {
    let m = RenderedOnebotMessageOf::rvs_private_from_parts("!!", 99, "a\nb");
    match m {
        RenderedOnebotMessageOf::Private { content, sender_id, sender_name } => {
            assert_eq!(content, vec!["a".to_owned(), "b".to_owned()]);
            assert_eq!(sender_id, 99);
            assert_eq!(sender_name, "99");
        }
        _ => panic!(),
    }
    let m = RenderedOnebotMessageOf::rvs_group_from_parts(5, 6, None, "x");
    assert!(matches!(m, RenderedOnebotMessageOf::Group { sender_name, group_id: 5, .. } if sender_name == "6"));
}

fn member(title: Option<&str>, card: Option<&str>, nickname: Option<&str>) -> MemberInfo {
    MemberInfo {
        title: title.map(str::to_owned),
        card: card.map(str::to_owned),
        nickname: nickname.map(str::to_owned),
    }
}

#[test]
fn member_names() {
    assert_eq!(
        rvs_extract_group_sender_name(&member(Some(" VIP "), Some("Al ice"), Some("n"))),
        Some("【VIP】Alice".to_owned())
    );
    assert_eq!(
        rvs_extract_group_sender_name(&member(Some("VIP"), None, Some(" nick "))),
        Some("nick".to_owned())
    );
    assert_eq!(rvs_extract_group_sender_name(&member(None, Some("  "), None)), None);
    assert_eq!(rvs_pick_display_name(&member(None, Some(" c "), Some("n")), "f"), "c");
    assert_eq!(rvs_pick_display_name(&member(None, None, Some("n")), "f"), "n");
    assert_eq!(rvs_pick_display_name(&member(None, None, None), "f"), "f");
    assert_eq!(rvs_pick_sender_name("", 12), "12");
    assert_eq!(rvs_pick_sender_name("x", 12), "x");
    assert_eq!(rvs_at_mention_name("1", None, Some("")), "1");
    assert_eq!(rvs_at_mention_name("1", None, Some("zed")), "zed");
    assert_eq!(rvs_at_mention_name("1", Some(&member(None, None, Some("m"))), Some("zed")), "m");
    assert_eq!(rvs_at_mention_text("zed"), "[at:zed]");
}

#[test]
fn group_names_and_notes() {
    assert_eq!(rvs_group_name(Ok(Some("G"))), "G");
    assert_eq!(rvs_group_name(Ok(None)), "Unknown Group");
    assert_eq!(rvs_group_name(Err(())), "无法获取群名");
    assert_eq!(rvs_image_note("no-path"), "[image:no-path]");
    assert_eq!(rvs_ascii_art_text(Ok("ART".to_owned())), "\nART\n");
    assert_eq!(rvs_ascii_art_text(Err("bad".to_owned())), "[image:render-error:bad]");
    assert_eq!(rvs_join_segments(&vec!["a".to_owned(), "[face:x]".to_owned()]), "a[face:x]");
}

#[test]
fn emoji_lookup() {
    let mut t = EmojiTable::new();
    t.insert("1".to_owned(), EmojiInfo { emoji_id: "1".to_owned(), describe: "smile".to_owned() });
    t.insert("1".to_owned(), EmojiInfo { emoji_id: "1".to_owned(), describe: "grin".to_owned() });
    assert_eq!(rvs_lookup_emoji_name(&t, "1"), "grin");
    assert_eq!(rvs_lookup_emoji_name(&t, "2"), "2");
}

#[test]
fn clock_readings() {
    assert!(rvs_current_utc_secs_P() > 1_600_000_000);
    let now = rvs_make_now_str_P();
    assert_eq!(now.len(), 20);
    assert!(now.ends_with('Z'));
}

#[test]
fn clock_reading_before_the_epoch_is_zero() {
    assert_eq!(secs_or_zero(Some(1700000000)), 1700000000);
    assert_eq!(secs_or_zero(None), 0);
}

#[test]
fn timestamps_sort_in_time_order() {
    let times: [u64; 8] =
        [0, 59, 60, 3599, 86399, 86400, 951782399, 253402300799];
    for pair in times.windows(2) {
        let (a, b) = (rvs_format_utc_timestamp(pair[0]), rvs_format_utc_timestamp(pair[1]));
        assert!(a < b, "{a} !< {b}");
        assert_eq!(a.len(), b.len());
    }
    assert_eq!(rvs_format_utc_timestamp(253402300799), "9999-12-31T23:59:59Z");
}

#[test]
fn images_render_fifteen_rows_in_colour() {
    let image = image::DynamicImage::new_rgb8(4, 4);
    let art = rvs_render_ascii_art_E(&image);
    assert!(art.starts_with('\n') && art.ends_with('\n'));
    let rows: Vec<&str> = art.trim_matches('\n').split('\n').collect();
    assert_eq!(rows.len(), 15);
    assert!(art.contains('\u{1b}'));
}

#[test]
fn image_bytes_render_or_give_a_note() {
    let mut png = std::io::Cursor::new(Vec::new());
    image::DynamicImage::new_rgb8(4, 4).write_to(&mut png, image::ImageFormat::Png).unwrap();
    let bytes = png.into_inner();
    let art = rvs_render_image_bytes_E(&bytes);
    assert_eq!(art, rvs_render_ascii_art_E(&image::DynamicImage::new_rgb8(4, 4)));
    assert_eq!(art.trim_matches('\n').split('\n').count(), 15);
    let note = rvs_render_image_bytes_E(b"not an image");
    assert!(note.starts_with("[image:decode-error:") && note.ends_with(']'), "{note}");
}

#[test]
fn fetched_image_paths_and_notes() {
    assert_eq!(rvs_fetched_image_path(Ok(Some("/tmp/a.png"))), Ok("/tmp/a.png".to_owned()));
    assert_eq!(rvs_fetched_image_path(Ok(None)), Err("[image:no-path]".to_owned()));
    assert_eq!(
        rvs_fetched_image_path(Err("timeout")),
        Err("[image:fetch-error:timeout]".to_owned())
    );
}

#[test]
fn prefix_numbers_in_wide_types() {
    assert_eq!(rvs_parse_prefix_number_E::<u128>("#340282366920938463463374607431768211455"), Some(u128::MAX));
    assert_eq!(rvs_parse_prefix_number_E::<u128>("#340282366920938463463374607431768211456"), None);
    assert_eq!(rvs_parse_prefix_number_E::<i128>("#170141183460469231731687303715884105728"), None);
    assert_eq!(rvs_parse_prefix_number_E::<i128>("g42"), Some(42i128));
    assert_eq!(rvs_parse_prefix_number_E::<usize>("#12345"), Some(12345usize));
    assert_eq!(rvs_parse_prefix_number_E::<isize>("x"), None);
    assert_eq!(rvs_parse_prefix_number_E::<isize>("#7"), Some(7isize));
}
