//! What the gateway answers on IRC: the messages it builds and the plan of
//! effects that each client command gives.
use vstd::prelude::*;
use vstd::string::*;

use crate::irc_message::{
    CapSubCommand, Command, CommandOf, CommandView, Message, MessageOf, MessageView, Prefix,
    PrefixOf, PrefixView, Response, message_from,
};

pub use crate::calendar::rvs_format_utc_timestamp;
use crate::text::{
    all_digits, args2, args3, args4, args5, args6, args7, concat2, copy_opt_string, copy_string,
    digits_of, digits_value, i64_to_decimal, is_ascii_digit, keep_digits, keep_nick_chars,
    lemma_map_values_step, list_items, list_items_of, nick_chars_of, opt_view, parse_digits,
    parse_digits_wide,
    signed_decimal, str_chars, string_from_range, strs_view,
};

verus! {

// ---------------------------------------------------------------------------
// Identity of the server
// ---------------------------------------------------------------------------
/// The name under which the gateway presents itself.
pub open spec fn server_name_view() -> Seq<char> {
    "onebotirc.villv.tech"@
}

/// The version string that the gateway reports.
pub open spec fn server_version_view() -> Seq<char> {
    "kovi-irc-gateway-0.1"@
}

pub fn rvs_server_name() -> (s: &'static str)
    ensures
        s@ == server_name_view(),
{
    "onebotirc.villv.tech"
}

pub fn rvs_server_version() -> (s: &'static str)
    ensures
        s@ == server_version_view(),
{
    "kovi-irc-gateway-0.1"
}

/// The prefix of the messages that the server itself sends.
pub open spec fn server_prefix_view() -> PrefixView {
    PrefixOf::ServerName(server_name_view())
}

/// The prefix of the messages sent on behalf of the user `nick`/`user`.
pub open spec fn nick_prefix_view(nick: Seq<char>, user: Seq<char>) -> PrefixView {
    PrefixOf::Nickname(nick, user, server_name_view())
}

/// A message from the server that carries `command`.
pub open spec fn server_msg_view(command: CommandView) -> MessageView {
    MessageOf { prefix: Some(server_prefix_view()), command }
}

/// A numeric reply from the server with the given arguments.
pub open spec fn server_reply_view(response: Response, args: Seq<Seq<char>>) -> MessageView {
    server_msg_view(CommandOf::Response(response, args))
}

/// A message with `command` sent on behalf of the user `nick`/`user`.
pub open spec fn user_msg_view(
    nick: Seq<char>,
    user: Seq<char>,
    command: CommandView,
) -> MessageView {
    MessageOf { prefix: Some(nick_prefix_view(nick, user)), command }
}

// ---------------------------------------------------------------------------
// Prefixes and single messages
// ---------------------------------------------------------------------------
/// `message` with its prefix replaced by `prefix`.
pub fn rvs_prefixed(prefix: Prefix, message: Message) -> (m: Message)
    ensures
        m.deep_view() == (MessageOf {
            prefix: Some(prefix.deep_view()),
            command: message.deep_view().command,
        }),
{
    let mut message = message;
    message.prefix = Some(prefix);
    message
}

pub fn rvs_server_prefix() -> (p: Prefix)
    ensures
        p.deep_view() == server_prefix_view(),
{
    PrefixOf::ServerName(rvs_server_name().to_owned())
}

pub fn rvs_server_msg(cmd: Command) -> (m: Message)
    ensures
        m.deep_view() == server_msg_view(cmd.deep_view()),
{
    rvs_prefixed(rvs_server_prefix(), message_from(cmd))
}

pub fn rvs_server_reply(response: Response, args: Vec<String>) -> (m: Message)
    ensures
        m.deep_view() == server_reply_view(response, strs_view(args@)),
{
    rvs_server_msg(CommandOf::Response(response, args))
}

pub fn rvs_nick_prefix(nick: &str, user: &str) -> (p: Prefix)
    ensures
        p.deep_view() == nick_prefix_view(nick@, user@),
{
    PrefixOf::Nickname(nick.to_owned(), user.to_owned(), rvs_server_name().to_owned())
}

// ---------------------------------------------------------------------------
// Message of the day
// ---------------------------------------------------------------------------
pub open spec fn motd_start_view(nick: Seq<char>) -> MessageView {
    server_reply_view(
        Response::RPL_MOTDSTART,
        seq![nick, "- "@ + server_name_view() + " Message of the Day -"@],
    )
}

pub open spec fn motd_line_view(nick: Seq<char>, line: Seq<char>) -> MessageView {
    server_reply_view(Response::RPL_MOTD, seq![nick, "- "@ + line])
}

pub open spec fn motd_end_view(nick: Seq<char>) -> MessageView {
    server_reply_view(Response::RPL_ENDOFMOTD, seq![nick, "End of /MOTD command."@])
}

pub fn rvs_build_motd_start(nick: &str) -> (m: Message)
    ensures
        m.deep_view() == motd_start_view(nick@),
{
    let mut text = "- ".to_owned();
    text.append(rvs_server_name());
    text.append(" Message of the Day -");
    let args = args2(nick.to_owned(), text);
    assert(strs_view(args@) =~= seq![nick@, "- "@ + server_name_view() + " Message of the Day -"@]);
    rvs_server_reply(Response::RPL_MOTDSTART, args)
}

pub fn rvs_build_motd_line(nick: &str, line: &str) -> (m: Message)
    ensures
        m.deep_view() == motd_line_view(nick@, line@),
{
    let args = args2(nick.to_owned(), concat2("- ", line));
    assert(strs_view(args@) =~= seq![nick@, "- "@ + line@]);
    rvs_server_reply(Response::RPL_MOTD, args)
}

pub fn rvs_build_motd_end(nick: &str) -> (m: Message)
    ensures
        m.deep_view() == motd_end_view(nick@),
{
    let args = args2(nick.to_owned(), "End of /MOTD command.".to_owned());
    assert(strs_view(args@) =~= seq![nick@, "End of /MOTD command."@]);
    rvs_server_reply(Response::RPL_ENDOFMOTD, args)
}

pub open spec fn motd_first_line_view() -> Seq<char> {
    "Welcome to the QQ IRC Gateway!"@
}

pub open spec fn motd_second_line_view() -> Seq<char> {
    "Join a QQ group channel with: /JOIN #<group_id>"@
}

/// The message of the day: its start, its two lines and its end.
pub open spec fn motd_burst_view(nick: Seq<char>) -> Seq<MessageView> {
    seq![
        motd_start_view(nick),
        motd_line_view(nick, motd_first_line_view()),
        motd_line_view(nick, motd_second_line_view()),
        motd_end_view(nick),
    ]
}

pub fn rvs_build_motd_burst(nick: &str) -> (r: Vec<Message>)
    ensures
        r.deep_view() == motd_burst_view(nick@),
{
    let r = vec![
        rvs_build_motd_start(nick),
        rvs_build_motd_line(nick, "Welcome to the QQ IRC Gateway!"),
        rvs_build_motd_line(nick, "Join a QQ group channel with: /JOIN #<group_id>"),
        rvs_build_motd_end(nick),
    ];
    assert(r.deep_view() =~= motd_burst_view(nick@));
    r
}

// ---------------------------------------------------------------------------
// Registration
// ---------------------------------------------------------------------------
/// The replies that greet a client once it is registered (numerics 001 to 005,
/// then the message of the day).
pub open spec fn welcome_burst_view(nick: Seq<char>, now: Seq<char>) -> Seq<MessageView> {
    seq![
        server_reply_view(
            Response::RPL_WELCOME,
            seq![
                nick,
                "Welcome to the QQ IRC Gateway "@ + nick + "!"@ + nick + "@"@ + server_name_view(),
            ],
        ),
        server_reply_view(
            Response::RPL_YOURHOST,
            seq![
                nick,
                "Your host is "@ + server_name_view() + ", running version "@
                    + server_version_view(),
            ],
        ),
        server_reply_view(Response::RPL_CREATED, seq![nick, "This server was created "@ + now]),
        server_reply_view(
            Response::RPL_MYINFO,
            seq![nick, server_name_view(), server_version_view(), "io"@, "mnt"@],
        ),
        server_reply_view(
            Response::RPL_ISUPPORT,
            seq![
                nick,
                "CASEMAPPING=ascii"@,
                "CHANTYPES=#"@,
                "CHANMODES=,,,m"@,
                "PREFIX=(o)@"@,
                "NICKLEN=30"@,
                "are supported by this server"@,
            ],
        ),
    ] + motd_burst_view(nick)
}

pub fn rvs_build_welcome_burst(nick: &str, now_str: &str) -> (r: Vec<Message>)
    ensures
        r.deep_view() == welcome_burst_view(nick@, now_str@),
{
    let mut welcome = "Welcome to the QQ IRC Gateway ".to_owned();
    welcome.append(nick);
    welcome.append("!");
    welcome.append(nick);
    welcome.append("@");
    welcome.append(rvs_server_name());
    let args = args2(nick.to_owned(), welcome);
    let m1 = rvs_server_reply(Response::RPL_WELCOME, args);

    let mut host = "Your host is ".to_owned();
    host.append(rvs_server_name());
    host.append(", running version ");
    host.append(rvs_server_version());
    let args = args2(nick.to_owned(), host);
    let m2 = rvs_server_reply(Response::RPL_YOURHOST, args);

    let args = args2(nick.to_owned(), concat2("This server was created ", now_str));
    let m3 = rvs_server_reply(Response::RPL_CREATED, args);

    let args = args5(
        nick.to_owned(),
        rvs_server_name().to_owned(),
        rvs_server_version().to_owned(),
        "io".to_owned(),
        "mnt".to_owned(),
    );
    let m4 = rvs_server_reply(Response::RPL_MYINFO, args);

    let args = args7(
        nick.to_owned(),
        "CASEMAPPING=ascii".to_owned(),
        "CHANTYPES=#".to_owned(),
        "CHANMODES=,,,m".to_owned(),
        "PREFIX=(o)@".to_owned(),
        "NICKLEN=30".to_owned(),
        "are supported by this server".to_owned(),
    );
    let m5 = rvs_server_reply(Response::RPL_ISUPPORT, args);

    let mut r = vec![m1, m2, m3, m4, m5];
    let mut motd = rvs_build_motd_burst(nick);
    r.append(&mut motd);
    assert(r.deep_view() =~= welcome_burst_view(nick@, now_str@));
    r
}

// ---------------------------------------------------------------------------
// Replies to single commands
// ---------------------------------------------------------------------------
pub open spec fn cap_ls_reply_view() -> Seq<MessageView> {
    seq![
        server_msg_view(
            CommandOf::CAP(Some("*"@), CapSubCommand::LS, None, Some(Seq::<char>::empty())),
        ),
    ]
}

pub fn rvs_build_cap_ls_reply() -> (r: Vec<Message>)
    ensures
        r.deep_view() == cap_ls_reply_view(),
{
    let r = vec![
        rvs_server_msg(
            CommandOf::CAP(Some("*".to_owned()), CapSubCommand::LS, None, Some(String::new())),
        ),
    ];
    assert(r.deep_view() =~= cap_ls_reply_view());
    r
}

pub open spec fn cap_nak_reply_view(requested: Option<Seq<char>>) -> Seq<MessageView> {
    seq![
        server_msg_view(
            CommandOf::CAP(
                Some("*"@),
                CapSubCommand::NAK,
                None,
                Some(
                    match requested {
                        Some(r) => r,
                        None => Seq::<char>::empty(),
                    },
                ),
            ),
        ),
    ]
}

pub fn rvs_build_cap_nak_reply(requested: Option<String>) -> (r: Vec<Message>)
    ensures
        r.deep_view() == cap_nak_reply_view(opt_view(requested)),
{
    let caps = match requested {
        Some(s) => s,
        None => String::new(),
    };
    let r = vec![
        rvs_server_msg(CommandOf::CAP(Some("*".to_owned()), CapSubCommand::NAK, None, Some(caps))),
    ];
    assert(r.deep_view() =~= cap_nak_reply_view(opt_view(requested)));
    r
}

pub open spec fn pong_view(server1: Seq<char>, server2: Option<Seq<char>>) -> Seq<MessageView> {
    seq![server_msg_view(CommandOf::PONG(server1, server2))]
}

pub fn rvs_build_pong(server1: String, server2: Option<String>) -> (r: Vec<Message>)
    ensures
        r.deep_view() == pong_view(server1@, opt_view(server2)),
{
    let r = vec![rvs_server_msg(CommandOf::PONG(server1, server2))];
    assert(r.deep_view() =~= pong_view(server1@, opt_view(server2)));
    r
}

pub open spec fn nick_change_view(nick: Seq<char>, user: Seq<char>) -> Seq<MessageView> {
    seq![user_msg_view(nick, user, CommandOf::NICK(nick))]
}

pub fn rvs_build_nick_change_broadcast(nick: &str, user: &str) -> (r: Vec<Message>)
    ensures
        r.deep_view() == nick_change_view(nick@, user@),
{
    let r = vec![
        rvs_prefixed(rvs_nick_prefix(nick, user), message_from(CommandOf::NICK(nick.to_owned()))),
    ];
    assert(r.deep_view() =~= nick_change_view(nick@, user@));
    r
}

/// The channel that stands for the QQ group `group_id`.
pub open spec fn group_channel_view(group_id: int) -> Seq<char> {
    "#"@ + signed_decimal(group_id)
}

/// Joining a group channel: the JOIN echo, its topic (the group's name) and
/// the list of names in it.
pub open spec fn join_reply_view(
    nick: Seq<char>,
    user: Seq<char>,
    group_id: int,
    group_name: Seq<char>,
) -> Seq<MessageView> {
    let chan = group_channel_view(group_id);
    seq![
        user_msg_view(nick, user, CommandOf::JOIN(chan, None, None)),
        server_reply_view(Response::RPL_TOPIC, seq![nick, chan, group_name]),
        server_reply_view(Response::RPL_NAMREPLY, seq![nick, "="@, chan, "@"@ + nick]),
        server_reply_view(Response::RPL_ENDOFNAMES, seq![nick, chan, "End of /NAMES list."@]),
    ]
}

pub fn rvs_build_join_reply(nick: &str, user: &str, group_id: i64, group_name: &str) -> (r: Vec<
    Message,
>)
    ensures
        r.deep_view() == join_reply_view(nick@, user@, group_id as int, group_name@),
{
    let id = i64_to_decimal(group_id);
    let chan = concat2("#", id.as_str());
    let join = rvs_prefixed(
        rvs_nick_prefix(nick, user),
        message_from(CommandOf::JOIN(copy_string(&chan), None, None)),
    );
    let topic = rvs_server_reply(
        Response::RPL_TOPIC,
        args3(nick.to_owned(), copy_string(&chan), group_name.to_owned()),
    );
    let names = rvs_server_reply(
        Response::RPL_NAMREPLY,
        args4(nick.to_owned(), "=".to_owned(), copy_string(&chan), concat2("@", nick)),
    );
    let end = rvs_server_reply(
        Response::RPL_ENDOFNAMES,
        args3(nick.to_owned(), chan, "End of /NAMES list.".to_owned()),
    );
    let r = vec![join, topic, names, end];
    assert(r.deep_view() =~= join_reply_view(nick@, user@, group_id as int, group_name@));
    r
}

pub open spec fn no_such_channel_view(nick: Seq<char>, channel: Seq<char>) -> MessageView {
    server_reply_view(Response::ERR_NOSUCHCHANNEL, seq![nick, channel, "No such channel"@])
}

pub fn rvs_build_no_such_channel(nick: &str, channel: &str) -> (m: Message)
    ensures
        m.deep_view() == no_such_channel_view(nick@, channel@),
{
    let args = args3(nick.to_owned(), channel.to_owned(), "No such channel".to_owned());
    assert(strs_view(args@) =~= seq![nick@, channel@, "No such channel"@]);
    rvs_server_reply(Response::ERR_NOSUCHCHANNEL, args)
}

pub open spec fn part_view(
    nick: Seq<char>,
    user: Seq<char>,
    channel: Seq<char>,
    comment: Option<Seq<char>>,
) -> MessageView {
    user_msg_view(nick, user, CommandOf::PART(channel, comment))
}

pub fn rvs_build_part_broadcast(
    nick: &str,
    user: &str,
    channel: &str,
    comment: Option<String>,
) -> (m: Message)
    ensures
        m.deep_view() == part_view(nick@, user@, channel@, opt_view(comment)),
{
    rvs_prefixed(
        rvs_nick_prefix(nick, user),
        message_from(CommandOf::PART(channel.to_owned(), comment)),
    )
}

pub open spec fn who_end_view(nick: Seq<char>, mask: Seq<char>) -> Seq<MessageView> {
    seq![server_reply_view(Response::RPL_ENDOFWHO, seq![nick, mask, "End of /WHO list."@])]
}

pub fn rvs_build_who_end(nick: &str, mask: &str) -> (r: Vec<Message>)
    ensures
        r.deep_view() == who_end_view(nick@, mask@),
{
    let args = args3(nick.to_owned(), mask.to_owned(), "End of /WHO list.".to_owned());
    let r = vec![rvs_server_reply(Response::RPL_ENDOFWHO, args)];
    assert(r.deep_view() =~= who_end_view(nick@, mask@));
    r
}

pub open spec fn whois_reply_view(nick: Seq<char>, user: Seq<char>, mask: Seq<char>) -> Seq<
    MessageView,
> {
    seq![
        server_reply_view(
            Response::RPL_WHOISUSER,
            seq![nick, mask, user, server_name_view(), "*"@, mask],
        ),
        server_reply_view(
            Response::RPL_WHOISSERVER,
            seq![nick, mask, server_name_view(), "QQ IRC Gateway"@],
        ),
        server_reply_view(Response::RPL_ENDOFWHOIS, seq![nick, mask, "End of /WHOIS list."@]),
    ]
}

pub fn rvs_build_whois_reply(nick: &str, user: &str, mask: &str) -> (r: Vec<Message>)
    ensures
        r.deep_view() == whois_reply_view(nick@, user@, mask@),
{
    let m1 = rvs_server_reply(
        Response::RPL_WHOISUSER,
        args6(
            nick.to_owned(),
            mask.to_owned(),
            user.to_owned(),
            rvs_server_name().to_owned(),
            "*".to_owned(),
            mask.to_owned(),
        ),
    );
    let m2 = rvs_server_reply(
        Response::RPL_WHOISSERVER,
        args4(
            nick.to_owned(),
            mask.to_owned(),
            rvs_server_name().to_owned(),
            "QQ IRC Gateway".to_owned(),
        ),
    );
    let m3 = rvs_server_reply(
        Response::RPL_ENDOFWHOIS,
        args3(nick.to_owned(), mask.to_owned(), "End of /WHOIS list.".to_owned()),
    );
    let r = vec![m1, m2, m3];
    assert(r.deep_view() =~= whois_reply_view(nick@, user@, mask@));
    r
}

pub open spec fn whowas_end_view(nick: Seq<char>, nicklist: Seq<char>) -> Seq<MessageView> {
    seq![server_reply_view(Response::RPL_ENDOFWHOWAS, seq![nick, nicklist, "End of WHOWAS."@])]
}

pub fn rvs_build_whowas_end(nick: &str, nicklist: &str) -> (r: Vec<Message>)
    ensures
        r.deep_view() == whowas_end_view(nick@, nicklist@),
{
    let args = args3(nick.to_owned(), nicklist.to_owned(), "End of WHOWAS.".to_owned());
    let r = vec![rvs_server_reply(Response::RPL_ENDOFWHOWAS, args)];
    assert(r.deep_view() =~= whowas_end_view(nick@, nicklist@));
    r
}

/// `items` joined by `sep`.
pub open spec fn join_view(items: Seq<Seq<char>>, sep: Seq<char>) -> Seq<char>
    decreases items.len(),
{
    if items.len() == 0 {
        Seq::empty()
    } else if items.len() == 1 {
        items[0]
    } else {
        join_view(items.drop_last(), sep) + sep + items.last()
    }
}

/// The USERHOST entry of `n`: `n=+n@server`.
pub open spec fn userhost_entry_view(n: Seq<char>) -> Seq<char> {
    n + "=+"@ + n + "@"@ + server_name_view()
}

pub open spec fn userhost_reply_view(nick: Seq<char>, nicknames: Seq<Seq<char>>) -> Seq<
    MessageView,
> {
    seq![
        server_reply_view(
            Response::RPL_USERHOST,
            seq![
                nick,
                join_view(nicknames.map_values(|n: Seq<char>| userhost_entry_view(n)), " "@),
            ],
        ),
    ]
}

pub fn rvs_build_userhost_reply(nick: &str, nicknames: &[String]) -> (r: Vec<Message>)
    ensures
        r.deep_view() == userhost_reply_view(nick@, strs_view(nicknames@)),
{
    let ghost entries = strs_view(nicknames@).map_values(|n: Seq<char>| userhost_entry_view(n));
    let mut joined = String::new();
    let mut i: usize = 0;
    while i < nicknames.len()
        invariant
            i <= nicknames@.len(),
            entries == strs_view(nicknames@).map_values(|n: Seq<char>| userhost_entry_view(n)),
            joined@ == join_view(entries.take(i as int), " "@),
        decreases nicknames.len() - i,
    {
        let n = nicknames[i].as_str();
        if i > 0 {
            joined.append(" ");
        }
        joined.append(n);
        joined.append("=+");
        joined.append(n);
        joined.append("@");
        joined.append(rvs_server_name());
        proof {
            assert(entries.take(i + 1).drop_last() =~= entries.take(i as int));
            assert(entries[i as int] == userhost_entry_view(n@));
            assert(entries.take(i + 1).last() == entries[i as int]);
            if i == 0 {
                assert(entries.take(1) =~= seq![entries[0]]);
            }
        }
        i += 1;
    }
    assert(entries.take(i as int) =~= entries);
    let args = args2(nick.to_owned(), joined);
    let r = vec![rvs_server_reply(Response::RPL_USERHOST, args)];
    assert(r.deep_view() =~= userhost_reply_view(nick@, strs_view(nicknames@)));
    r
}

pub open spec fn ison_reply_view(nick: Seq<char>) -> Seq<MessageView> {
    seq![server_reply_view(Response::RPL_ISON, seq![nick, Seq::<char>::empty()])]
}

pub fn rvs_build_ison_reply(nick: &str) -> (r: Vec<Message>)
    ensures
        r.deep_view() == ison_reply_view(nick@),
{
    let r = vec![rvs_server_reply(Response::RPL_ISON, args2(nick.to_owned(), String::new()))];
    assert(r.deep_view() =~= ison_reply_view(nick@));
    r
}

pub open spec fn channel_mode_view(nick: Seq<char>, channel: Seq<char>) -> Seq<MessageView> {
    seq![server_reply_view(Response::RPL_CHANNELMODEIS, seq![nick, channel, "+"@])]
}

pub fn rvs_build_channel_mode(nick: &str, channel: String) -> (r: Vec<Message>)
    ensures
        r.deep_view() == channel_mode_view(nick@, channel@),
{
    let ghost c = channel@;
    let r = vec![
        rvs_server_reply(
            Response::RPL_CHANNELMODEIS,
            args3(nick.to_owned(), channel, "+".to_owned()),
        ),
    ];
    assert(r.deep_view() =~= channel_mode_view(nick@, c));
    r
}

pub open spec fn no_topic_view(nick: Seq<char>, channel: Seq<char>) -> Seq<MessageView> {
    seq![server_reply_view(Response::RPL_NOTOPIC, seq![nick, channel, "No topic is set."@])]
}

pub fn rvs_build_no_topic(nick: &str, channel: String) -> (r: Vec<Message>)
    ensures
        r.deep_view() == no_topic_view(nick@, channel@),
{
    let ghost c = channel@;
    let r = vec![
        rvs_server_reply(
            Response::RPL_NOTOPIC,
            args3(nick.to_owned(), channel, "No topic is set.".to_owned()),
        ),
    ];
    assert(r.deep_view() =~= no_topic_view(nick@, c));
    r
}

pub open spec fn names_end_view(nick: Seq<char>, chan: Seq<char>) -> Seq<MessageView> {
    seq![server_reply_view(Response::RPL_ENDOFNAMES, seq![nick, chan, "End of /NAMES list."@])]
}

pub fn rvs_build_names_end(nick: &str, chan: &str) -> (r: Vec<Message>)
    ensures
        r.deep_view() == names_end_view(nick@, chan@),
{
    let args = args3(nick.to_owned(), chan.to_owned(), "End of /NAMES list.".to_owned());
    let r = vec![rvs_server_reply(Response::RPL_ENDOFNAMES, args)];
    assert(r.deep_view() =~= names_end_view(nick@, chan@));
    r
}

pub open spec fn list_end_view(nick: Seq<char>) -> Seq<MessageView> {
    seq![server_reply_view(Response::RPL_LISTEND, seq![nick, "End of /LIST"@])]
}

pub fn rvs_build_list_end(nick: &str) -> (r: Vec<Message>)
    ensures
        r.deep_view() == list_end_view(nick@),
{
    let r = vec![
        rvs_server_reply(Response::RPL_LISTEND, args2(nick.to_owned(), "End of /LIST".to_owned())),
    ];
    assert(r.deep_view() =~= list_end_view(nick@));
    r
}

pub open spec fn version_reply_view(nick: Seq<char>) -> Seq<MessageView> {
    seq![
        server_reply_view(
            Response::RPL_VERSION,
            seq![nick, server_version_view(), server_name_view(), "QQ IRC Gateway"@],
        ),
    ]
}

pub fn rvs_build_version_reply(nick: &str) -> (r: Vec<Message>)
    ensures
        r.deep_view() == version_reply_view(nick@),
{
    let args = args4(
        nick.to_owned(),
        rvs_server_version().to_owned(),
        rvs_server_name().to_owned(),
        "QQ IRC Gateway".to_owned(),
    );
    let r = vec![rvs_server_reply(Response::RPL_VERSION, args)];
    assert(r.deep_view() =~= version_reply_view(nick@));
    r
}

pub open spec fn time_reply_view(nick: Seq<char>, now: Seq<char>) -> Seq<MessageView> {
    seq![server_reply_view(Response::RPL_TIME, seq![nick, server_name_view(), now])]
}

pub fn rvs_build_time_reply(nick: &str, now_str: &str) -> (r: Vec<Message>)
    ensures
        r.deep_view() == time_reply_view(nick@, now_str@),
{
    let args = args3(nick.to_owned(), rvs_server_name().to_owned(), now_str.to_owned());
    let r = vec![rvs_server_reply(Response::RPL_TIME, args)];
    assert(r.deep_view() =~= time_reply_view(nick@, now_str@));
    r
}

pub open spec fn info_reply_view(nick: Seq<char>) -> Seq<MessageView> {
    seq![server_reply_view(Response::RPL_INFO, seq![nick, "QQ IRC Gateway by kovi"@])]
}

pub fn rvs_build_info_reply(nick: &str) -> (r: Vec<Message>)
    ensures
        r.deep_view() == info_reply_view(nick@),
{
    let args = args2(nick.to_owned(), "QQ IRC Gateway by kovi".to_owned());
    let r = vec![rvs_server_reply(Response::RPL_INFO, args)];
    assert(r.deep_view() =~= info_reply_view(nick@));
    r
}

pub open spec fn lusers_reply_view(nick: Seq<char>) -> Seq<MessageView> {
    seq![
        server_reply_view(Response::RPL_LUSERCLIENT, seq![nick, "There is 1 user on 1 server"@]),
        server_reply_view(Response::RPL_LUSERME, seq![nick, "I have 1 client and 0 servers"@]),
    ]
}

pub fn rvs_build_lusers_reply(nick: &str) -> (r: Vec<Message>)
    ensures
        r.deep_view() == lusers_reply_view(nick@),
{
    let m1 = rvs_server_reply(
        Response::RPL_LUSERCLIENT,
        args2(nick.to_owned(), "There is 1 user on 1 server".to_owned()),
    );
    let m2 = rvs_server_reply(
        Response::RPL_LUSERME,
        args2(nick.to_owned(), "I have 1 client and 0 servers".to_owned()),
    );
    let r = vec![m1, m2];
    assert(r.deep_view() =~= lusers_reply_view(nick@));
    r
}

pub open spec fn links_end_view(nick: Seq<char>) -> Seq<MessageView> {
    seq![server_reply_view(Response::RPL_ENDOFLINKS, seq![nick, "*"@, "End of /LINKS list."@])]
}

pub fn rvs_build_links_end(nick: &str) -> (r: Vec<Message>)
    ensures
        r.deep_view() == links_end_view(nick@),
{
    let args = args3(nick.to_owned(), "*".to_owned(), "End of /LINKS list.".to_owned());
    let r = vec![rvs_server_reply(Response::RPL_ENDOFLINKS, args)];
    assert(r.deep_view() =~= links_end_view(nick@));
    r
}

pub open spec fn admin_reply_view(nick: Seq<char>) -> Seq<MessageView> {
    seq![server_reply_view(Response::RPL_ADMINME, seq![nick, server_name_view()])]
}

pub fn rvs_build_admin_reply(nick: &str) -> (r: Vec<Message>)
    ensures
        r.deep_view() == admin_reply_view(nick@),
{
    let args = args2(nick.to_owned(), rvs_server_name().to_owned());
    let r = vec![rvs_server_reply(Response::RPL_ADMINME, args)];
    assert(r.deep_view() =~= admin_reply_view(nick@));
    r
}

/// Without a message AWAY clears the away status (305), with one it sets it (306).
pub open spec fn away_replies_view(nick: Seq<char>, has_msg: bool) -> Seq<MessageView> {
    if has_msg {
        seq![
            server_reply_view(
                Response::RPL_NOWAWAY,
                seq![nick, "You have been marked as being away"@],
            ),
        ]
    } else {
        seq![
            server_reply_view(
                Response::RPL_UNAWAY,
                seq![nick, "You are no longer marked as being away"@],
            ),
        ]
    }
}

pub fn rvs_build_away_replies(nick: &str, msg: Option<&String>) -> (r: Vec<Message>)
    ensures
        r.deep_view() == away_replies_view(nick@, msg is Some),
{
    let r = match msg {
        None => vec![
            rvs_server_reply(
                Response::RPL_UNAWAY,
                args2(nick.to_owned(), "You are no longer marked as being away".to_owned()),
            ),
        ],
        Some(_) => vec![
            rvs_server_reply(
                Response::RPL_NOWAWAY,
                args2(nick.to_owned(), "You have been marked as being away".to_owned()),
            ),
        ],
    };
    assert(r.deep_view() =~= away_replies_view(nick@, msg is Some));
    r
}

/// One PART for each channel named in the comma-separated `chanlist`.
pub open spec fn part_replies_view(
    nick: Seq<char>,
    user: Seq<char>,
    chanlist: Seq<char>,
    comment: Option<Seq<char>>,
) -> Seq<MessageView> {
    list_items(chanlist).map_values(|c: Seq<char>| part_view(nick, user, c, comment))
}

pub fn rvs_handle_part(nick: &str, user: &str, chanlist: &str, comment: &Option<String>) -> (r: Vec<
    Message,
>)
    ensures
        r.deep_view() == part_replies_view(nick@, user@, chanlist@, opt_view(*comment)),
{
    let channels = list_items_of(chanlist);
    let ghost f = |c: Seq<char>| part_view(nick@, user@, c, opt_view(*comment));
    let mut reply: Vec<Message> = Vec::new();
    let mut i: usize = 0;
    while i < channels.len()
        invariant
            i <= channels.len(),
            strs_view(channels@) == list_items(chanlist@),
            f == (|c: Seq<char>| part_view(nick@, user@, c, opt_view(*comment))),
            reply.deep_view() == strs_view(channels@).take(i as int).map_values(f),
        decreases channels.len() - i,
    {
        let m = rvs_build_part_broadcast(
            nick,
            user,
            channels[i].as_str(),
            copy_opt_string(comment),
        );
        reply.push(m);
        proof {
            lemma_map_values_step(strs_view(channels@), i as int, f);
            assert(strs_view(channels@)[i as int] == channels@[i as int]@);
        }
        assert(reply.deep_view() =~= strs_view(channels@).take(i + 1).map_values(f));
        i += 1;
    }
    assert(strs_view(channels@).take(i as int) =~= strs_view(channels@));
    reply
}

// ---------------------------------------------------------------------------
// Numbers in names
// ---------------------------------------------------------------------------
/// The ASCII digits of `value`, in order.
pub fn rvs_extract_digits(value: &str) -> (r: String)
    ensures
        r@ == digits_of(value@),
{
    keep_digits(&str_chars(value))
}

pub proof fn lemma_digits_of_all_digits(s: Seq<char>)
    ensures
        all_digits(digits_of(s)),
{
    broadcast use vstd::seq_lib::group_filter_ensures;

    assert forall|i: int| 0 <= i < digits_of(s).len() implies is_ascii_digit(
        #[trigger] digits_of(s)[i],
    ) by {
        s.lemma_filter_pred(|c: char| is_ascii_digit(c), i);
    }
}

/// An integer type that a string of decimal digits can be read into.
pub trait DecimalNumber: Sized {
    /// The largest value of the type.
    spec fn max_value() -> nat;

    /// The value as an integer.
    spec fn as_int(&self) -> int;

    /// The value of a non-empty string of digits that does not exceed the
    /// largest value of the type; `None` for any other string of digits.
    fn from_digits(digits: &Vec<char>) -> (r: Option<Self>)
        requires
            all_digits(digits@),
        ensures
            match r {
                Some(n) => digits@.len() > 0 && digits_value(digits@) <= Self::max_value()
                    && n.as_int() == digits_value(digits@),
                None => digits@.len() == 0 || digits_value(digits@) > Self::max_value(),
            },
    ;
}

impl DecimalNumber for u8 {
    open spec fn max_value() -> nat {
        u8::MAX as nat
    }

    open spec fn as_int(&self) -> int {
        *self as int
    }

    fn from_digits(digits: &Vec<char>) -> (r: Option<u8>) {
        match parse_digits(digits, u8::MAX as u64) {
            Some(v) => Some(v as u8),
            None => None,
        }
    }
}

impl DecimalNumber for u16 {
    open spec fn max_value() -> nat {
        u16::MAX as nat
    }

    open spec fn as_int(&self) -> int {
        *self as int
    }

    fn from_digits(digits: &Vec<char>) -> (r: Option<u16>) {
        match parse_digits(digits, u16::MAX as u64) {
            Some(v) => Some(v as u16),
            None => None,
        }
    }
}

impl DecimalNumber for u32 {
    open spec fn max_value() -> nat {
        u32::MAX as nat
    }

    open spec fn as_int(&self) -> int {
        *self as int
    }

    fn from_digits(digits: &Vec<char>) -> (r: Option<u32>) {
        match parse_digits(digits, u32::MAX as u64) {
            Some(v) => Some(v as u32),
            None => None,
        }
    }
}

impl DecimalNumber for u64 {
    open spec fn max_value() -> nat {
        u64::MAX as nat
    }

    open spec fn as_int(&self) -> int {
        *self as int
    }

    fn from_digits(digits: &Vec<char>) -> (r: Option<u64>) {
        parse_digits(digits, u64::MAX)
    }
}

impl DecimalNumber for i8 {
    open spec fn max_value() -> nat {
        i8::MAX as nat
    }

    open spec fn as_int(&self) -> int {
        *self as int
    }

    fn from_digits(digits: &Vec<char>) -> (r: Option<i8>) {
        match parse_digits(digits, i8::MAX as u64) {
            Some(v) => Some(v as i8),
            None => None,
        }
    }
}

impl DecimalNumber for i16 {
    open spec fn max_value() -> nat {
        i16::MAX as nat
    }

    open spec fn as_int(&self) -> int {
        *self as int
    }

    fn from_digits(digits: &Vec<char>) -> (r: Option<i16>) {
        match parse_digits(digits, i16::MAX as u64) {
            Some(v) => Some(v as i16),
            None => None,
        }
    }
}

impl DecimalNumber for i32 {
    open spec fn max_value() -> nat {
        i32::MAX as nat
    }

    open spec fn as_int(&self) -> int {
        *self as int
    }

    fn from_digits(digits: &Vec<char>) -> (r: Option<i32>) {
        match parse_digits(digits, i32::MAX as u64) {
            Some(v) => Some(v as i32),
            None => None,
        }
    }
}

impl DecimalNumber for i64 {
    open spec fn max_value() -> nat {
        i64::MAX as nat
    }

    open spec fn as_int(&self) -> int {
        *self as int
    }

    fn from_digits(digits: &Vec<char>) -> (r: Option<i64>) {
        match parse_digits(digits, i64::MAX as u64) {
            Some(v) => Some(v as i64),
            None => None,
        }
    }
}

impl DecimalNumber for u128 {
    open spec fn max_value() -> nat {
        u128::MAX as nat
    }

    open spec fn as_int(&self) -> int {
        *self as int
    }

    fn from_digits(digits: &Vec<char>) -> (r: Option<u128>) {
        match parse_digits_wide(digits, u128::MAX) {
            Some(v) => Some(v),
            None => None,
        }
    }
}

impl DecimalNumber for usize {
    open spec fn max_value() -> nat {
        usize::MAX as nat
    }

    open spec fn as_int(&self) -> int {
        *self as int
    }

    fn from_digits(digits: &Vec<char>) -> (r: Option<usize>) {
        match parse_digits_wide(digits, usize::MAX as u128) {
            Some(v) => Some(v as usize),
            None => None,
        }
    }
}

impl DecimalNumber for i128 {
    open spec fn max_value() -> nat {
        i128::MAX as nat
    }

    open spec fn as_int(&self) -> int {
        *self as int
    }

    fn from_digits(digits: &Vec<char>) -> (r: Option<i128>) {
        match parse_digits_wide(digits, i128::MAX as u128) {
            Some(v) => Some(v as i128),
            None => None,
        }
    }
}

impl DecimalNumber for isize {
    open spec fn max_value() -> nat {
        isize::MAX as nat
    }

    open spec fn as_int(&self) -> int {
        *self as int
    }

    fn from_digits(digits: &Vec<char>) -> (r: Option<isize>) {
        match parse_digits_wide(digits, isize::MAX as u128) {
            Some(v) => Some(v as isize),
            None => None,
        }
    }
}

/// The number that the digits of `value` spell, read as an `N`: `None` when
/// `value` holds no digit or the number does not fit in `N`.
pub fn rvs_parse_prefix_number_E<N: DecimalNumber>(value: &str) -> (r: Option<N>)
    ensures
        match r {
            Some(n) => digits_of(value@).len() > 0 && digits_value(digits_of(value@))
                <= N::max_value() && n.as_int() == digits_value(digits_of(value@)),
            None => digits_of(value@).len() == 0 || digits_value(digits_of(value@))
                > N::max_value(),
        },
{
    let digits = rvs_extract_digits(value);
    if digits.as_str().is_empty() {
        return None;
    }
    proof {
        lemma_digits_of_all_digits(value@);
    }
    N::from_digits(&str_chars(digits.as_str()))
}

// ---------------------------------------------------------------------------
// PRIVMSG targets
// ---------------------------------------------------------------------------
/// Where a PRIVMSG goes: a QQ group, a QQ user, or nowhere.
#[derive(Debug, Clone, PartialEq, Eq)]
pub enum PrivmsgTargetOf<S> {
    Group(i64),
    Private(i64),
    Invalid(S),
}

pub type PrivmsgTarget = PrivmsgTargetOf<String>;

pub type PrivmsgTargetView = PrivmsgTargetOf<Seq<char>>;

impl DeepView for PrivmsgTargetOf<String> {
    type V = PrivmsgTargetView;

    open spec fn deep_view(&self) -> PrivmsgTargetView {
        match self {
            PrivmsgTargetOf::Group(id) => PrivmsgTargetOf::Group(*id),
            PrivmsgTargetOf::Private(id) => PrivmsgTargetOf::Private(*id),
            PrivmsgTargetOf::Invalid(t) => PrivmsgTargetOf::Invalid(t@),
        }
    }
}

/// A target that starts with `#` names a group, any other a user; the number
/// is made of the digits of the rest, and must be a non-empty `i64`.
pub open spec fn privmsg_target_view(target: Seq<char>) -> PrivmsgTargetView {
    let prefixed = target.len() > 0 && target[0] == '#';
    let raw = if prefixed {
        target.drop_first()
    } else {
        target
    };
    let digits = digits_of(raw);
    if digits.len() > 0 && digits_value(digits) <= i64::MAX {
        if prefixed {
            PrivmsgTargetOf::Group(digits_value(digits) as i64)
        } else {
            PrivmsgTargetOf::Private(digits_value(digits) as i64)
        }
    } else {
        PrivmsgTargetOf::Invalid(target)
    }
}

pub fn rvs_resolve_privmsg_target(target: &str) -> (r: PrivmsgTarget)
    ensures
        r.deep_view() == privmsg_target_view(target@),
{
    let chars = str_chars(target);
    let prefixed = chars.len() > 0 && chars[0] == '#';
    let raw = if prefixed {
        string_from_range(&chars, 1, chars.len())
    } else {
        target.to_owned()
    };
    proof {
        if prefixed {
            assert(chars@.subrange(1, chars@.len() as int) =~= target@.drop_first());
        }
    }
    let digits = rvs_extract_digits(raw.as_str());
    proof {
        lemma_digits_of_all_digits(raw@);
    }
    match <i64 as DecimalNumber>::from_digits(&str_chars(digits.as_str())) {
        Some(id) => {
            if prefixed {
                PrivmsgTargetOf::Group(id)
            } else {
                PrivmsgTargetOf::Private(id)
            }
        },
        None => PrivmsgTargetOf::Invalid(target.to_owned()),
    }
}

// ---------------------------------------------------------------------------
// Registration
// ---------------------------------------------------------------------------
/// Where a connection stands in registration: waiting for NICK and USER, or done.
#[derive(Debug, Clone, Copy, PartialEq, Eq, Structural)]
pub enum RegistrationState {
    Pending { got_nick: bool, got_user: bool },
    Registered,
}

impl RegistrationState {
    pub fn rvs_is_registered(&self) -> (b: bool)
        ensures
            b == (*self is Registered),
    {
        match self {
            RegistrationState::Registered => true,
            _ => false,
        }
    }
}

/// A nickname cleaned of whitespace and ASCII punctuation.
pub fn rvs_sanitize_nick(raw: &str) -> (r: String)
    ensures
        r@ == nick_chars_of(raw@),
{
    keep_nick_chars(&str_chars(raw))
}

/// `std::time::SystemTime`, a reading of the system clock.
#[verifier::external_type_specification]
#[verifier::external_body]
pub struct ExSystemTime(std::time::SystemTime);

/// `SystemTime::now`: the current reading of the system clock. Nothing is
/// stated of it.
#[verifier::external_body]
fn system_now() -> std::time::SystemTime {
    std::time::SystemTime::now()
}

/// `SystemTime::duration_since(UNIX_EPOCH)`: the time elapsed from the epoch
/// to the reading; `None` when the reading lies before the epoch. Nothing is
/// stated of the value: it is the machine's clock.
#[verifier::external_body]
fn elapsed_since_epoch(t: &std::time::SystemTime) -> Option<std::time::Duration> {
    t.duration_since(std::time::UNIX_EPOCH).ok()
}

/// `Duration::as_secs`: the whole seconds of a duration. Nothing is stated of
/// the value, which only the opaque duration holds.
#[verifier::external_body]
fn whole_secs(d: &std::time::Duration) -> u64 {
    d.as_secs()
}

/// The seconds of a clock reading, or 0 when there is none (a clock that
/// stands before the epoch).
pub fn secs_or_zero(reading: Option<u64>) -> (r: u64)
    ensures
        r == match reading {
            Some(s) => s,
            None => 0,
        },
{
    match reading {
        Some(secs) => secs,
        None => 0,
    }
}

/// The current time in seconds since the Unix epoch; 0 when the clock stands before it.
pub fn rvs_current_utc_secs_P() -> u64 {
    let reading = match elapsed_since_epoch(&system_now()) {
        Some(d) => Some(whole_secs(&d)),
        None => None,
    };
    secs_or_zero(reading)
}

// ---------------------------------------------------------------------------
// Planning the answer to a client command
// ---------------------------------------------------------------------------
/// What handling one client command asks of the connection.
#[derive(Debug)]
pub enum IrcCommandEffectOf<S, M> {
    /// Send these messages to the client.
    Reply(M),
    SetNick(S),
    SetUser(S),
    SetRegState(RegistrationState),
    SetCapNegotiating(bool),
    /// Tell the rest of the connection the client's current nickname.
    BroadcastNick(S),
    /// Join the comma-separated channels (which needs the QQ side).
    AsyncJoin(S),
    /// Forward a message to QQ.
    SendPrivmsg { target: S, text: S },
    LogDebug(S),
}

pub type IrcCommandEffect = IrcCommandEffectOf<String, Vec<Message>>;

pub type IrcCommandEffectView = IrcCommandEffectOf<Seq<char>, Seq<MessageView>>;

impl DeepView for IrcCommandEffectOf<String, Vec<Message>> {
    type V = IrcCommandEffectView;

    open spec fn deep_view(&self) -> IrcCommandEffectView {
        match self {
            IrcCommandEffectOf::Reply(m) => IrcCommandEffectOf::Reply(m.deep_view()),
            IrcCommandEffectOf::SetNick(n) => IrcCommandEffectOf::SetNick(n@),
            IrcCommandEffectOf::SetUser(u) => IrcCommandEffectOf::SetUser(u@),
            IrcCommandEffectOf::SetRegState(r) => IrcCommandEffectOf::SetRegState(*r),
            IrcCommandEffectOf::SetCapNegotiating(b) => IrcCommandEffectOf::SetCapNegotiating(*b),
            IrcCommandEffectOf::BroadcastNick(n) => IrcCommandEffectOf::BroadcastNick(n@),
            IrcCommandEffectOf::AsyncJoin(c) => IrcCommandEffectOf::AsyncJoin(c@),
            IrcCommandEffectOf::SendPrivmsg { target, text } => IrcCommandEffectOf::SendPrivmsg {
                target: target@,
                text: text@,
            },
            IrcCommandEffectOf::LogDebug(m) => IrcCommandEffectOf::LogDebug(m@),
        }
    }
}

/// The effects that end registration: record it, announce the nickname and
/// greet the client.
pub open spec fn registration_effects_view(nick: Seq<char>, now: Seq<char>) -> Seq<
    IrcCommandEffectView,
> {
    seq![
        IrcCommandEffectOf::SetRegState(RegistrationState::Registered),
        IrcCommandEffectOf::BroadcastNick(nick),
        IrcCommandEffectOf::Reply(welcome_burst_view(nick, now)),
    ]
}

/// The commands that are answered before registration as well as after it.
pub open spec fn is_connection_command(c: CommandView) -> bool {
    c is CAP || c is NICK || c is USER || c is PASS || c is PING || c is QUIT
}

/// What a command asks of the connection once the client is registered,
/// for the commands other than the connection commands.
pub open spec fn registered_plan_view(
    c: CommandView,
    nick: Seq<char>,
    user: Seq<char>,
    now: Seq<char>,
    text: Seq<char>,
) -> Seq<IrcCommandEffectView> {
    match c {
        CommandOf::JOIN(chanlist, _, _) => seq![IrcCommandEffectOf::AsyncJoin(chanlist)],
        CommandOf::PART(chanlist, comment) => seq![
            IrcCommandEffectOf::Reply(part_replies_view(nick, user, chanlist, comment)),
        ],
        CommandOf::PRIVMSG(target, text) => seq![IrcCommandEffectOf::SendPrivmsg { target, text }],
        CommandOf::NOTICE(_, _) => seq![],
        CommandOf::WHO(mask, _) => seq![
            IrcCommandEffectOf::Reply(
                who_end_view(
                    nick,
                    match mask {
                        Some(m) => m,
                        None => "*"@,
                    },
                ),
            ),
        ],
        CommandOf::WHOIS(_, mask) => seq![
            IrcCommandEffectOf::Reply(whois_reply_view(nick, user, mask)),
        ],
        CommandOf::WHOWAS(nicklist, _, _) => seq![
            IrcCommandEffectOf::Reply(whowas_end_view(nick, nicklist)),
        ],
        CommandOf::USERHOST(nicknames) => seq![
            IrcCommandEffectOf::Reply(userhost_reply_view(nick, nicknames)),
        ],
        CommandOf::ISON(_) => seq![IrcCommandEffectOf::Reply(ison_reply_view(nick))],
        CommandOf::ChannelMODE(channel, _) => seq![
            IrcCommandEffectOf::Reply(channel_mode_view(nick, channel)),
        ],
        CommandOf::UserMODE(_, _) => seq![],
        CommandOf::TOPIC(channel, new_topic) => match new_topic {
            None => seq![IrcCommandEffectOf::Reply(no_topic_view(nick, channel))],
            Some(_) => seq![],
        },
        CommandOf::NAMES(chanlist, _) => seq![
            IrcCommandEffectOf::Reply(
                names_end_view(
                    nick,
                    match chanlist {
                        Some(c) => c,
                        None => ""@,
                    },
                ),
            ),
        ],
        CommandOf::LIST(_, _) => seq![IrcCommandEffectOf::Reply(list_end_view(nick))],
        CommandOf::MOTD(_) => seq![IrcCommandEffectOf::Reply(motd_burst_view(nick))],
        CommandOf::VERSION(_) => seq![IrcCommandEffectOf::Reply(version_reply_view(nick))],
        CommandOf::TIME(_) => seq![IrcCommandEffectOf::Reply(time_reply_view(nick, now))],
        CommandOf::INFO(_) => seq![IrcCommandEffectOf::Reply(info_reply_view(nick))],
        CommandOf::LUSERS(_, _) => seq![IrcCommandEffectOf::Reply(lusers_reply_view(nick))],
        CommandOf::STATS(_, _) => seq![],
        CommandOf::LINKS(_, _) => seq![IrcCommandEffectOf::Reply(links_end_view(nick))],
        CommandOf::ADMIN(_) => seq![IrcCommandEffectOf::Reply(admin_reply_view(nick))],
        CommandOf::AWAY(msg) => seq![
            IrcCommandEffectOf::Reply(away_replies_view(nick, msg is Some)),
        ],
        CommandOf::INVITE(_, _) => seq![],
        CommandOf::KICK(_, _, _) => seq![],
        _ => seq![IrcCommandEffectOf::LogDebug("unhandled IRC command: "@ + text)],
    }
}

/// What a client command asks of the connection, given the client's current
/// nickname and username, its registration state, whether capability
/// negotiation is under way, the current time as text, and the command as the
/// log shows it (`text`, the `{:?}` text of the command as the IRC codec
/// decoded it).
pub open spec fn plan_view(
    c: CommandView,
    nick: Seq<char>,
    user: Seq<char>,
    reg: RegistrationState,
    cap_negotiating: bool,
    now: Seq<char>,
    text: Seq<char>,
) -> Seq<IrcCommandEffectView> {
    match c {
        CommandOf::CAP(_, sub, _, param2) => match sub {
            CapSubCommand::LS => seq![
                IrcCommandEffectOf::SetCapNegotiating(true),
                IrcCommandEffectOf::Reply(cap_ls_reply_view()),
            ],
            CapSubCommand::REQ => seq![IrcCommandEffectOf::Reply(cap_nak_reply_view(param2))],
            CapSubCommand::END => {
                let done = seq![IrcCommandEffectOf::SetCapNegotiating(false)];
                if reg == (RegistrationState::Pending { got_nick: true, got_user: true }) {
                    done + registration_effects_view(nick, now)
                } else {
                    done
                }
            },
            _ => seq![],
        },
        CommandOf::NICK(new_nick) => seq![IrcCommandEffectOf::SetNick(new_nick)] + match reg {
            RegistrationState::Pending { got_nick: _, got_user } => if got_user
                && !cap_negotiating {
                registration_effects_view(new_nick, now)
            } else {
                seq![
                    IrcCommandEffectOf::SetRegState(
                        RegistrationState::Pending { got_nick: true, got_user },
                    ),
                ]
            },
            RegistrationState::Registered => seq![
                IrcCommandEffectOf::BroadcastNick(new_nick),
                IrcCommandEffectOf::Reply(nick_change_view(new_nick, user)),
            ],
        },
        CommandOf::USER(new_user, _, _) => seq![IrcCommandEffectOf::SetUser(new_user)] + match reg {
            RegistrationState::Pending { got_nick, got_user: _ } => if got_nick
                && !cap_negotiating {
                registration_effects_view(nick, now)
            } else {
                seq![
                    IrcCommandEffectOf::SetRegState(
                        RegistrationState::Pending { got_nick, got_user: true },
                    ),
                ]
            },
            RegistrationState::Registered => seq![],
        },
        CommandOf::PASS(_) => seq![],
        CommandOf::PING(server1, server2) => seq![
            IrcCommandEffectOf::Reply(pong_view(server1, server2)),
        ],
        CommandOf::QUIT(_) => seq![],
        _ => if !(reg is Registered) {
            seq![
                IrcCommandEffectOf::LogDebug(
                    "ignoring command before registration: "@ + text,
                ),
            ]
        } else {
            registered_plan_view(c, nick, user, now, text)
        },
    }
}

fn registration_effects(nick: &str, now_str: &str) -> (r: Vec<IrcCommandEffect>)
    ensures
        r.deep_view() == registration_effects_view(nick@, now_str@),
{
    let r = vec![
        IrcCommandEffectOf::SetRegState(RegistrationState::Registered),
        IrcCommandEffectOf::BroadcastNick(nick.to_owned()),
        IrcCommandEffectOf::Reply(rvs_build_welcome_burst(nick, now_str)),
    ];
    assert(r.deep_view() =~= registration_effects_view(nick@, now_str@));
    r
}

fn one_effect(e: IrcCommandEffect) -> (r: Vec<IrcCommandEffect>)
    ensures
        r.deep_view() == seq![e.deep_view()],
{
    let r = vec![e];
    assert(r.deep_view() =~= seq![e.deep_view()]);
    r
}

fn reply_effect(msgs: Vec<Message>) -> (r: Vec<IrcCommandEffect>)
    ensures
        r.deep_view() == seq![IrcCommandEffectView::Reply(msgs.deep_view())],
{
    one_effect(IrcCommandEffectOf::Reply(msgs))
}

fn no_effects() -> (r: Vec<IrcCommandEffect>)
    ensures
        r.deep_view() == Seq::<IrcCommandEffectView>::empty(),
{
    let r: Vec<IrcCommandEffect> = Vec::new();
    assert(r.deep_view() =~= Seq::<IrcCommandEffectView>::empty());
    r
}

/// `first` followed by `rest`.
fn append_effects(first: Vec<IrcCommandEffect>, rest: Vec<IrcCommandEffect>) -> (r: Vec<
    IrcCommandEffect,
>)
    ensures
        r.deep_view() == first.deep_view() + rest.deep_view(),
{
    let mut r = first;
    let mut rest = rest;
    let ghost a = r.deep_view();
    let ghost b = rest.deep_view();
    r.append(&mut rest);
    assert(r.deep_view() =~= a + b);
    r
}

fn plan_registered_command(
    command: &Command,
    nick: &str,
    user: &str,
    now_str: &str,
    command_text: &str,
) -> (r: Vec<IrcCommandEffect>)
    ensures
        r.deep_view() == registered_plan_view(
            command.deep_view(),
            nick@,
            user@,
            now_str@,
            command_text@,
        ),
{
    match command {
        CommandOf::JOIN(chanlist, _chankeys, _realname) => one_effect(
            IrcCommandEffectOf::AsyncJoin(copy_string(chanlist)),
        ),
        CommandOf::PART(chanlist, comment) => reply_effect(
            rvs_handle_part(nick, user, chanlist.as_str(), comment),
        ),
        CommandOf::PRIVMSG(target, text) => one_effect(
            IrcCommandEffectOf::SendPrivmsg {
                target: copy_string(target),
                text: copy_string(text),
            },
        ),
        CommandOf::NOTICE(_target, _text) => no_effects(),
        CommandOf::WHO(mask, _is_op) => {
            let m = match mask {
                Some(m) => m.as_str(),
                None => "*",
            };
            reply_effect(rvs_build_who_end(nick, m))
        },
        CommandOf::WHOIS(_target, mask) => reply_effect(
            rvs_build_whois_reply(nick, user, mask.as_str()),
        ),
        CommandOf::WHOWAS(nicklist, _count, _target) => reply_effect(
            rvs_build_whowas_end(nick, nicklist.as_str()),
        ),
        CommandOf::USERHOST(nicknames) => reply_effect(
            rvs_build_userhost_reply(nick, nicknames.as_slice()),
        ),
        CommandOf::ISON(_nicklist) => reply_effect(rvs_build_ison_reply(nick)),
        CommandOf::ChannelMODE(channel, _modes) => reply_effect(
            rvs_build_channel_mode(nick, copy_string(channel)),
        ),
        CommandOf::UserMODE(_nickname, _modes) => no_effects(),
        CommandOf::TOPIC(channel, new_topic) => match new_topic {
            None => reply_effect(rvs_build_no_topic(nick, copy_string(channel))),
            Some(_) => no_effects(),
        },
        CommandOf::NAMES(chanlist, _target) => {
            let chan = match chanlist {
                Some(c) => c.as_str(),
                None => "",
            };
            reply_effect(rvs_build_names_end(nick, chan))
        },
        CommandOf::LIST(_chanlist, _target) => reply_effect(rvs_build_list_end(nick)),
        CommandOf::MOTD(_target) => reply_effect(rvs_build_motd_burst(nick)),
        CommandOf::VERSION(_target) => reply_effect(rvs_build_version_reply(nick)),
        CommandOf::TIME(_target) => reply_effect(rvs_build_time_reply(nick, now_str)),
        CommandOf::INFO(_target) => reply_effect(rvs_build_info_reply(nick)),
        CommandOf::LUSERS(_mask, _target) => reply_effect(rvs_build_lusers_reply(nick)),
        CommandOf::STATS(_query, _target) => no_effects(),
        CommandOf::LINKS(_remote, _mask) => reply_effect(rvs_build_links_end(nick)),
        CommandOf::ADMIN(_target) => reply_effect(rvs_build_admin_reply(nick)),
        CommandOf::AWAY(msg) => reply_effect(rvs_build_away_replies(nick, msg.as_ref())),
        CommandOf::INVITE(_nickname, _channel) => no_effects(),
        CommandOf::KICK(_chanlist, _userlist, _comment) => no_effects(),
        _ => one_effect(
            IrcCommandEffectOf::LogDebug(
                concat2("unhandled IRC command: ", command_text),
            ),
        ),
    }
}

/// The effects that answering `command` asks of the connection; a command
/// that is ignored or not handled is logged as `command_text`, the `{:?}` text
/// of the command as the IRC codec decoded it.
pub fn rvs_plan_irc_command(
    command: &Command,
    nick: &str,
    user: &str,
    reg_state: &RegistrationState,
    cap_negotiating: bool,
    now_str: &str,
    command_text: &str,
) -> (r: Vec<IrcCommandEffect>)
    ensures
        r.deep_view() == plan_view(
            command.deep_view(),
            nick@,
            user@,
            *reg_state,
            cap_negotiating,
            now_str@,
            command_text@,
        ),
{
    match command {
        CommandOf::CAP(_target, sub, _param1, param2) => match sub {
            CapSubCommand::LS => {
                let r = vec![
                    IrcCommandEffectOf::SetCapNegotiating(true),
                    IrcCommandEffectOf::Reply(rvs_build_cap_ls_reply()),
                ];
                assert(r.deep_view() =~= plan_view(
                    command.deep_view(),
                    nick@,
                    user@,
                    *reg_state,
                    cap_negotiating,
                    now_str@,
                    command_text@,
                ));
                r
            },
            CapSubCommand::REQ => reply_effect(rvs_build_cap_nak_reply(copy_opt_string(param2))),
            CapSubCommand::END => {
                let done = one_effect(IrcCommandEffectOf::SetCapNegotiating(false));
                match reg_state {
                    RegistrationState::Pending { got_nick: true, got_user: true } => append_effects(
                        done,
                        registration_effects(nick, now_str),
                    ),
                    _ => {
                        assert(*reg_state != (RegistrationState::Pending {
                            got_nick: true,
                            got_user: true,
                        }));
                        done
                    },
                }
            },
            _ => no_effects(),
        },
        CommandOf::NICK(new_nick) => {
            let first = one_effect(IrcCommandEffectOf::SetNick(copy_string(new_nick)));
            let rest = match reg_state {
                RegistrationState::Pending { got_nick: _, got_user } => {
                    if *got_user && !cap_negotiating {
                        registration_effects(new_nick.as_str(), now_str)
                    } else {
                        one_effect(
                            IrcCommandEffectOf::SetRegState(
                                RegistrationState::Pending { got_nick: true, got_user: *got_user },
                            ),
                        )
                    }
                },
                RegistrationState::Registered => {
                    let r = vec![
                        IrcCommandEffectOf::BroadcastNick(copy_string(new_nick)),
                        IrcCommandEffectOf::Reply(
                            rvs_build_nick_change_broadcast(new_nick.as_str(), user),
                        ),
                    ];
                    assert(r.deep_view() =~= seq![
                        IrcCommandEffectOf::BroadcastNick(new_nick@),
                        IrcCommandEffectOf::Reply(nick_change_view(new_nick@, user@)),
                    ]);
                    r
                },
            };
            append_effects(first, rest)
        },
        CommandOf::USER(new_user, _mode, _realname) => {
            let first = one_effect(IrcCommandEffectOf::SetUser(copy_string(new_user)));
            let rest = match reg_state {
                RegistrationState::Pending { got_nick, got_user: _ } => {
                    if *got_nick && !cap_negotiating {
                        registration_effects(nick, now_str)
                    } else {
                        one_effect(
                            IrcCommandEffectOf::SetRegState(
                                RegistrationState::Pending { got_nick: *got_nick, got_user: true },
                            ),
                        )
                    }
                },
                RegistrationState::Registered => no_effects(),
            };
            append_effects(first, rest)
        },
        CommandOf::PASS(_) => no_effects(),
        CommandOf::PING(server1, server2) => reply_effect(
            rvs_build_pong(copy_string(server1), copy_opt_string(server2)),
        ),
        CommandOf::QUIT(_) => no_effects(),
        _ => {
            if !reg_state.rvs_is_registered() {
                one_effect(
                    IrcCommandEffectOf::LogDebug(
                        concat2(
                            "ignoring command before registration: ",
                            command_text,
                        ),
                    ),
                )
            } else {
                plan_registered_command(command, nick, user, now_str, command_text)
            }
        },
    }
}

} // verus!
