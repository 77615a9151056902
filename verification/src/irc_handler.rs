//! The decisions of an IRC connection: which channels a JOIN names, what a
//! connection's state becomes under each effect, and how QQ messages are
//! forwarded to the client.
use vstd::prelude::*;
use vstd::string::*;

use crate::calendar::{rvs_format_utc_timestamp, utc_timestamp_view};
use crate::irc_message::{CommandOf, Message, MessageOf, MessageView, PrefixOf};
use crate::irc_proto::{
    IrcCommandEffect, IrcCommandEffectOf, IrcCommandEffectView, PrivmsgTarget, PrivmsgTargetView,
    RegistrationState, lemma_digits_of_all_digits, no_such_channel_view, privmsg_target_view,
    rvs_build_no_such_channel, rvs_current_utc_secs_P, rvs_extract_digits,
    rvs_resolve_privmsg_target, rvs_server_name, server_name_view,
};
use crate::onebot::{RenderedOnebotMessage, RenderedOnebotMessageOf};
use crate::text::{
    concat2, copy_string, digits_of, digits_value, i64_to_decimal, lemma_filter_step,
    lemma_map_values_push, lemma_map_values_step, list_items, list_items_of, parse_digits,
    signed_decimal, str_chars, string_from_range, strs_view,
};

verus! {

// ---------------------------------------------------------------------------
// JOIN
// ---------------------------------------------------------------------------
/// A channel named in a JOIN, with the QQ group it stands for, if any.
#[derive(Debug, Clone)]
pub struct ParsedChannel {
    pub raw: String,
    pub group_id: Option<i64>,
}

/// The channel name with the group id that its digits spell (after a leading
/// `#`), when there are digits and they fit in an `i64`.
pub open spec fn parsed_channel_view(raw: Seq<char>) -> (Seq<char>, Option<i64>) {
    let stripped = if raw.len() > 0 && raw[0] == '#' {
        raw.drop_first()
    } else {
        raw
    };
    let digits = digits_of(stripped);
    (
        raw,
        if digits.len() > 0 && digits_value(digits) <= i64::MAX {
            Some(digits_value(digits) as i64)
        } else {
            None
        },
    )
}

/// A parsed channel by its name and group id.
pub open spec fn channel_view(c: ParsedChannel) -> (Seq<char>, Option<i64>) {
    (c.raw@, c.group_id)
}

/// The channels of a JOIN's comma-separated channel list.
pub open spec fn join_channels_view(chanlist: Seq<char>) -> Seq<(Seq<char>, Option<i64>)> {
    list_items(chanlist).map_values(|c: Seq<char>| parsed_channel_view(c))
}

fn parse_channel(raw: String) -> (c: ParsedChannel)
    ensures
        channel_view(c) == parsed_channel_view(raw@),
{
    let chars = str_chars(raw.as_str());
    let stripped = if chars.len() > 0 && chars[0] == '#' {
        string_from_range(&chars, 1, chars.len())
    } else {
        copy_string(&raw)
    };
    proof {
        if chars@.len() > 0 && chars@[0] == '#' {
            assert(chars@.subrange(1, chars@.len() as int) =~= raw@.drop_first());
        }
    }
    let digits = rvs_extract_digits(stripped.as_str());
    proof {
        lemma_digits_of_all_digits(stripped@);
    }
    let group_id = if digits.as_str().is_empty() {
        None
    } else {
        match parse_digits(&str_chars(digits.as_str()), i64::MAX as u64) {
            Some(v) => Some(v as i64),
            None => None,
        }
    };
    ParsedChannel { raw, group_id }
}

pub fn rvs_parse_join_channels(chanlist: &str) -> (r: Vec<ParsedChannel>)
    ensures
        r@.map_values(|c: ParsedChannel| channel_view(c)) == join_channels_view(chanlist@),
{
    let items = list_items_of(chanlist);
    let ghost f = |c: Seq<char>| parsed_channel_view(c);
    let mut out: Vec<ParsedChannel> = Vec::new();
    let mut i: usize = 0;
    while i < items.len()
        invariant
            i <= items.len(),
            strs_view(items@) == list_items(chanlist@),
            f == (|c: Seq<char>| parsed_channel_view(c)),
            out@.map_values(|c: ParsedChannel| channel_view(c)) == strs_view(items@).take(
                i as int,
            ).map_values(f),
        decreases items.len() - i,
    {
        let c = parse_channel(copy_string(&items[i]));
        out.push(c);
        proof {
            lemma_map_values_step(strs_view(items@), i as int, f);
            assert(strs_view(items@)[i as int] == items@[i as int]@);
        }
        assert(out@.map_values(|c: ParsedChannel| channel_view(c)) =~= strs_view(items@).take(
            i + 1,
        ).map_values(f));
        i += 1;
    }
    assert(strs_view(items@).take(i as int) =~= strs_view(items@));
    out
}

/// The channels that name no group.
pub open spec fn unknown_channels(channels: Seq<(Seq<char>, Option<i64>)>) -> Seq<
    (Seq<char>, Option<i64>),
> {
    channels.filter(|c: (Seq<char>, Option<i64>)| c.1 is None)
}

/// The channels that name a group.
pub open spec fn group_channels(channels: Seq<(Seq<char>, Option<i64>)>) -> Seq<
    (Seq<char>, Option<i64>),
> {
    channels.filter(|c: (Seq<char>, Option<i64>)| c.1 is Some)
}

/// Joining `channels`: an ERR_NOSUCHCHANNEL for each channel that names no
/// group, in order, and the groups to look up, in order.
pub open spec fn join_plan_view(channels: Seq<(Seq<char>, Option<i64>)>, nick: Seq<char>) -> (
    Seq<MessageView>,
    Seq<(Seq<char>, i64)>,
) {
    (
        unknown_channels(channels).map_values(
            |c: (Seq<char>, Option<i64>)| no_such_channel_view(nick, c.0),
        ),
        group_channels(channels).map_values(|c: (Seq<char>, Option<i64>)| (c.0, c.1->0)),
    )
}

pub fn rvs_plan_join_effects(channels: &[ParsedChannel], nick: &str) -> (r: (
    Vec<Message>,
    Vec<(String, i64)>,
))
    ensures
        (r.0.deep_view(), r.1@.map_values(|l: (String, i64)| (l.0@, l.1))) == join_plan_view(
            channels@.map_values(|c: ParsedChannel| channel_view(c)),
            nick@,
        ),
{
    let ghost all = channels@.map_values(|c: ParsedChannel| channel_view(c));
    let ghost is_unknown = |c: (Seq<char>, Option<i64>)| c.1 is None;
    let ghost is_group = |c: (Seq<char>, Option<i64>)| c.1 is Some;
    let ghost reply_of = |c: (Seq<char>, Option<i64>)| no_such_channel_view(nick@, c.0);
    let ghost lookup_of = |c: (Seq<char>, Option<i64>)| (c.0, c.1->0);
    let mut immediate: Vec<Message> = Vec::new();
    let mut lookups: Vec<(String, i64)> = Vec::new();
    let mut i: usize = 0;
    assert(all.take(0).filter(is_unknown) =~= Seq::<(Seq<char>, Option<i64>)>::empty()) by {
        reveal_with_fuel(Seq::filter, 1);
    }
    assert(all.take(0).filter(is_group) =~= Seq::<(Seq<char>, Option<i64>)>::empty()) by {
        reveal_with_fuel(Seq::filter, 1);
    }
    while i < channels.len()
        invariant
            i <= channels@.len(),
            all == channels@.map_values(|c: ParsedChannel| channel_view(c)),
            is_unknown == (|c: (Seq<char>, Option<i64>)| c.1 is None),
            is_group == (|c: (Seq<char>, Option<i64>)| c.1 is Some),
            reply_of == (|c: (Seq<char>, Option<i64>)| no_such_channel_view(nick@, c.0)),
            lookup_of == (|c: (Seq<char>, Option<i64>)| (c.0, c.1->0)),
            immediate.deep_view() == all.take(i as int).filter(is_unknown).map_values(reply_of),
            lookups@.map_values(|l: (String, i64)| (l.0@, l.1)) == all.take(i as int).filter(
                is_group,
            ).map_values(lookup_of),
        decreases channels.len() - i,
    {
        let ch = &channels[i];
        proof {
            lemma_filter_step(all, i as int, is_unknown);
            lemma_filter_step(all, i as int, is_group);
            assert(all[i as int] == channel_view(*ch));
        }
        match ch.group_id {
            Some(id) => {
                let ghost before = lookups@;
                let entry = (copy_string(&ch.raw), id);
                assert(lookup_of(all[i as int]) == (entry.0@, entry.1));
                lookups.push(entry);
                proof {
                    lemma_map_values_push(before, entry, |l: (String, i64)| (l.0@, l.1));
                }
                assert(lookups@.map_values(|l: (String, i64)| (l.0@, l.1)) =~= all.take(
                    i + 1,
                ).filter(is_group).map_values(lookup_of));
                assert(immediate.deep_view() =~= all.take(i + 1).filter(is_unknown).map_values(
                    reply_of,
                ));
            },
            None => {
                let ghost before = immediate.deep_view();
                let m = rvs_build_no_such_channel(nick, ch.raw.as_str());
                assert(reply_of(all[i as int]) == m.deep_view());
                immediate.push(m);
                assert(immediate.deep_view() =~= before.push(m.deep_view()));
                assert(lookups@.map_values(|l: (String, i64)| (l.0@, l.1)) =~= all.take(
                    i + 1,
                ).filter(is_group).map_values(lookup_of));
                assert(immediate.deep_view() =~= all.take(i + 1).filter(is_unknown).map_values(
                    reply_of,
                ));
            },
        }
        i += 1;
    }
    assert(all.take(i as int) =~= all);
    (immediate, lookups)
}

/// The topic of a group channel: the group's name when the lookup gave one,
/// a placeholder when it gave none, and a note when the lookup failed.
pub open spec fn group_name_view(lookup: Result<Option<Seq<char>>, ()>) -> Seq<char> {
    match lookup {
        Ok(Some(name)) => name,
        Ok(None) => "Unknown Group"@,
        Err(()) => "无法获取群名"@,
    }
}

pub fn rvs_group_name(lookup: Result<Option<&str>, ()>) -> (r: String)
    ensures
        r@ == group_name_view(
            match lookup {
                Ok(Some(n)) => Ok(Some(n@)),
                Ok(None) => Ok(None),
                Err(()) => Err(()),
            },
        ),
{
    match lookup {
        Ok(Some(name)) => name.to_owned(),
        Ok(None) => "Unknown Group".to_owned(),
        Err(()) => "无法获取群名".to_owned(),
    }
}

// ---------------------------------------------------------------------------
// Connection state
// ---------------------------------------------------------------------------
/// The state that an IRC connection keeps about its client.
pub struct IrcSession {
    pub nick: String,
    pub user: String,
    pub reg_state: RegistrationState,
    pub cap_negotiating: bool,
}

/// A connection's state by its values.
pub struct SessionView {
    pub nick: Seq<char>,
    pub user: Seq<char>,
    pub reg_state: RegistrationState,
    pub cap_negotiating: bool,
}

impl View for IrcSession {
    type V = SessionView;

    open spec fn view(&self) -> SessionView {
        SessionView {
            nick: self.nick@,
            user: self.user@,
            reg_state: self.reg_state,
            cap_negotiating: self.cap_negotiating,
        }
    }
}

/// A new connection: no nickname, no username, nothing received, no
/// capability negotiation.
pub open spec fn initial_session_view() -> SessionView {
    SessionView {
        nick: Seq::empty(),
        user: Seq::empty(),
        reg_state: RegistrationState::Pending { got_nick: false, got_user: false },
        cap_negotiating: false,
    }
}

impl IrcSession {
    pub fn new() -> (s: IrcSession)
        ensures
            s@ == initial_session_view(),
    {
        IrcSession {
            nick: String::new(),
            user: String::new(),
            reg_state: RegistrationState::Pending { got_nick: false, got_user: false },
            cap_negotiating: false,
        }
    }
}

/// What the connection does for an effect besides changing its state.
pub enum SessionActionOf<S, M, T> {
    /// Send these messages to the client.
    Send(M),
    /// Make `nick` the nickname that QQ messages are addressed to.
    PublishNick(S),
    /// Join the channels of `chanlist` as `nick`/`user`.
    Join { nick: S, user: S, chanlist: S },
    /// Forward `text` to a QQ target.
    Forward { target: T, text: S },
    /// Write `text` to the debug log.
    Log(S),
    /// Nothing outside the state.
    Nothing,
}

pub type SessionAction = SessionActionOf<String, Vec<Message>, PrivmsgTarget>;

pub type SessionActionView = SessionActionOf<Seq<char>, Seq<MessageView>, PrivmsgTargetView>;

impl DeepView for SessionActionOf<String, Vec<Message>, PrivmsgTarget> {
    type V = SessionActionView;

    open spec fn deep_view(&self) -> SessionActionView {
        match self {
            SessionActionOf::Send(m) => SessionActionOf::Send(m.deep_view()),
            SessionActionOf::PublishNick(n) => SessionActionOf::PublishNick(n@),
            SessionActionOf::Join { nick, user, chanlist } => SessionActionOf::Join {
                nick: nick@,
                user: user@,
                chanlist: chanlist@,
            },
            SessionActionOf::Forward { target, text } => SessionActionOf::Forward {
                target: target.deep_view(),
                text: text@,
            },
            SessionActionOf::Log(t) => SessionActionOf::Log(t@),
            SessionActionOf::Nothing => SessionActionOf::Nothing,
        }
    }
}

/// The state after an effect.
pub open spec fn effect_state_view(st: SessionView, e: IrcCommandEffectView) -> SessionView {
    match e {
        IrcCommandEffectOf::SetNick(n) => SessionView { nick: n, ..st },
        IrcCommandEffectOf::SetUser(u) => SessionView { user: u, ..st },
        IrcCommandEffectOf::SetRegState(r) => SessionView { reg_state: r, ..st },
        IrcCommandEffectOf::SetCapNegotiating(b) => SessionView { cap_negotiating: b, ..st },
        _ => st,
    }
}

/// What an effect does outside the state, in the state it meets.
pub open spec fn effect_action_view(st: SessionView, e: IrcCommandEffectView) -> SessionActionView {
    match e {
        IrcCommandEffectOf::Reply(m) => SessionActionOf::Send(m),
        IrcCommandEffectOf::BroadcastNick(n) => SessionActionOf::PublishNick(n),
        IrcCommandEffectOf::AsyncJoin(c) => SessionActionOf::Join {
            nick: st.nick,
            user: st.user,
            chanlist: c,
        },
        IrcCommandEffectOf::SendPrivmsg { target, text } => SessionActionOf::Forward {
            target: privmsg_target_view(target),
            text,
        },
        IrcCommandEffectOf::LogDebug(t) => SessionActionOf::Log(t),
        _ => SessionActionOf::Nothing,
    }
}

/// The state after a sequence of effects, applied in order.
pub open spec fn effects_state_view(
    st: SessionView,
    effects: Seq<IrcCommandEffectView>,
) -> SessionView
    decreases effects.len(),
{
    if effects.len() == 0 {
        st
    } else {
        effect_state_view(effects_state_view(st, effects.drop_last()), effects.last())
    }
}

/// Applies one effect to the connection's state and says what else it asks for.
pub fn rvs_apply_irc_effect(session: &mut IrcSession, effect: IrcCommandEffect) -> (a:
    SessionAction)
    ensures
        final(session)@ == effect_state_view(old(session)@, effect.deep_view()),
        a.deep_view() == effect_action_view(old(session)@, effect.deep_view()),
{
    match effect {
        IrcCommandEffectOf::Reply(msgs) => SessionActionOf::Send(msgs),
        IrcCommandEffectOf::SetNick(n) => {
            session.nick = n;
            SessionActionOf::Nothing
        },
        IrcCommandEffectOf::SetUser(u) => {
            session.user = u;
            SessionActionOf::Nothing
        },
        IrcCommandEffectOf::SetRegState(s) => {
            session.reg_state = s;
            SessionActionOf::Nothing
        },
        IrcCommandEffectOf::SetCapNegotiating(v) => {
            session.cap_negotiating = v;
            SessionActionOf::Nothing
        },
        IrcCommandEffectOf::BroadcastNick(n) => SessionActionOf::PublishNick(n),
        IrcCommandEffectOf::AsyncJoin(chanlist) => SessionActionOf::Join {
            nick: copy_string(&session.nick),
            user: copy_string(&session.user),
            chanlist,
        },
        IrcCommandEffectOf::SendPrivmsg { target, text } => SessionActionOf::Forward {
            target: rvs_resolve_privmsg_target(target.as_str()),
            text,
        },
        IrcCommandEffectOf::LogDebug(msg) => SessionActionOf::Log(msg),
    }
}

/// The current UTC time as an ISO 8601 timestamp.
pub fn rvs_make_now_str_P() -> (r: String)
    ensures
        exists|secs: u64| r@ == utc_timestamp_view(secs as nat),
{
    rvs_format_utc_timestamp(rvs_current_utc_secs_P())
}

// ---------------------------------------------------------------------------
// QQ messages on IRC
// ---------------------------------------------------------------------------
/// The prefix of messages from a QQ user: their name, their id, the server.
pub open spec fn qq_sender_prefix_view(name: Seq<char>, id: int) -> crate::irc_message::PrefixView {
    PrefixOf::Nickname(name, signed_decimal(id), server_name_view())
}

/// One PRIVMSG to `target` from the QQ sender for each non-empty line.
pub open spec fn forward_lines_view(
    lines: Seq<Seq<char>>,
    name: Seq<char>,
    id: int,
    target: Seq<char>,
) -> Seq<MessageView> {
    lines.filter(|l: Seq<char>| l.len() > 0).map_values(
        |l: Seq<char>|
            MessageOf {
                prefix: Some(qq_sender_prefix_view(name, id)),
                command: CommandOf::PRIVMSG(target, l),
            },
    )
}

/// A QQ message as IRC messages: group messages go to the group's channel,
/// private ones to the client's nickname (`you` while it has none).
pub open spec fn onebot_to_irc_view(m: crate::onebot::RenderedOnebotMessageView, my_nick: Seq<
    char,
>) -> Seq<MessageView> {
    match m {
        RenderedOnebotMessageOf::Group { content, sender_id, sender_name, group_id } =>
            forward_lines_view(content, sender_name, sender_id as int, "#"@ + signed_decimal(
            group_id as int,
        )),
        RenderedOnebotMessageOf::Private { content, sender_id, sender_name } => forward_lines_view(
            content,
            sender_name,
            sender_id as int,
            if my_nick.len() == 0 {
                "you"@
            } else {
                my_nick
            },
        ),
    }
}

fn forward_lines(content: Vec<String>, name: String, id: i64, target: &str) -> (r: Vec<Message>)
    ensures
        r.deep_view() == forward_lines_view(strs_view(content@), name@, id as int, target@),
{
    let id_text = i64_to_decimal(id);
    let ghost keep = |l: Seq<char>| l.len() > 0;
    let ghost to_msg = |l: Seq<char>|
        MessageOf {
            prefix: Some(qq_sender_prefix_view(name@, id as int)),
            command: CommandOf::<Seq<char>, Seq<Seq<char>>>::PRIVMSG(target@, l),
        };
    let ghost lines = strs_view(content@);
    let mut out: Vec<Message> = Vec::new();
    let mut i: usize = 0;
    assert(lines.take(0).filter(keep) =~= Seq::<Seq<char>>::empty()) by {
        reveal_with_fuel(Seq::filter, 1);
    }
    while i < content.len()
        invariant
            i <= content@.len(),
            lines == strs_view(content@),
            id_text@ == signed_decimal(id as int),
            keep == (|l: Seq<char>| l.len() > 0),
            to_msg == (|l: Seq<char>|
                MessageOf {
                    prefix: Some(qq_sender_prefix_view(name@, id as int)),
                    command: CommandOf::<Seq<char>, Seq<Seq<char>>>::PRIVMSG(target@, l),
                }),
            out.deep_view() == lines.take(i as int).filter(keep).map_values(to_msg),
        decreases content.len() - i,
    {
        let line = &content[i];
        proof {
            lemma_filter_step(lines, i as int, keep);
            assert(lines[i as int] == line@);
        }
        if !line.as_str().is_empty() {
            let prefix = PrefixOf::Nickname(
                copy_string(&name),
                copy_string(&id_text),
                rvs_server_name().to_owned(),
            );
            let m = MessageOf {
                prefix: Some(prefix),
                command: CommandOf::PRIVMSG(target.to_owned(), copy_string(line)),
            };
            let ghost before = out.deep_view();
            assert(to_msg(lines[i as int]) == m.deep_view());
            out.push(m);
            assert(out.deep_view() =~= before.push(m.deep_view()));
        }
        assert(out.deep_view() =~= lines.take(i + 1).filter(keep).map_values(to_msg));
        i += 1;
    }
    assert(lines.take(i as int) =~= lines);
    out
}

pub fn rvs_render_onebot_to_irc(message: RenderedOnebotMessage, my_nick: &str) -> (r: Vec<Message>)
    ensures
        r.deep_view() == onebot_to_irc_view(message.deep_view(), my_nick@),
{
    match message {
        RenderedOnebotMessageOf::Group { content, sender_name, group_id, sender_id } => {
            let chan = concat2("#", i64_to_decimal(group_id).as_str());
            forward_lines(content, sender_name, sender_id, chan.as_str())
        },
        RenderedOnebotMessageOf::Private { content, sender_id, sender_name } => {
            let target = if my_nick.is_empty() {
                "you".to_owned()
            } else {
                my_nick.to_owned()
            };
            forward_lines(content, sender_name, sender_id, target.as_str())
        },
    }
}

} // verus!
