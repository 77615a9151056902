//! Properties that hold across the gateway's functions: the registration
//! protocol over any sequence of client commands, the answers the client
//! gets, the agreement between the ways that channels, groups and targets are
//! named, and who QQ messages are shown to come from.
use vstd::prelude::*;

use crate::irc_handler::{
    SessionView, effects_state_view, initial_session_view, join_channels_view,
    forward_lines_view, onebot_to_irc_view, parsed_channel_view,
};
use crate::irc_message::{CapSubCommand, CommandOf, CommandView, MessageOf, PrefixOf, Response};
use crate::irc_proto::{
    IrcCommandEffectOf, IrcCommandEffectView, PrivmsgTargetOf, RegistrationState,
    away_replies_view, group_channel_view, is_connection_command, part_replies_view, plan_view,
    pong_view, privmsg_target_view, registered_plan_view, welcome_burst_view,
};
use crate::onebot::{MemberInfo, RenderedOnebotMessageOf, RenderedOnebotMessageView, group_sender_name_view};
use crate::text::{
    decimal, digits_of, is_ascii_digit, lemma_decimal_digits, is_ascii_punctuation,
    is_whitespace, list_items, nick_chars_of, signed_decimal, trim, trim_end, trim_start,
    without_whitespace,
};

verus! {

// ---------------------------------------------------------------------------
// The registration protocol
// ---------------------------------------------------------------------------
/// The connection's state after a client command, logged as `text`: the
/// command's planned effects, applied in order to the state it met.
pub open spec fn command_step_view(
    st: SessionView,
    c: CommandView,
    now: Seq<char>,
    text: Seq<char>,
) -> SessionView {
    effects_state_view(
        st,
        plan_view(c, st.nick, st.user, st.reg_state, st.cap_negotiating, now, text),
    )
}

/// The connection's state after a sequence of client commands, each with the
/// time at which it was handled and its log text.
pub open spec fn commands_state_view(
    st: SessionView,
    cmds: Seq<(CommandView, Seq<char>, Seq<char>)>,
) -> SessionView
    decreases cmds.len(),
{
    if cmds.len() == 0 {
        st
    } else {
        command_step_view(
            commands_state_view(st, cmds.drop_last()),
            cmds.last().0,
            cmds.last().1,
            cmds.last().2,
        )
    }
}

/// A NICK has been received and registration is still pending.
pub open spec fn got_nick(r: RegistrationState) -> bool {
    match r {
        RegistrationState::Pending { got_nick, .. } => got_nick,
        RegistrationState::Registered => false,
    }
}

/// A USER has been received and registration is still pending.
pub open spec fn got_user(r: RegistrationState) -> bool {
    match r {
        RegistrationState::Pending { got_user, .. } => got_user,
        RegistrationState::Registered => false,
    }
}

/// The sequence holds a NICK command.
pub open spec fn has_nick(cmds: Seq<(CommandView, Seq<char>, Seq<char>)>) -> bool {
    exists|i: int| 0 <= i < cmds.len() && (#[trigger] cmds[i]).0 is NICK
}

/// The sequence holds a USER command.
pub open spec fn has_user(cmds: Seq<(CommandView, Seq<char>, Seq<char>)>) -> bool {
    exists|i: int| 0 <= i < cmds.len() && (#[trigger] cmds[i]).0 is USER
}

/// Effects that set nothing leave the state as it is.
proof fn lemma_stateless_effects(st: SessionView, effects: Seq<IrcCommandEffectView>)
    requires
        forall|i: int|
            0 <= i < effects.len() ==> !((#[trigger] effects[i]) is SetNick || effects[i] is SetUser
                || effects[i] is SetRegState || effects[i] is SetCapNegotiating),
    ensures
        effects_state_view(st, effects) == st,
    decreases effects.len(),
{
    if effects.len() > 0 {
        lemma_stateless_effects(st, effects.drop_last());
        let e = effects.last();
        assert(effects[effects.len() - 1] == e);
    }
}

/// Once the client is registered, the connection commands other than NICK and
/// USER and every other command set nothing.
proof fn lemma_registered_plan_stateless(
    c: CommandView,
    nick: Seq<char>,
    user: Seq<char>,
    now: Seq<char>,
    text: Seq<char>,
)
    ensures
        ({
            let plan = registered_plan_view(c, nick, user, now, text);
            forall|i: int|
                0 <= i < plan.len() ==> !((#[trigger] plan[i]) is SetNick || plan[i] is SetUser
                    || plan[i] is SetRegState || plan[i] is SetCapNegotiating)
        }),
{
}

/// How one command moves the registration state.
proof fn lemma_command_step_registration(
    st: SessionView,
    c: CommandView,
    now: Seq<char>,
    text: Seq<char>,
)
    ensures
        ({
            let next = command_step_view(st, c, now, text);
            &&& next.reg_state is Registered ==> {
                ||| st.reg_state is Registered
                ||| (c is NICK && got_user(st.reg_state) && !st.cap_negotiating)
                ||| (c is USER && got_nick(st.reg_state) && !st.cap_negotiating)
                ||| (c is CAP && st.reg_state == RegistrationState::Pending {
                    got_nick: true,
                    got_user: true,
                })
            }
            &&& next.reg_state is Pending ==> st.reg_state is Pending
            &&& got_nick(next.reg_state) ==> got_nick(st.reg_state) || c is NICK
            &&& got_user(next.reg_state) ==> got_user(st.reg_state) || c is USER
            &&& st.reg_state is Registered ==> next.reg_state is Registered
            &&& !is_connection_command(c) ==> next == st
        }),
{
    reveal_with_fuel(effects_state_view, 5);
    let plan = plan_view(c, st.nick, st.user, st.reg_state, st.cap_negotiating, now, text);
    if !is_connection_command(c) {
        if st.reg_state is Registered {
            lemma_registered_plan_stateless(c, st.nick, st.user, now, text);
            lemma_stateless_effects(st, plan);
        }
    }
}

/// Law: the state after any sequence of commands from a fresh connection says
/// no more than what the commands gave: a recorded NICK or USER was received,
/// and registration needs both.
proof fn lemma_registration_trace(cmds: Seq<(CommandView, Seq<char>, Seq<char>)>)
    ensures
        ({
            let st = commands_state_view(initial_session_view(), cmds);
            &&& got_nick(st.reg_state) ==> has_nick(cmds)
            &&& got_user(st.reg_state) ==> has_user(cmds)
            &&& st.reg_state is Registered ==> has_nick(cmds) && has_user(cmds)
        }),
    decreases cmds.len(),
{
    if cmds.len() > 0 {
        let prefix = cmds.drop_last();
        lemma_registration_trace(prefix);
        let before = commands_state_view(initial_session_view(), prefix);
        let (c, now, text) = cmds.last();
        lemma_command_step_registration(before, c, now, text);
        assert(cmds[cmds.len() - 1] == cmds.last());
        if has_nick(prefix) {
            let i = choose|i: int| 0 <= i < prefix.len() && (#[trigger] prefix[i]).0 is NICK;
            assert(cmds[i] == prefix[i]);
        }
        if has_user(prefix) {
            let i = choose|i: int| 0 <= i < prefix.len() && (#[trigger] prefix[i]).0 is USER;
            assert(cmds[i] == prefix[i]);
        }
    }
}

/// Law: a client is registered only after it has sent both NICK and USER.
pub proof fn law_registration_needs_nick_and_user(cmds: Seq<(CommandView, Seq<char>, Seq<char>)>)
    requires
        commands_state_view(initial_session_view(), cmds).reg_state is Registered,
    ensures
        has_nick(cmds),
        has_user(cmds),
{
    lemma_registration_trace(cmds);
}

/// Law: while capability negotiation is under way, neither NICK nor USER
/// completes registration, even when the other was received before.
pub proof fn law_no_registration_while_negotiating(
    st: SessionView,
    c: CommandView,
    now: Seq<char>,
    text: Seq<char>,
)
    requires
        st.reg_state is Pending,
        st.cap_negotiating,
        c is NICK || c is USER,
    ensures
        command_step_view(st, c, now, text).reg_state is Pending,
{
    reveal_with_fuel(effects_state_view, 5);
}

/// Law: registration is never undone.
pub proof fn law_registration_is_permanent(
    st: SessionView,
    c: CommandView,
    now: Seq<char>,
    text: Seq<char>,
)
    requires
        st.reg_state is Registered,
    ensures
        command_step_view(st, c, now, text).reg_state is Registered,
{
    lemma_command_step_registration(st, c, now, text);
}

/// Law: the command that completes registration greets the client, under the
/// nickname the connection then has, with the welcome sequence.
pub proof fn law_registration_greets(
    st: SessionView,
    c: CommandView,
    now: Seq<char>,
    text: Seq<char>,
)
    requires
        st.reg_state is Pending,
        command_step_view(st, c, now, text).reg_state is Registered,
    ensures
        plan_view(c, st.nick, st.user, st.reg_state, st.cap_negotiating, now, text).contains(
            IrcCommandEffectView::Reply(
                welcome_burst_view(command_step_view(st, c, now, text).nick, now),
            ),
        ),
{
    reveal_with_fuel(effects_state_view, 5);
    lemma_command_step_registration(st, c, now, text);
    let plan = plan_view(c, st.nick, st.user, st.reg_state, st.cap_negotiating, now, text);
    let greeting: IrcCommandEffectView = IrcCommandEffectOf::Reply(
        welcome_burst_view(command_step_view(st, c, now, text).nick, now),
    );
    assert(plan[3] == greeting);
}

/// Law: before registration, a command other than CAP, NICK, USER, PASS, PING
/// and QUIT is only logged, under its log text; it changes nothing and is not
/// answered.
pub proof fn law_unregistered_commands_ignored(
    st: SessionView,
    c: CommandView,
    now: Seq<char>,
    text: Seq<char>,
)
    requires
        st.reg_state is Pending,
        !is_connection_command(c),
    ensures
        plan_view(c, st.nick, st.user, st.reg_state, st.cap_negotiating, now, text) == seq![
            IrcCommandEffectView::LogDebug("ignoring command before registration: "@ + text),
        ],
        command_step_view(st, c, now, text) == st,
{
    reveal_with_fuel(effects_state_view, 2);
}

/// Law: CAP LS starts capability negotiation and CAP END ends it.
pub proof fn law_cap_negotiation(
    st: SessionView,
    target: Option<Seq<char>>,
    p1: Option<Seq<char>>,
    p2: Option<Seq<char>>,
    now: Seq<char>,
    text: Seq<char>,
)
    ensures
        command_step_view(
            st,
            CommandOf::CAP(target, CapSubCommand::LS, p1, p2),
            now,
            text,
        ).cap_negotiating,
        !command_step_view(
            st,
            CommandOf::CAP(target, CapSubCommand::END, p1, p2),
            now,
            text,
        ).cap_negotiating,
{
    reveal_with_fuel(effects_state_view, 5);
}

/// Law: every PING is answered with exactly one PONG that echoes its
/// parameters, whatever the state of the connection.
pub proof fn law_ping_answered(
    st: SessionView,
    server1: Seq<char>,
    server2: Option<Seq<char>>,
    now: Seq<char>,
    text: Seq<char>,
)
    ensures
        plan_view(
            CommandOf::PING(server1, server2),
            st.nick,
            st.user,
            st.reg_state,
            st.cap_negotiating,
            now,
            text,
        ) == seq![IrcCommandEffectView::Reply(pong_view(server1, server2))],
        pong_view(server1, server2) == seq![
            MessageOf {
                prefix: Some(PrefixOf::ServerName("onebotirc.villv.tech"@)),
                command: CommandOf::<Seq<char>, Seq<Seq<char>>>::PONG(server1, server2),
            },
        ],
{
}

// ---------------------------------------------------------------------------
// Names of channels, groups and targets
// ---------------------------------------------------------------------------
proof fn lemma_digits_of_all_digits_is_identity(s: Seq<char>)
    requires
        forall|i: int| 0 <= i < s.len() ==> is_ascii_digit(#[trigger] s[i]),
    ensures
        digits_of(s) == s,
    decreases s.len(),
{
    reveal_with_fuel(Seq::filter, 1);
    if s.len() > 0 {
        lemma_digits_of_all_digits_is_identity(s.drop_last());
        assert(s.drop_last().push(s.last()) =~= s);
    }
}

/// Law: the channel of group `g` is named by `g` both as a JOIN target and as
/// a PRIVMSG target, so the client reaches the group it joined.
pub proof fn law_group_channel_round_trip(g: i64)
    requires
        g >= 0,
    ensures
        parsed_channel_view(group_channel_view(g as int)).1 == Some(g),
        privmsg_target_view(group_channel_view(g as int)) == PrivmsgTargetOf::<Seq<char>>::Group(g),
{
    reveal_strlit("#");
    let chan = group_channel_view(g as int);
    let d = decimal(g as nat);
    assert(chan[0] == '#');
    lemma_decimal_digits(g as nat);
    assert(chan.drop_first() =~= d);
    lemma_digits_of_all_digits_is_identity(d);
}

/// Law: a PART and a JOIN of the same channel list name the same channels,
/// one message or lookup per channel.
pub proof fn law_part_and_join_agree(
    nick: Seq<char>,
    user: Seq<char>,
    chanlist: Seq<char>,
    comment: Option<Seq<char>>,
)
    ensures
        part_replies_view(nick, user, chanlist, comment).len() == join_channels_view(
            chanlist,
        ).len(),
        forall|i: int|
            0 <= i < join_channels_view(chanlist).len() ==> (#[trigger] join_channels_view(
                chanlist,
            )[i]).0 == list_items(chanlist)[i] && part_replies_view(
                nick,
                user,
                chanlist,
                comment,
            )[i].command == CommandOf::<Seq<char>, Seq<Seq<char>>>::PART(
                list_items(chanlist)[i],
                comment,
            ),
{
}

/// Law: a sanitized nickname is left as it is by sanitizing it again.
pub proof fn law_sanitize_nick_idempotent(raw: Seq<char>)
    ensures
        nick_chars_of(nick_chars_of(raw)) == nick_chars_of(raw),
{
    broadcast use vstd::seq_lib::group_filter_ensures;

    let s = nick_chars_of(raw);
    lemma_filter_keeps_all(s);
}

proof fn lemma_filter_keeps_all(s: Seq<char>)
    requires
        forall|i: int|
            0 <= i < s.len() ==> !is_whitespace(#[trigger] s[i]) && !is_ascii_punctuation(s[i]),
    ensures
        nick_chars_of(s) == s,
    decreases s.len(),
{
    reveal_with_fuel(Seq::filter, 1);
    if s.len() > 0 {
        lemma_filter_keeps_all(s.drop_last());
        assert(s.drop_last().push(s.last()) =~= s);
    }
}

// ---------------------------------------------------------------------------
// The answers the client gets
// ---------------------------------------------------------------------------
/// Law: CAP LS opens capability negotiation and is always answered, in every
/// state, with the server's (empty) capability list `CAP * LS :`.
pub proof fn law_cap_ls_answered(
    st: SessionView,
    target: Option<Seq<char>>,
    p1: Option<Seq<char>>,
    p2: Option<Seq<char>>,
    now: Seq<char>,
    text: Seq<char>,
)
    ensures
        plan_view(
            CommandOf::CAP(target, CapSubCommand::LS, p1, p2),
            st.nick,
            st.user,
            st.reg_state,
            st.cap_negotiating,
            now,
            text,
        ) == seq![
            IrcCommandEffectView::SetCapNegotiating(true),
            IrcCommandEffectView::Reply(
                seq![
                    MessageOf {
                        prefix: Some(PrefixOf::ServerName("onebotirc.villv.tech"@)),
                        command: CommandOf::CAP(
                            Some("*"@),
                            CapSubCommand::LS,
                            None,
                            Some(Seq::<char>::empty()),
                        ),
                    },
                ],
            ),
        ],
{
}

/// Law: leaving channels echoes one PART per channel named, each sent as the
/// client itself (its nickname and username on this server).
pub proof fn law_part_echoed_as_the_client(
    nick: Seq<char>,
    user: Seq<char>,
    chanlist: Seq<char>,
    comment: Option<Seq<char>>,
)
    ensures
        part_replies_view(nick, user, chanlist, comment).len() == list_items(chanlist).len(),
        forall|i: int|
            0 <= i < part_replies_view(nick, user, chanlist, comment).len() ==> (#[trigger] part_replies_view(
                nick,
                user,
                chanlist,
                comment,
            )[i]) == (MessageOf {
                prefix: Some(PrefixOf::Nickname(nick, user, "onebotirc.villv.tech"@)),
                command: CommandOf::<Seq<char>, Seq<Seq<char>>>::PART(list_items(chanlist)[i], comment),
            }),
{
}

/// Law: AWAY with a message is answered 306 (RPL_NOWAWAY, "marked as being
/// away"), and AWAY without one 305 (RPL_UNAWAY, "no longer marked as being
/// away"), addressed to the client's nickname.
pub proof fn law_away_reply(nick: Seq<char>, has_msg: bool)
    ensures
        away_replies_view(nick, has_msg) == seq![
            MessageOf {
                prefix: Some(PrefixOf::ServerName("onebotirc.villv.tech"@)),
                command: CommandOf::<Seq<char>, Seq<Seq<char>>>::Response(
                    if has_msg {
                        Response::RPL_NOWAWAY
                    } else {
                        Response::RPL_UNAWAY
                    },
                    seq![
                        nick,
                        if has_msg {
                            "You have been marked as being away"@
                        } else {
                            "You are no longer marked as being away"@
                        },
                    ],
                ),
            },
        ],
{
}

/// Law: a registered client's AWAY gets the reply that matches whether it
/// gave a message, and nothing else.
pub proof fn law_away_answered(
    st: SessionView,
    msg: Option<Seq<char>>,
    now: Seq<char>,
    text: Seq<char>,
)
    requires
        st.reg_state is Registered,
    ensures
        plan_view(
            CommandOf::AWAY(msg),
            st.nick,
            st.user,
            st.reg_state,
            st.cap_negotiating,
            now,
            text,
        ) == seq![IrcCommandEffectView::Reply(away_replies_view(st.nick, msg is Some))],
{
}

// ---------------------------------------------------------------------------
// Who QQ messages come from
// ---------------------------------------------------------------------------
/// Law: every IRC message forwarded from a QQ message comes from the sender,
/// by the name the message carries, with the sender's QQ number as the
/// username; it is a PRIVMSG to the group's channel (for a group message) or
/// to the client (for a private one) whose text is a non-empty line of the
/// message; and every non-empty line is forwarded.
pub proof fn law_forwarded_from_the_sender(m: RenderedOnebotMessageView, my_nick: Seq<char>)
    ensures
        ({
            let out = onebot_to_irc_view(m, my_nick);
            let (content, id, name, target) = match m {
                RenderedOnebotMessageOf::Group { content, sender_id, sender_name, group_id } => (
                    content,
                    sender_id,
                    sender_name,
                    "#"@ + signed_decimal(group_id as int),
                ),
                RenderedOnebotMessageOf::Private { content, sender_id, sender_name } => (
                    content,
                    sender_id,
                    sender_name,
                    if my_nick.len() == 0 {
                        "you"@
                    } else {
                        my_nick
                    },
                ),
            };
            &&& out.len() <= content.len()
            &&& forall|i: int|
                0 <= i < out.len() ==> {
                    &&& (#[trigger] out[i]).prefix == Some(
                        PrefixOf::Nickname(name, signed_decimal(id as int), "onebotirc.villv.tech"@),
                    )
                    &&& out[i].command matches CommandOf::PRIVMSG(t, line) && t == target
                        && line.len() > 0 && content.contains(line)
                }
            &&& forall|j: int|
                0 <= j < content.len() && (#[trigger] content[j]).len() > 0 ==> exists|i: int|
                    0 <= i < out.len() && out[i].command == CommandOf::<
                        Seq<char>,
                        Seq<Seq<char>>,
                    >::PRIVMSG(target, content[j])
        }),
{
    match m {
        RenderedOnebotMessageOf::Group { content, sender_id, sender_name, group_id } => {
            lemma_forward_lines(
                content,
                sender_name,
                sender_id as int,
                "#"@ + signed_decimal(group_id as int),
            );
        },
        RenderedOnebotMessageOf::Private { content, sender_id, sender_name } => {
            lemma_forward_lines(
                content,
                sender_name,
                sender_id as int,
                if my_nick.len() == 0 {
                    "you"@
                } else {
                    my_nick
                },
            );
        },
    }
}

proof fn lemma_forward_lines(lines: Seq<Seq<char>>, name: Seq<char>, id: int, target: Seq<char>)
    ensures
        ({
            let out = forward_lines_view(lines, name, id, target);
            &&& out.len() <= lines.len()
            &&& forall|i: int|
                0 <= i < out.len() ==> {
                    &&& (#[trigger] out[i]).prefix == Some(
                        PrefixOf::Nickname(name, signed_decimal(id), "onebotirc.villv.tech"@),
                    )
                    &&& out[i].command matches CommandOf::PRIVMSG(t, line) && t == target
                        && line.len() > 0 && lines.contains(line)
                }
            &&& forall|j: int|
                0 <= j < lines.len() && (#[trigger] lines[j]).len() > 0 ==> exists|i: int|
                    0 <= i < out.len() && out[i].command == CommandOf::<
                        Seq<char>,
                        Seq<Seq<char>>,
                    >::PRIVMSG(target, lines[j])
        }),
{
    broadcast use vstd::seq_lib::group_filter_ensures;

    let out = forward_lines_view(lines, name, id, target);
    let keep = |l: Seq<char>| l.len() > 0;
    let kept = lines.filter(keep);
    assert(out.len() == kept.len());
    assert forall|i: int| 0 <= i < out.len() implies {
        &&& (#[trigger] out[i]).prefix == Some(
            PrefixOf::Nickname(name, signed_decimal(id), "onebotirc.villv.tech"@),
        )
        &&& out[i].command matches CommandOf::PRIVMSG(t, line) && t == target && line.len() > 0
            && lines.contains(line)
    } by {
        assert(keep(kept[i]));
        lines.lemma_filter_contains_rev(keep, kept[i]);
        assert(out[i].command == CommandOf::<Seq<char>, Seq<Seq<char>>>::PRIVMSG(target, kept[i]));
    }
    assert forall|j: int| 0 <= j < lines.len() && (#[trigger] lines[j]).len() > 0 implies exists|
        i: int,
    |
        0 <= i < out.len() && out[i].command == CommandOf::<Seq<char>, Seq<Seq<char>>>::PRIVMSG(
            target,
            lines[j],
        ) by {
        assert(keep(lines[j]));
        assert(kept.contains(lines[j]));
        let i = choose|i: int| 0 <= i < kept.len() && kept[i] == lines[j];
        assert(out[i].command == CommandOf::<Seq<char>, Seq<Seq<char>>>::PRIVMSG(target, kept[i]));
    }
}

// ---------------------------------------------------------------------------
// The name of a group sender
// ---------------------------------------------------------------------------
proof fn lemma_trim_start_first(s: Seq<char>)
    ensures
        trim_start(s).len() > 0 ==> !is_whitespace(trim_start(s)[0]),
    decreases s.len(),
{
    if s.len() > 0 && is_whitespace(s[0]) {
        lemma_trim_start_first(s.drop_first());
    }
}

proof fn lemma_trim_end_prefix(t: Seq<char>)
    ensures
        trim_end(t).len() <= t.len(),
        trim_end(t) == t.take(trim_end(t).len() as int),
    decreases t.len(),
{
    if t.len() > 0 && is_whitespace(t.last()) {
        lemma_trim_end_prefix(t.drop_last());
        assert(t.drop_last().take(trim_end(t).len() as int) =~= t.take(trim_end(t).len() as int));
    } else {
        assert(t.take(t.len() as int) =~= t);
    }
}

/// A trimmed string that is not empty begins with a character that is not
/// whitespace.
proof fn lemma_trim_first(s: Seq<char>)
    ensures
        trim(s).len() > 0 ==> !is_whitespace(trim(s)[0]),
{
    lemma_trim_start_first(s);
    lemma_trim_end_prefix(trim_start(s));
    if trim(s).len() > 0 {
        assert(trim(s)[0] == trim_start(s).take(trim(s).len() as int)[0]);
    }
}

/// A string that holds a character other than whitespace keeps something when
/// its whitespace is removed.
proof fn lemma_keeps_something(r: Seq<char>, k: int)
    requires
        0 <= k < r.len(),
        !is_whitespace(r[k]),
    ensures
        without_whitespace(r).len() > 0,
{
    broadcast use vstd::seq_lib::group_filter_ensures;

    let keep = |c: char| !is_whitespace(c);
    assert(r.filter(keep).contains(r[k]));
}

/// The trimmed text of a profile field; empty when the field is missing.
pub open spec fn field_text(f: Option<Seq<char>>) -> Seq<char> {
    match f {
        Some(s) => trim(s),
        None => Seq::empty(),
    }
}

/// Law: a group sender is named, with whitespace removed, by `【title】card`
/// when the member has both a group title and a group card; else by the card
/// when it has one, whatever its QQ nickname; else by its QQ nickname; and
/// has no name when none of the three has text.
pub proof fn law_group_sender_name_priority(info: MemberInfo)
    ensures
        ({
            let title = field_text(
                match info.title {
                    Some(t) => Some(t@),
                    None => None,
                },
            );
            let card = field_text(
                match info.card {
                    Some(c) => Some(c@),
                    None => None,
                },
            );
            let nick = field_text(
                match info.nickname {
                    Some(n) => Some(n@),
                    None => None,
                },
            );
            &&& title.len() > 0 && card.len() > 0 ==> group_sender_name_view(info) == Some(
                without_whitespace("【"@ + title + "】"@ + card),
            )
            &&& title.len() == 0 && card.len() > 0 ==> group_sender_name_view(info) == Some(
                without_whitespace(card),
            )
            &&& card.len() == 0 && nick.len() > 0 ==> group_sender_name_view(info) == Some(
                without_whitespace(nick),
            )
            &&& card.len() == 0 && nick.len() == 0 ==> group_sender_name_view(info) is None
        }),
{
    reveal_strlit("【");
    reveal_strlit("】");
    let card = field_text(
        match info.card {
            Some(c) => Some(c@),
            None => None,
        },
    );
    let nick = field_text(
        match info.nickname {
            Some(n) => Some(n@),
            None => None,
        },
    );
    let title = field_text(
        match info.title {
            Some(t) => Some(t@),
            None => None,
        },
    );
    match info.card {
        Some(c) => lemma_trim_first(c@),
        None => {},
    }
    match info.nickname {
        Some(n) => lemma_trim_first(n@),
        None => {},
    }
    if card.len() > 0 {
        lemma_keeps_something(card, 0);
        if title.len() > 0 {
            let raw = "【"@ + title + "】"@ + card;
            let k: int = title.len() as int + 2;
            assert(raw[k] == card[0]);
            lemma_keeps_something(raw, k);
        }
    } else if nick.len() > 0 {
        lemma_keeps_something(nick, 0);
    }
}

} // verus!
