//! The IRC messages that the gateway reads and writes, held as plain values.
//!
//! Each type is generic over the representation of a string (`S`) and of a
//! list of strings (`L`): the executable types use `String` and `Vec<String>`,
//! their views `Seq<char>` and `Seq<Seq<char>>`.
#![allow(non_camel_case_types)]
use vstd::prelude::*;

use crate::text::{opt_view, strs_view};

verus! {

/// The sender of a message.
#[derive(Debug, Clone)]
pub enum PrefixOf<S> {
    /// A server, by name.
    ServerName(S),
    /// A user: nickname, username and hostname.
    Nickname(S, S, S),
}

/// The sub-commands of `CAP` (IRCv3 capability negotiation).
#[derive(Debug, Clone, Copy, PartialEq, Eq, Structural)]
pub enum CapSubCommand {
    LS,
    LIST,
    REQ,
    ACK,
    NAK,
    END,
    NEW,
    DEL,
}

/// The numeric replies that the gateway sends.
#[derive(Debug, Clone, Copy, PartialEq, Eq, Structural)]
pub enum Response {
    RPL_WELCOME,
    RPL_YOURHOST,
    RPL_CREATED,
    RPL_MYINFO,
    RPL_ISUPPORT,
    RPL_LUSERCLIENT,
    RPL_ADMINME,
    RPL_LUSERME,
    RPL_USERHOST,
    RPL_ISON,
    RPL_UNAWAY,
    RPL_NOWAWAY,
    RPL_WHOISUSER,
    RPL_WHOISSERVER,
    RPL_ENDOFWHO,
    RPL_ENDOFWHOIS,
    RPL_LISTEND,
    RPL_CHANNELMODEIS,
    RPL_NOTOPIC,
    RPL_TOPIC,
    RPL_VERSION,
    RPL_NAMREPLY,
    RPL_ENDOFLINKS,
    RPL_ENDOFNAMES,
    RPL_ENDOFWHOWAS,
    RPL_INFO,
    RPL_MOTD,
    RPL_MOTDSTART,
    RPL_ENDOFMOTD,
    RPL_TIME,
    ERR_NOSUCHCHANNEL,
}

/// The three-digit code of a numeric reply.
pub open spec fn response_code(r: Response) -> u16 {
    match r {
        Response::RPL_WELCOME => 1,
        Response::RPL_YOURHOST => 2,
        Response::RPL_CREATED => 3,
        Response::RPL_MYINFO => 4,
        Response::RPL_ISUPPORT => 5,
        Response::RPL_LUSERCLIENT => 251,
        Response::RPL_ADMINME => 256,
        Response::RPL_LUSERME => 255,
        Response::RPL_USERHOST => 302,
        Response::RPL_ISON => 303,
        Response::RPL_UNAWAY => 305,
        Response::RPL_NOWAWAY => 306,
        Response::RPL_WHOISUSER => 311,
        Response::RPL_WHOISSERVER => 312,
        Response::RPL_ENDOFWHO => 315,
        Response::RPL_ENDOFWHOIS => 318,
        Response::RPL_LISTEND => 323,
        Response::RPL_CHANNELMODEIS => 324,
        Response::RPL_NOTOPIC => 331,
        Response::RPL_TOPIC => 332,
        Response::RPL_VERSION => 351,
        Response::RPL_NAMREPLY => 353,
        Response::RPL_ENDOFLINKS => 365,
        Response::RPL_ENDOFNAMES => 366,
        Response::RPL_ENDOFWHOWAS => 369,
        Response::RPL_INFO => 371,
        Response::RPL_MOTD => 372,
        Response::RPL_MOTDSTART => 375,
        Response::RPL_ENDOFMOTD => 376,
        Response::RPL_TIME => 391,
        Response::ERR_NOSUCHCHANNEL => 403,
    }
}

impl Response {
    /// The three-digit code of this reply (RFC 2812, section 5).
    pub fn code(&self) -> (c: u16)
        ensures
            c == response_code(*self),
    {
        match self {
            Response::RPL_WELCOME => 1,
            Response::RPL_YOURHOST => 2,
            Response::RPL_CREATED => 3,
            Response::RPL_MYINFO => 4,
            Response::RPL_ISUPPORT => 5,
            Response::RPL_LUSERCLIENT => 251,
            Response::RPL_ADMINME => 256,
            Response::RPL_LUSERME => 255,
            Response::RPL_USERHOST => 302,
            Response::RPL_ISON => 303,
            Response::RPL_UNAWAY => 305,
            Response::RPL_NOWAWAY => 306,
            Response::RPL_WHOISUSER => 311,
            Response::RPL_WHOISSERVER => 312,
            Response::RPL_ENDOFWHO => 315,
            Response::RPL_ENDOFWHOIS => 318,
            Response::RPL_LISTEND => 323,
            Response::RPL_CHANNELMODEIS => 324,
            Response::RPL_NOTOPIC => 331,
            Response::RPL_TOPIC => 332,
            Response::RPL_VERSION => 351,
            Response::RPL_NAMREPLY => 353,
            Response::RPL_ENDOFLINKS => 365,
            Response::RPL_ENDOFNAMES => 366,
            Response::RPL_ENDOFWHOWAS => 369,
            Response::RPL_INFO => 371,
            Response::RPL_MOTD => 372,
            Response::RPL_MOTDSTART => 375,
            Response::RPL_ENDOFMOTD => 376,
            Response::RPL_TIME => 391,
            Response::ERR_NOSUCHCHANNEL => 403,
        }
    }
}

/// An IRC command with its parameters (RFC 2812, section 3), as far as the
/// gateway tells them apart; any other command is `Raw`.
#[derive(Debug, Clone)]
pub enum CommandOf<S, L> {
    PASS(S),
    NICK(S),
    USER(S, S, S),
    UserMODE(S, L),
    QUIT(Option<S>),
    JOIN(S, Option<S>, Option<S>),
    PART(S, Option<S>),
    ChannelMODE(S, L),
    TOPIC(S, Option<S>),
    NAMES(Option<S>, Option<S>),
    LIST(Option<S>, Option<S>),
    INVITE(S, S),
    KICK(S, S, Option<S>),
    PRIVMSG(S, S),
    NOTICE(S, S),
    MOTD(Option<S>),
    LUSERS(Option<S>, Option<S>),
    VERSION(Option<S>),
    STATS(Option<S>, Option<S>),
    LINKS(Option<S>, Option<S>),
    TIME(Option<S>),
    ADMIN(Option<S>),
    INFO(Option<S>),
    WHO(Option<S>, Option<bool>),
    WHOIS(Option<S>, S),
    WHOWAS(S, Option<S>, Option<S>),
    PING(S, Option<S>),
    PONG(S, Option<S>),
    AWAY(Option<S>),
    USERHOST(L),
    ISON(L),
    CAP(Option<S>, CapSubCommand, Option<S>, Option<S>),
    Response(Response, L),
    Raw(S, L),
}

/// A message: an optional sender and a command.
#[derive(Debug, Clone)]
pub struct MessageOf<S, L> {
    pub prefix: Option<PrefixOf<S>>,
    pub command: CommandOf<S, L>,
}

pub type Prefix = PrefixOf<String>;

pub type PrefixView = PrefixOf<Seq<char>>;

pub type Command = CommandOf<String, Vec<String>>;

pub type CommandView = CommandOf<Seq<char>, Seq<Seq<char>>>;

pub type Message = MessageOf<String, Vec<String>>;

pub type MessageView = MessageOf<Seq<char>, Seq<Seq<char>>>;

impl DeepView for PrefixOf<String> {
    type V = PrefixView;

    open spec fn deep_view(&self) -> PrefixView {
        match self {
            PrefixOf::ServerName(s) => PrefixOf::ServerName(s@),
            PrefixOf::Nickname(n, u, h) => PrefixOf::Nickname(n@, u@, h@),
        }
    }
}

/// The view of an optional prefix.
pub open spec fn opt_prefix_view(p: Option<Prefix>) -> Option<PrefixView> {
    match p {
        Some(q) => Some(q.deep_view()),
        None => None,
    }
}

impl DeepView for CommandOf<String, Vec<String>> {
    type V = CommandView;

    open spec fn deep_view(&self) -> CommandView {
        match self {
            CommandOf::PASS(a) => CommandOf::PASS(a@),
            CommandOf::NICK(a) => CommandOf::NICK(a@),
            CommandOf::USER(a, b, c) => CommandOf::USER(a@, b@, c@),
            CommandOf::UserMODE(a, l) => CommandOf::UserMODE(a@, strs_view(l@)),
            CommandOf::QUIT(a) => CommandOf::QUIT(opt_view(*a)),
            CommandOf::JOIN(a, b, c) => CommandOf::JOIN(a@, opt_view(*b), opt_view(*c)),
            CommandOf::PART(a, b) => CommandOf::PART(a@, opt_view(*b)),
            CommandOf::ChannelMODE(a, l) => CommandOf::ChannelMODE(a@, strs_view(l@)),
            CommandOf::TOPIC(a, b) => CommandOf::TOPIC(a@, opt_view(*b)),
            CommandOf::NAMES(a, b) => CommandOf::NAMES(opt_view(*a), opt_view(*b)),
            CommandOf::LIST(a, b) => CommandOf::LIST(opt_view(*a), opt_view(*b)),
            CommandOf::INVITE(a, b) => CommandOf::INVITE(a@, b@),
            CommandOf::KICK(a, b, c) => CommandOf::KICK(a@, b@, opt_view(*c)),
            CommandOf::PRIVMSG(a, b) => CommandOf::PRIVMSG(a@, b@),
            CommandOf::NOTICE(a, b) => CommandOf::NOTICE(a@, b@),
            CommandOf::MOTD(a) => CommandOf::MOTD(opt_view(*a)),
            CommandOf::LUSERS(a, b) => CommandOf::LUSERS(opt_view(*a), opt_view(*b)),
            CommandOf::VERSION(a) => CommandOf::VERSION(opt_view(*a)),
            CommandOf::STATS(a, b) => CommandOf::STATS(opt_view(*a), opt_view(*b)),
            CommandOf::LINKS(a, b) => CommandOf::LINKS(opt_view(*a), opt_view(*b)),
            CommandOf::TIME(a) => CommandOf::TIME(opt_view(*a)),
            CommandOf::ADMIN(a) => CommandOf::ADMIN(opt_view(*a)),
            CommandOf::INFO(a) => CommandOf::INFO(opt_view(*a)),
            CommandOf::WHO(a, b) => CommandOf::WHO(opt_view(*a), *b),
            CommandOf::WHOIS(a, b) => CommandOf::WHOIS(opt_view(*a), b@),
            CommandOf::WHOWAS(a, b, c) => CommandOf::WHOWAS(a@, opt_view(*b), opt_view(*c)),
            CommandOf::PING(a, b) => CommandOf::PING(a@, opt_view(*b)),
            CommandOf::PONG(a, b) => CommandOf::PONG(a@, opt_view(*b)),
            CommandOf::AWAY(a) => CommandOf::AWAY(opt_view(*a)),
            CommandOf::USERHOST(l) => CommandOf::USERHOST(strs_view(l@)),
            CommandOf::ISON(l) => CommandOf::ISON(strs_view(l@)),
            CommandOf::CAP(a, s, b, c) => CommandOf::CAP(
                opt_view(*a),
                *s,
                opt_view(*b),
                opt_view(*c),
            ),
            CommandOf::Response(r, l) => CommandOf::Response(*r, strs_view(l@)),
            CommandOf::Raw(a, l) => CommandOf::Raw(a@, strs_view(l@)),
        }
    }
}

impl DeepView for MessageOf<String, Vec<String>> {
    type V = MessageView;

    open spec fn deep_view(&self) -> MessageView {
        MessageOf { prefix: opt_prefix_view(self.prefix), command: self.command.deep_view() }
    }
}

/// The message that carries `command` with no prefix (`Message::from` in IRC libraries).
pub fn message_from(command: Command) -> (m: Message)
    ensures
        m.deep_view() == (MessageOf { prefix: None, command: command.deep_view() }),
{
    MessageOf { prefix: None, command }
}

} // verus!
