pub mod calendar;
pub mod irc_handler;
pub mod irc_message;
pub mod irc_proto;
pub mod laws;
pub mod onebot;
pub mod text;
