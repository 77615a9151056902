# kovi-plugin-irc-gateway

An IRC gateway for QQ, as a kovi (OneBot) plugin: IRC clients connect over
TCP, register, join QQ groups as `#<group_id>` channels, and exchange messages
with QQ groups and users.

- `src/` is the verified library.
  - `irc_message.rs`: IRC prefixes, commands and messages as plain values,
    generic over the string type so that each has a `Seq<char>` view.
  - `irc_proto.rs`: the replies the server builds, PRIVMSG targets, the
    registration state, and `rvs_plan_irc_command`, which turns a client
    command into the effects it asks of the connection.
  - `calendar.rs`: Unix time to ISO 8601, against a calendar specification.
  - `irc_handler.rs`: JOIN channel lists, the connection's state under each
    effect, and QQ messages rendered as IRC messages.
  - `onebot.rs`: QQ message segments, emoji, sender names, and image files
    decoded (`image`) and rendered as ASCII art (`rascii_art`).
  - `text.rs`: character classes, splitting, trimming, decimal numbers.
  - `laws.rs`: the registration protocol over any sequence of commands, and
    the agreement between channel, group and target names.
- `app/` is the plugin around it: configuration, the TCP server, the IRC codec
  (`irc-proto`), the OneBot API calls (kovi) and reading files.
- `tests/` runs the library on concrete values.
