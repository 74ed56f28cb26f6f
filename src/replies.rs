use vstd::prelude::*;
use vstd::string::*;

use crate::protocol::{
    ERR_NICKNAMEINUSE, ERR_NOSUCHCHANNEL, ERR_NOTONCHANNEL, RPL_ENDOFMOTD, RPL_ENDOFNAMES, RPL_MOTD,
    RPL_MOTDSTART, RPL_NAMREPLY, RPL_TOPIC, RPL_WELCOME, RPL_YOURHOST,
};
use crate::response::{CommandView, ResponseView, Respond};

verus! {

/// The name and version this server reports about itself.
pub const SERVER_NAME: &'static str = "zircond";

pub const SERVER_VERSION: &'static str = "0.1.0";

/// A reply line from `source` to `target` with `command` and `params`.
pub open spec fn line(
    source: Seq<char>,
    target: Seq<char>,
    command: CommandView,
    params: Seq<Seq<char>>,
    trailing: bool,
) -> Seq<char> {
    ResponseView { source, target, command, params, trailing }.text()
}

/// `:<nick> JOIN <channel>`
pub open spec fn join_line(nick: Seq<char>, channel: Seq<char>) -> Seq<char> {
    line(nick, nick, CommandView::Name("JOIN"@), seq![channel], false)
}

/// `:<host> 332 <nick> <channel> :<topic>`
pub open spec fn topic_line(host: Seq<char>, nick: Seq<char>, channel: Seq<char>, topic: Seq<char>) -> Seq<
    char,
> {
    line(host, nick, CommandView::Code(RPL_TOPIC@), seq![channel, topic], true)
}

/// `:<host> 353 <nick> = <channel> :<member>`
pub open spec fn names_line(host: Seq<char>, nick: Seq<char>, channel: Seq<char>, member: Seq<char>) -> Seq<
    char,
> {
    line(host, nick, CommandView::Code(RPL_NAMREPLY@), seq!["="@, channel, ""@ + member], true)
}

/// `:<host> 366 <nick> <channel> :End of /NAMES list.`
pub open spec fn names_end_line(host: Seq<char>, nick: Seq<char>, channel: Seq<char>) -> Seq<char> {
    line(
        host,
        nick,
        CommandView::Code(RPL_ENDOFNAMES@),
        seq![channel, "End of /NAMES list."@],
        true,
    )
}

/// `:<nick> PART <channel> :<reason>`
pub open spec fn part_line(nick: Seq<char>, channel: Seq<char>, reason: Seq<char>) -> Seq<char> {
    line(nick, nick, CommandView::Name("PART"@), seq![channel, reason], true)
}

/// `:<source> PRIVMSG <target> :<text>`
pub open spec fn privmsg_line(source: Seq<char>, target: Seq<char>, text: Seq<char>) -> Seq<char> {
    line(source, target, CommandView::Name("PRIVMSG"@), seq![target, text], true)
}

/// `:<host> PONG <host> :<challenge>`
pub open spec fn pong_line(host: Seq<char>, nick: Seq<char>, challenge: Seq<char>) -> Seq<char> {
    line(host, nick, CommandView::Name("PONG"@), seq![host, challenge], true)
}

/// `:<host> 433 <current> <nick> :Nickname is already in use.`
pub open spec fn nick_in_use_line(host: Seq<char>, current: Seq<char>, nick: Seq<char>) -> Seq<char> {
    line(
        host,
        current,
        CommandView::Code(ERR_NICKNAMEINUSE@),
        seq![nick, "Nickname is already in use."@],
        true,
    )
}

/// `:<host> 442 <nick> <channel> :You're not on that channel.`
pub open spec fn not_on_channel_line(host: Seq<char>, nick: Seq<char>, channel: Seq<char>) -> Seq<char> {
    line(
        host,
        nick,
        CommandView::Code(ERR_NOTONCHANNEL@),
        seq![channel, "You're not on that channel."@],
        true,
    )
}

/// `:<host> 403 <nick> <channel> :No such channel.`
pub open spec fn no_such_channel_line(host: Seq<char>, nick: Seq<char>, channel: Seq<char>) -> Seq<
    char,
> {
    line(host, nick, CommandView::Code(ERR_NOSUCHCHANNEL@), seq![channel, "No such channel."@], true)
}

/// The welcome sequence: 001, 002, 375, two 372 lines and 376.
pub open spec fn welcome_lines(host: Seq<char>, nick: Seq<char>) -> Seq<Seq<char>> {
    seq![
        line(host, nick, CommandView::Code(RPL_WELCOME@), seq!["Welcome, "@ + nick + "!"@], true),
        line(
            host,
            nick,
            CommandView::Code(RPL_YOURHOST@),
            seq!["Your host is "@ + host + ", running "@ + SERVER_NAME@ + "."@],
            true,
        ),
        line(
            host,
            nick,
            CommandView::Code(RPL_MOTDSTART@),
            seq![seq![':'] + host + " Message of the day"@],
            false,
        ),
        line(
            host,
            nick,
            CommandView::Code(RPL_MOTD@),
            seq![seq![':', '-', ' '] + SERVER_NAME@ + " v"@ + SERVER_VERSION@],
            false,
        ),
        line(
            host,
            nick,
            CommandView::Code(RPL_MOTD@),
            seq![seq![':', '-', ' '] + SERVER_NAME@ + " is open source."@],
            false,
        ),
        line(host, nick, CommandView::Code(RPL_ENDOFMOTD@), seq!["End of MOTD."@], true),
    ]
}

pub fn make_join_line(nick: &str, channel: &str) -> (r: String)
    ensures
        r@ == join_line(nick@, channel@),
{
    let b = Respond::to(nick, nick).join(channel.to_owned());
    assert(b@.params =~= seq![channel@]);
    let r = b.to_string();
    assert(r@ =~= join_line(nick@, channel@));
    r
}

pub fn make_topic_line(host: &str, nick: &str, channel: &str, topic: &str) -> (r: String)
    ensures
        r@ == topic_line(host@, nick@, channel@, topic@),
{
    let b = Respond::to(host, nick).topic(channel.to_owned(), topic.to_owned());
    assert(b@.params =~= seq![channel@, topic@]);
    let r = b.to_string();
    assert(r@ =~= topic_line(host@, nick@, channel@, topic@));
    r
}

pub fn make_names_line(host: &str, nick: &str, channel: &str, member: &str) -> (r: String)
    ensures
        r@ == names_line(host@, nick@, channel@, member@),
{
    let b = Respond::to(host, nick).names_reply("=", channel, "", member);
    assert(b@.params =~= seq!["="@, channel@, ""@ + member@]);
    let r = b.to_string();
    assert(r@ =~= names_line(host@, nick@, channel@, member@));
    r
}

pub fn make_names_end_line(host: &str, nick: &str, channel: &str) -> (r: String)
    ensures
        r@ == names_end_line(host@, nick@, channel@),
{
    let b = Respond::to(host, nick).names_end(channel);
    assert(b@.params =~= seq![channel@, "End of /NAMES list."@]);
    let r = b.to_string();
    assert(r@ =~= names_end_line(host@, nick@, channel@));
    r
}

pub fn make_part_line(nick: &str, channel: &str, reason: &str) -> (r: String)
    ensures
        r@ == part_line(nick@, channel@, reason@),
{
    let b = Respond::to(nick, nick).part(channel.to_owned(), reason.to_owned());
    assert(b@.params =~= seq![channel@, reason@]);
    let r = b.to_string();
    assert(r@ =~= part_line(nick@, channel@, reason@));
    r
}

pub fn make_privmsg_line(source: &str, target: &str, text: &str) -> (r: String)
    ensures
        r@ == privmsg_line(source@, target@, text@),
{
    let b = Respond::to(source, target).privmsg(text.to_owned());
    assert(b@.params =~= seq![target@, text@]);
    let r = b.to_string();
    assert(r@ =~= privmsg_line(source@, target@, text@));
    r
}

pub fn make_pong_line(host: &str, nick: &str, challenge: &str) -> (r: String)
    ensures
        r@ == pong_line(host@, nick@, challenge@),
{
    let b = Respond::to(host, nick).pong(challenge.to_owned());
    assert(b@.params =~= seq![host@, challenge@]);
    let r = b.to_string();
    assert(r@ =~= pong_line(host@, nick@, challenge@));
    r
}

pub fn make_nick_in_use_line(host: &str, current: &str, nick: &str) -> (r: String)
    ensures
        r@ == nick_in_use_line(host@, current@, nick@),
{
    let b = Respond::to(host, current).err_nickname_in_use(nick.to_owned());
    assert(b@.params =~= seq![nick@, "Nickname is already in use."@]);
    let r = b.to_string();
    assert(r@ =~= nick_in_use_line(host@, current@, nick@));
    r
}

pub fn make_not_on_channel_line(host: &str, nick: &str, channel: &str) -> (r: String)
    ensures
        r@ == not_on_channel_line(host@, nick@, channel@),
{
    let b = Respond::to(host, nick).err_not_on_channel(channel.to_owned());
    assert(b@.params =~= seq![channel@, "You're not on that channel."@]);
    let r = b.to_string();
    assert(r@ =~= not_on_channel_line(host@, nick@, channel@));
    r
}

pub fn make_no_such_channel_line(host: &str, nick: &str, channel: &str) -> (r: String)
    ensures
        r@ == no_such_channel_line(host@, nick@, channel@),
{
    let b = Respond::to(host, nick).err_no_such_channel(channel.to_owned());
    assert(b@.params =~= seq![channel@, "No such channel."@]);
    let r = b.to_string();
    assert(r@ =~= no_such_channel_line(host@, nick@, channel@));
    r
}

/// The six lines of the welcome sequence, in order.
pub fn make_welcome_lines(host: &str, nick: &str) -> (r: Vec<String>)
    ensures
        crate::response::strings_view(r@) == welcome_lines(host@, nick@),
{
    let mut greeting = "Welcome, ".to_owned();
    greeting.append(nick);
    greeting.append("!");
    let mut about = "Your host is ".to_owned();
    about.append(host);
    about.append(", running ");
    about.append(SERVER_NAME);
    about.append(".");
    let mut version = SERVER_NAME.to_owned();
    version.append(" v");
    version.append(SERVER_VERSION);
    let mut source = SERVER_NAME.to_owned();
    source.append(" is open source.");
    let ghost expected = welcome_lines(host@, nick@);
    let b = Respond::to(host, nick).welcome(greeting);
    assert(b@.params =~= seq!["Welcome, "@ + nick@ + "!"@]);
    let l0 = b.to_string();
    assert(l0@ =~= expected[0]);
    let b = Respond::to(host, nick).your_host(about);
    assert(b@.params =~= seq!["Your host is "@ + host@ + ", running "@ + SERVER_NAME@ + "."@]);
    let l1 = b.to_string();
    assert(l1@ =~= expected[1]);
    let b = Respond::to(host, nick).motd_start();
    assert(b@.params =~= seq![seq![':'] + host@ + " Message of the day"@]);
    let l2 = b.to_string();
    assert(l2@ =~= expected[2]);
    assert(seq![':', '-', ' '] + version@ =~= seq![':', '-', ' '] + SERVER_NAME@ + " v"@
        + SERVER_VERSION@);
    assert(seq![':', '-', ' '] + source@ =~= seq![':', '-', ' '] + SERVER_NAME@
        + " is open source."@);
    let b = Respond::to(host, nick).motd(version.as_str());
    assert(b@.params =~= seq![seq![':', '-', ' '] + SERVER_NAME@ + " v"@ + SERVER_VERSION@]);
    let l3 = b.to_string();
    assert(l3@ =~= expected[3]);
    let b = Respond::to(host, nick).motd(source.as_str());
    assert(b@.params =~= seq![seq![':', '-', ' '] + SERVER_NAME@ + " is open source."@]);
    let l4 = b.to_string();
    assert(l4@ =~= expected[4]);
    let b = Respond::to(host, nick).motd_end();
    assert(b@.params =~= seq!["End of MOTD."@]);
    let l5 = b.to_string();
    assert(l5@ =~= expected[5]);
    let r = vec![l0, l1, l2, l3, l4, l5];
    assert(crate::response::strings_view(r@) =~= welcome_lines(host@, nick@));
    r
}

} // verus!
