use vstd::prelude::*;

verus! {

/// Numeric reply codes of the IRC wire protocol used by this server.
pub const RPL_WELCOME: &'static str = "001";

pub const RPL_YOURHOST: &'static str = "002";

pub const RPL_TOPIC: &'static str = "332";

pub const RPL_NAMREPLY: &'static str = "353";

pub const RPL_ENDOFNAMES: &'static str = "366";

pub const RPL_MOTD: &'static str = "372";

pub const RPL_MOTDSTART: &'static str = "375";

pub const RPL_ENDOFMOTD: &'static str = "376";

pub const ERR_NOSUCHCHANNEL: &'static str = "403";

pub const ERR_NICKNAMEINUSE: &'static str = "433";

pub const ERR_NOTONCHANNEL: &'static str = "442";

} // verus!
