use vstd::prelude::*;

use crate::channel_list::ChannelList;
use crate::config::ServerConfig;
use crate::state::{empty_state, Out, ServerView};
use crate::user_list::UserList;

verus! {

/// One line to write to one client's connection.
pub struct Outbound {
    pub client_id: usize,
    pub line: String,
}

impl View for Outbound {
    type V = Out;

    open spec fn view(&self) -> Out {
        (self.client_id, self.line@)
    }
}

pub open spec fn outs_view(v: Seq<Outbound>) -> Seq<Out> {
    v.map_values(|o: Outbound| o@)
}

/// The dispatcher's state: the configuration and the two registries.
pub struct Server {
    pub config: ServerConfig,
    pub users: UserList,
    pub channels: ChannelList,
}

impl Server {
    pub open spec fn state(&self) -> ServerView {
        ServerView { users: self.users@, channels: self.channels@ }
    }

    /// The configured autojoin channels; none when not configured.
    pub open spec fn autojoin(&self) -> Seq<Seq<char>> {
        match self.config.autojoin() {
            Some(v) => v,
            None => Seq::empty(),
        }
    }

    /// A server with empty registries.
    pub fn new(config: ServerConfig) -> (r: Self)
        ensures
            r.config == config,
            r.state() == empty_state(),
    {
        Self { config, users: UserList::new(), channels: ChannelList::new() }
    }
}

} // verus!
