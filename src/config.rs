use vstd::prelude::*;

use crate::response::strings_view;

verus! {

/// The server's settings.
pub struct ServerConfig {
    pub server: ServerConfigServer,
    pub client: Option<ServerConfigClient>,
}

/// Where the server listens and the name it advertises.
pub struct ServerConfigServer {
    pub listen: String,
    pub host: String,
    pub port: u16,
}

/// What every client gets on registration.
pub struct ServerConfigClient {
    pub autojoin: Option<Vec<String>>,
}

impl ServerConfig {
    /// The channels joined on registration, in order; none when not configured.
    pub open spec fn autojoin(&self) -> Option<Seq<Seq<char>>> {
        match self.client {
            Some(c) => match c.autojoin {
                Some(v) => Some(strings_view(v@)),
                None => None,
            },
            None => None,
        }
    }

    pub open spec fn host(&self) -> Seq<char> {
        self.server.host@
    }

    /// The advertised server name.
    pub fn get_host(&self) -> (r: &str)
        ensures
            r@ == self.host(),
    {
        self.server.host.as_str()
    }

    /// The address and port to listen on.
    pub fn get_addr(&self) -> (r: (&str, u16))
        ensures
            r.0@ == self.server.listen@,
            r.1 == self.server.port,
    {
        (self.server.listen.as_str(), self.server.port)
    }

    /// A copy of the autojoin channels.
    pub fn get_autojoin_channels(&self) -> (r: Option<Vec<String>>)
        ensures
            r matches Some(v) ==> self.autojoin() == Some(strings_view(v@)),
            r is None ==> self.autojoin() is None,
    {
        match &self.client {
            Some(client) => match &client.autojoin {
                Some(channels) => {
                    let mut copy: Vec<String> = Vec::new();
                    let mut i: usize = 0;
                    while i < channels.len()
                        invariant
                            0 <= i <= channels@.len(),
                            copy@ == channels@.take(i as int),
                        decreases channels@.len() - i,
                    {
                        copy.push(channels[i].clone());
                        assert(copy@ =~= channels@.take(i + 1));
                        i = i + 1;
                    }
                    assert(copy@ =~= channels@);
                    Some(copy)
                },
                None => None,
            },
            None => None,
        }
    }
}

impl Default for ServerConfigServer {
    /// Listens on 127.0.0.1:6667 and calls itself 127.0.0.1.
    fn default() -> (r: Self)
        ensures
            r.listen@ == "127.0.0.1"@,
            r.host@ == "127.0.0.1"@,
            r.port == 6667,
    {
        Self { listen: "127.0.0.1".to_owned(), host: "127.0.0.1".to_owned(), port: 6667 }
    }
}

impl Default for ServerConfigClient {
    /// Joins `#chat` on registration.
    fn default() -> (r: Self)
        ensures
            r.autojoin matches Some(v) && strings_view(v@) == seq!["#chat"@],
    {
        let v = vec!["#chat".to_owned()];
        assert(strings_view(v@) =~= seq!["#chat"@]);
        Self { autojoin: Some(v) }
    }
}

impl Default for ServerConfig {
    fn default() -> (r: Self)
        ensures
            r.server.listen@ == "127.0.0.1"@,
            r.host() == "127.0.0.1"@,
            r.server.port == 6667,
            r.autojoin() == Some(seq!["#chat"@]),
    {
        Self { server: ServerConfigServer::default(), client: Some(ServerConfigClient::default()) }
    }
}

} // verus!
