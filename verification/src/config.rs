//! The list of configured servers and which of them is active.

use vstd::prelude::*;

verus! {

/// How to reach one server.
#[derive(Debug, PartialEq, Eq)]
pub struct ServerConfig {
    /// Display name of this configuration.
    pub name: String,
    /// The server's URL, such as `http://localhost:8000`.
    pub server_url: String,
    /// Authentication token; empty for none.
    pub auth_token: String,
    /// Which header carries the token: `authorization` (as a bearer token)
    /// or `x-chroma-token`.
    pub auth_header_type: String,
    /// Tenant name.
    pub tenant: String,
    /// Database name.
    pub database: String,
}

/// `config` has the default settings, under the name `name`.
pub open spec fn is_default_named(config: ServerConfig, name: Seq<char>) -> bool {
    &&& config.name@ == name
    &&& config.server_url@ == "http://localhost:8000"@
    &&& config.auth_token@ == Seq::<char>::empty()
    &&& config.auth_header_type@ == "authorization"@
    &&& config.tenant@ == "default_tenant"@
    &&& config.database@ == "default_database"@
}

/// `config` is the default configuration: a local server without a token.
pub open spec fn is_default_config(config: ServerConfig) -> bool {
    is_default_named(config, "Local Server"@)
}

impl Clone for ServerConfig {
    fn clone(&self) -> (copy: Self)
        ensures
            copy == *self,
    {
        ServerConfig {
            name: self.name.clone(),
            server_url: self.server_url.clone(),
            auth_token: self.auth_token.clone(),
            auth_header_type: self.auth_header_type.clone(),
            tenant: self.tenant.clone(),
            database: self.database.clone(),
        }
    }
}

impl Default for ServerConfig {
    fn default() -> (config: Self)
        ensures
            is_default_config(config),
    {
        ServerConfig::new("Local Server")
    }
}

impl ServerConfig {
    /// The default configuration under another name.
    pub fn new(name: &str) -> (config: Self)
        ensures
            is_default_named(config, name@),
    {
        ServerConfig {
            name: name.to_owned(),
            server_url: "http://localhost:8000".to_owned(),
            auth_token: String::new(),
            auth_header_type: "authorization".to_owned(),
            tenant: "default_tenant".to_owned(),
            database: "default_database".to_owned(),
        }
    }
}

/// The configured servers. `active_server` is meant to index `servers`, and
/// `servers` is meant never to be empty; the accessors fall back to the first
/// server where the index is out of range.
#[derive(Debug, Clone, PartialEq, Eq)]
pub struct Config {
    /// The server configurations.
    pub servers: Vec<ServerConfig>,
    /// The index of the active configuration.
    pub active_server: usize,
}

impl Default for Config {
    fn default() -> (config: Self)
        ensures
            config.servers@.len() == 1,
            is_default_config(config.servers@[0]),
            config.active_server == 0,
    {
        let mut servers: Vec<ServerConfig> = Vec::new();
        servers.push(ServerConfig::default());
        Config { servers, active_server: 0 }
    }
}

impl Config {
    /// The index that the accessors use: `active_server` where it is in
    /// range, else 0.
    pub open spec fn active_index(&self) -> int {
        if self.active_server < self.servers@.len() {
            self.active_server as int
        } else {
            0
        }
    }

    /// The active server configuration, or the first one if the active
    /// index is out of range.
    pub fn active_config(&self) -> (config: &ServerConfig)
        requires
            self.servers@.len() > 0,
        ensures
            *config == self.servers@[self.active_index()],
    {
        if self.active_server < self.servers.len() {
            &self.servers[self.active_server]
        } else {
            &self.servers[0]
        }
    }

    /// The active server configuration, for changing it. An empty list first
    /// gets the default configuration, and an active index out of range is
    /// reset to 0.
    pub fn active_config_mut(&mut self) -> (config: &mut ServerConfig)
        ensures
            old(self).servers@.len() == 0 ==> {
                &&& is_default_config(*config)
                &&& final(self).active_server == 0
                &&& final(self).servers@ == seq![*final(config)]
            },
            old(self).servers@.len() > 0 ==> {
                &&& *config == old(self).servers@[old(self).active_index()]
                &&& final(self).active_server == old(self).active_index()
                &&& final(self).servers@ == old(self).servers@.update(
                    old(self).active_index(),
                    *final(config),
                )
            },
    {
        if self.servers.len() == 0 {
            self.servers.push(ServerConfig::default());
            self.active_server = 0;
        }
        if self.active_server >= self.servers.len() {
            self.active_server = 0;
        }
        let index: usize = self.active_server;
        proof {
            if old(self).servers@.len() == 0 {
                assert(self.servers@ =~= seq![self.servers@[0]]);
            }
        }
        &mut self.servers[index]
    }

    /// Appends a server configuration and returns its index.
    pub fn add_server(&mut self, config: ServerConfig) -> (index: usize)
        ensures
            final(self).servers@ == old(self).servers@.push(config),
            final(self).active_server == old(self).active_server,
            index == old(self).servers@.len(),
    {
        self.servers.push(config);
        self.servers.len() - 1
    }

    /// Removes the server configuration at `index`. The last remaining
    /// configuration is never removed, and an index out of range removes
    /// nothing. The active index keeps naming the same configuration where
    /// that one is still there, and the last one otherwise.
    pub fn remove_server(&mut self, index: usize) -> (removed: bool)
        ensures
            removed == (old(self).servers@.len() > 1 && index < old(self).servers@.len()),
            removed ==> final(self).servers@ == old(self).servers@.remove(index as int),
            removed ==> final(self).active_server as int == (if old(self).active_server
                >= old(self).servers@.len() - 1 {
                old(self).servers@.len() - 2
            } else if old(self).active_server > index {
                old(self).active_server - 1
            } else {
                old(self).active_server as int
            }),
            !removed ==> *final(self) == *old(self),
    {
        if self.servers.len() <= 1 {
            return false;
        }
        if index < self.servers.len() {
            self.servers.remove(index);
            if self.active_server >= self.servers.len() {
                self.active_server = self.servers.len() - 1;
            } else if self.active_server > index {
                self.active_server -= 1;
            }
            true
        } else {
            false
        }
    }

    /// Makes the configuration at `index` the active one, if there is one.
    pub fn switch_active_server(&mut self, index: usize) -> (switched: bool)
        ensures
            switched == (index < old(self).servers@.len()),
            final(self).servers == old(self).servers,
            final(self).active_server == (if switched {
                index
            } else {
                old(self).active_server
            }),
    {
        if index < self.servers.len() {
            self.active_server = index;
            true
        } else {
            false
        }
    }
}

} // verus!
