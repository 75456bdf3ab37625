//! The settings of a node. The program around this library reads them from
//! the environment; a setting that is not given takes its default.

use vstd::prelude::*;

verus! {

/// The settings of a node.
#[derive(Debug, PartialEq)]
pub struct Config {
    /// `NODE_TYPE`: the name of the node type to bind to at the start.
    pub node_type: String,
    /// `STORE_TYPE`: the kind of store; only `redis` is known.
    pub store_type: String,
    /// `REDIS_HOST`.
    pub redis_host: String,
    /// `REDIS_PORT`.
    pub redis_port: String,
    /// `REDIS_DATABASE`.
    pub redis_database: String,
    /// `HTTP_SERVER_ENABLED`: the control plane is started where this is `true`.
    pub http_server_enabled: String,
    /// `HTTP_BIND_ADDRESS`.
    pub http_bind_address: String,
    /// `HTTP_API_KEY`: the bearer token that requests must carry.
    pub http_api_key: String,
}

/// The value of a setting: what was given, or the default.
pub fn default_env(given: Option<String>, default: &str) -> (value: String)
    ensures
        value@ == match given {
            Some(text) => text@,
            None => default@,
        },
{
    match given {
        Some(text) => text,
        None => String::from_str(default),
    }
}

/// The address of the server, as the client library takes it:
/// `redis://host:port/database`.
pub open spec fn server_address(
    host: Seq<char>,
    port: Seq<char>,
    database: Seq<char>,
) -> Seq<char> {
    "redis://"@ + host + ":"@ + port + "/"@ + database
}

impl Config {
    /// The settings, from what the environment gives.
    pub fn from_values(
        node_type: Option<String>,
        store_type: Option<String>,
        redis_host: Option<String>,
        redis_port: Option<String>,
        redis_database: Option<String>,
        http_server_enabled: Option<String>,
        http_bind_address: Option<String>,
        http_api_key: Option<String>,
    ) -> (config: Config)
        ensures
            config.node_type@ == (match node_type {
                Some(text) => text@,
                None => "default"@,
            }),
            config.store_type@ == (match store_type {
                Some(text) => text@,
                None => "redis"@,
            }),
            config.redis_host@ == (match redis_host {
                Some(text) => text@,
                None => "127.0.0.1"@,
            }),
            config.redis_port@ == (match redis_port {
                Some(text) => text@,
                None => "6379"@,
            }),
            config.redis_database@ == (match redis_database {
                Some(text) => text@,
                None => ""@,
            }),
            config.http_server_enabled@ == (match http_server_enabled {
                Some(text) => text@,
                None => "true"@,
            }),
            config.http_bind_address@ == (match http_bind_address {
                Some(text) => text@,
                None => "127.0.0.1:23071"@,
            }),
            config.http_api_key@ == (match http_api_key {
                Some(text) => text@,
                None => "dev_key"@,
            }),
    {
        Config {
            node_type: default_env(node_type, "default"),
            store_type: default_env(store_type, "redis"),
            redis_host: default_env(redis_host, "127.0.0.1"),
            redis_port: default_env(redis_port, "6379"),
            redis_database: default_env(redis_database, ""),
            http_server_enabled: default_env(http_server_enabled, "true"),
            http_bind_address: default_env(http_bind_address, "127.0.0.1:23071"),
            http_api_key: default_env(http_api_key, "dev_key"),
        }
    }

    /// The address of the server.
    pub fn redis_url(&self) -> (url: String)
        ensures
            url@ == server_address(self.redis_host@, self.redis_port@, self.redis_database@),
    {
        let mut url = String::from_str("redis://");
        url.append(self.redis_host.as_str());
        url.append(":");
        url.append(self.redis_port.as_str());
        url.append("/");
        url.append(self.redis_database.as_str());
        url
    }

    /// Whether the control plane is to be started.
    pub fn http_enabled(&self) -> (enabled: bool)
        ensures
            enabled == (self.http_server_enabled@ == "true"@),
    {
        self.http_server_enabled == String::from_str("true")
    }
}

} // verus!
