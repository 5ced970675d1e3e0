use vstd::prelude::*;

use crate::models::error::Error;
use crate::models::server_config::ServerConfig;

verus! {

/// What the command line gives: where to listen, and maybe the key of the
/// remote estimator.
#[derive(Debug, Clone)]
pub struct Cli {
    /// The address of the server.
    pub address: String,
    /// The port the server listens on.
    pub port: u16,
    /// The key of the remote estimator, if given on the command line.
    pub alchemy_api_key: Option<String>,
}

/// Run configuration for the server: where it listens, and the key of the
/// remote estimator.
#[derive(Debug, Clone)]
pub struct Config {
    server: ServerConfig,
    alchemy_api_key: String,
}

impl Config {
    /// The server's part of the configuration.
    pub closed spec fn spec_server(&self) -> ServerConfig {
        self.server
    }

    /// The key of the remote estimator.
    pub closed spec fn spec_alchemy_api_key(&self) -> Seq<char> {
        self.alchemy_api_key@
    }

    /// A configuration with the given parts.
    pub fn new(server: ServerConfig, alchemy_api_key: String) -> (config: Config)
        ensures
            config.spec_server() == server,
            config.spec_alchemy_api_key() == alchemy_api_key@,
    {
        Config { server, alchemy_api_key }
    }

    /// The server's part of the configuration.
    pub fn server(&self) -> (server: &ServerConfig)
        ensures
            *server == self.spec_server(),
    {
        &self.server
    }

    /// The key of the remote estimator.
    pub fn alchemy_api_key(&self) -> (key: &String)
        ensures
            key@ == self.spec_alchemy_api_key(),
    {
        &self.alchemy_api_key
    }

    /// Returns the server address and port as one text.
    pub fn address_with_port(&self) -> (text: String)
        ensures
            text@ == self.spec_server().spec_address_with_port(),
    {
        self.server.address_with_port()
    }

    /// The configuration that the command line asks for. The key given on
    /// the command line is used if there is one, else the key found in the
    /// environment; without either there is no configuration.
    pub fn from_cli(args: Cli, key_in_environment: Option<String>) -> (result: Result<Config, Error>)
        ensures
            match result {
                Ok(config) => {
                    &&& config.spec_server().spec_address() == args.address@
                    &&& config.spec_server().spec_port() == args.port
                    &&& match args.alchemy_api_key {
                        Some(key) => config.spec_alchemy_api_key() == key@,
                        None => key_in_environment is Some && config.spec_alchemy_api_key()
                            == key_in_environment.unwrap()@,
                    }
                },
                Err(e) => e == Error::NoAlchemyApiKey && args.alchemy_api_key is None
                    && key_in_environment is None,
            },
    {
        let Cli { address, port, alchemy_api_key } = args;
        let alchemy_api_key = match alchemy_api_key {
            Some(key) => key,
            None => match key_in_environment {
                Some(key) => key,
                None => {
                    return Err(Error::NoAlchemyApiKey);
                },
            },
        };
        Ok(Config::new(ServerConfig::new(address, port), alchemy_api_key))
    }
}

impl From<Cli> for ServerConfig {
    fn from(args: Cli) -> (config: ServerConfig)
        ensures
            config.spec_address() == args.address@,
            config.spec_port() == args.port,
    {
        ServerConfig::new(args.address, args.port)
    }
}

impl vstd::std_specs::convert::FromSpecImpl<Cli> for ServerConfig {
    /// The conversion is specified over views, by the `ensures` of `from`.
    open spec fn obeys_from_spec() -> bool {
        false
    }

    open spec fn from_spec(args: Cli) -> ServerConfig {
        arbitrary()
    }
}

} // verus!
