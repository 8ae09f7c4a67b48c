//! Configuration: the command-line arguments as plain values, the
//! environment overrides that take precedence over them, and the merge
//! of the two into the running configuration.

use vstd::prelude::*;

verus! {

/// How much of the chain the service keeps.
pub enum Mode {
    Compact,
    Light,
    Full,
}

/// The network the service runs against.
pub enum Network {
    Mainnet,
    Preprod,
    Preview,
}

/// The logging threshold.
pub enum LogLevel {
    Debug,
    Info,
    Warn,
    Error,
    Trace,
}

/// The command-line arguments, already parsed into plain values.
pub struct Args {
    pub server_address: String,
    pub server_port: u16,
    pub network: Network,
    pub log_level: LogLevel,
    pub node_socket_path: String,
    pub mode: Mode,
    pub solitary: bool,
    pub secret: Option<String>,
    pub reward_address: Option<String>,
    pub metrics: bool,
}

/// Environment overrides; a present value wins over the argument.
pub struct EnvOverrides {
    pub server_address: Option<String>,
    pub server_port: Option<u16>,
    pub node_socket_path: Option<String>,
    pub network: Option<Network>,
    pub log_level: Option<LogLevel>,
    pub mode: Option<Mode>,
    pub metrics: Option<bool>,
    pub reward_address: Option<String>,
    pub secret: Option<String>,
}

/// The registration settings used when not running solitary.
pub struct IcebreakersConfig {
    pub reward_address: String,
    pub secret: String,
}

/// The merged running configuration.
pub struct Config {
    pub server_address: String,
    pub server_port: u16,
    pub log_level: LogLevel,
    pub network_magic: u64,
    pub node_socket_path: String,
    pub mode: Mode,
    pub icebreakers_config: Option<IcebreakersConfig>,
    pub max_pool_connections: usize,
    pub network: Network,
    pub metrics: bool,
}

/// The well-known network magic of each supported network.
pub open spec fn spec_network_magic(network: Network) -> u64 {
    match network {
        Network::Mainnet => 764824073,
        Network::Preprod => 1,
        Network::Preview => 2,
    }
}

/// A present override wins; otherwise the argument stands.
pub open spec fn spec_override<T>(over: Option<T>, arg: T) -> T {
    match over {
        Some(v) => v,
        None => arg,
    }
}

impl Config {
    /// The well-known network magic of a supported network.
    pub fn get_network_magic(network: &Network) -> (r: u64)
        ensures
            r == spec_network_magic(*network),
    {
        match network {
            Network::Mainnet => 764824073,
            Network::Preprod => 1,
            Network::Preview => 2,
        }
    }

    /// Merges arguments and environment overrides into the running
    /// configuration.  Registration settings are kept only when not
    /// running solitary and both the reward address and the secret are
    /// given; the environment wins field by field.
    pub fn from_args(args: Args, env: EnvOverrides) -> (r: Config)
        ensures
            r.server_address == spec_override(env.server_address, args.server_address),
            r.server_port == spec_override(env.server_port, args.server_port),
            r.node_socket_path == spec_override(env.node_socket_path, args.node_socket_path),
            r.network == spec_override(env.network, args.network),
            r.log_level == spec_override(env.log_level, args.log_level),
            r.mode == spec_override(env.mode, args.mode),
            r.metrics == spec_override(env.metrics, args.metrics),
            r.network_magic == spec_network_magic(spec_override(env.network, args.network)),
            r.max_pool_connections == 10,
            match r.icebreakers_config {
                Some(cfg) => !args.solitary && args.reward_address is Some && args.secret is Some
                    && cfg.reward_address == spec_override(
                    env.reward_address,
                    args.reward_address.unwrap(),
                ) && cfg.secret == spec_override(env.secret, args.secret.unwrap()),
                None => args.solitary || args.reward_address is None || args.secret is None,
            },
    {
        let Args {
            server_address,
            server_port,
            network,
            log_level,
            node_socket_path,
            mode,
            solitary,
            secret,
            reward_address,
            metrics,
        } = args;
        let server_address = match env.server_address {
            Some(v) => v,
            None => server_address,
        };
        let server_port = match env.server_port {
            Some(v) => v,
            None => server_port,
        };
        let node_socket_path = match env.node_socket_path {
            Some(v) => v,
            None => node_socket_path,
        };
        let network = match env.network {
            Some(v) => v,
            None => network,
        };
        let log_level = match env.log_level {
            Some(v) => v,
            None => log_level,
        };
        let mode = match env.mode {
            Some(v) => v,
            None => mode,
        };
        let metrics = match env.metrics {
            Some(v) => v,
            None => metrics,
        };
        let icebreakers_config = if solitary {
            None
        } else {
            match (reward_address, secret) {
                (Some(ra), Some(sec)) => {
                    let reward_address = match env.reward_address {
                        Some(v) => v,
                        None => ra,
                    };
                    let secret = match env.secret {
                        Some(v) => v,
                        None => sec,
                    };
                    Some(IcebreakersConfig { reward_address, secret })
                },
                _ => None,
            }
        };
        let network_magic = Config::get_network_magic(&network);
        Config {
            max_pool_connections: 10,
            server_address,
            server_port,
            log_level,
            network_magic,
            node_socket_path,
            mode,
            icebreakers_config,
            network,
            metrics,
        }
    }
}

impl Mode {
    /// The lower-case name the mode prints as.
    pub fn name(&self) -> (r: String)
        ensures
            r@ == (match *self {
                Mode::Compact => "compact"@,
                Mode::Light => "light"@,
                Mode::Full => "full"@,
            }),
    {
        let mut s = String::new();
        match self {
            Mode::Compact => s.append("compact"),
            Mode::Light => s.append("light"),
            Mode::Full => s.append("full"),
        }
        s
    }
}

} // verus!
