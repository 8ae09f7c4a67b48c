//! Configuration merging and the node handle.

use tx_submit_errors::cli::{Args, Config, EnvOverrides, LogLevel, Mode, Network};
use tx_submit_errors::node::{sync_is_current, sync_ratio_parts, Node};

fn base_args() -> Args {
    Args {
        server_address: "0.0.0.0".to_string(),
        server_port: 3000,
        network: Network::Preview,
        log_level: LogLevel::Info,
        node_socket_path: "/run/node.socket".to_string(),
        mode: Mode::Compact,
        solitary: false,
        secret: Some("secret-value".to_string()),
        reward_address: Some("addr1qxy".to_string()),
        metrics: true,
    }
}

fn no_env() -> EnvOverrides {
    EnvOverrides {
        server_address: None,
        server_port: None,
        node_socket_path: None,
        network: None,
        log_level: None,
        mode: None,
        metrics: None,
        reward_address: None,
        secret: None,
    }
}

#[test]
fn arguments_stand_without_overrides() {
    let config = Config::from_args(base_args(), no_env());
    assert_eq!(config.server_address, "0.0.0.0");
    assert_eq!(config.server_port, 3000);
    assert_eq!(config.node_socket_path, "/run/node.socket");
    assert_eq!(config.network_magic, 2);
    assert_eq!(config.max_pool_connections, 10);
    assert!(config.metrics);
    let icebreakers = config.icebreakers_config.expect("not solitary");
    assert_eq!(icebreakers.reward_address, "addr1qxy");
    assert_eq!(icebreakers.secret, "secret-value");
}

#[test]
fn environment_wins_field_by_field() {
    let env = EnvOverrides {
        server_address: Some("127.0.0.1".to_string()),
        server_port: Some(8080),
        node_socket_path: Some("/tmp/other.socket".to_string()),
        network: Some(Network::Mainnet),
        log_level: Some(LogLevel::Debug),
        mode: Some(Mode::Full),
        metrics: Some(false),
        reward_address: Some("addr1other".to_string()),
        secret: Some("secret-value".to_string()),
    };
    let config = Config::from_args(base_args(), env);
    assert_eq!(config.server_address, "127.0.0.1");
    assert_eq!(config.server_port, 8080);
    assert_eq!(config.node_socket_path, "/tmp/other.socket");
    assert_eq!(config.network_magic, 764824073);
    assert!(!config.metrics);
    let icebreakers = config.icebreakers_config.expect("not solitary");
    assert_eq!(icebreakers.reward_address, "addr1other");
}

#[test]
fn solitary_mode_drops_registration() {
    let mut args = base_args();
    args.solitary = true;
    let config = Config::from_args(args, no_env());
    assert!(config.icebreakers_config.is_none());
}

#[test]
fn network_magics_are_well_known() {
    assert_eq!(Config::get_network_magic(&Network::Mainnet), 764824073);
    assert_eq!(Config::get_network_magic(&Network::Preprod), 1);
    assert_eq!(Config::get_network_magic(&Network::Preview), 2);
}

#[test]
fn mode_names() {
    assert_eq!(Mode::Compact.name(), "compact");
    assert_eq!(Mode::Light.name(), "light");
    assert_eq!(Mode::Full.name(), "full");
}

#[test]
fn node_keeps_its_endpoint() {
    let node = Node::new("/run/node.socket", 764824073);
    assert_eq!(node.socket, "/run/node.socket");
    assert_eq!(node.network_magic, 764824073);
}

#[test]
fn sync_estimation_caps_the_tip_at_now() {
    assert!(sync_is_current(1000, 990, 60));
    assert!(sync_is_current(1000, 5000, 60));
    assert!(!sync_is_current(1000, 900, 60));
    assert_eq!(sync_ratio_parts(1000, 900, 0), (900, 1000));
    assert_eq!(sync_ratio_parts(1000, 5000, 0), (1000, 1000));
    assert_eq!(sync_ratio_parts(1000, 900, 500), (400, 500));
}
