use gb_gba_emu::link::{LinkAction, NetworkMode, NetworkSettings};

#[test]
fn modes_cycle_through_three_roles() {
    let mut mode = NetworkMode::Off;
    let mut labels = Vec::new();
    for _ in 0..3 {
        mode = mode.next();
        labels.push(mode.label());
    }
    assert_eq!(labels, vec!["Server", "Client", "None"]);
    assert_eq!(mode, NetworkMode::Off);
}

#[test]
fn default_settings() {
    let settings = NetworkSettings::default();
    assert_eq!(settings.mode, NetworkMode::Off);
    assert_eq!(settings.host, "127.0.0.1");
    assert_eq!(settings.port, 1337);
    assert_eq!(settings.status, "Disabled");
    assert!(!settings.is_connected);
}

#[test]
fn toggle_mode_sets_the_status_of_the_role() {
    let mut settings = NetworkSettings::default();
    settings.toggle_mode();
    assert_eq!(settings.mode, NetworkMode::Server);
    assert_eq!(settings.status, "Server mode, press C to bind");
    settings.toggle_mode();
    assert_eq!(settings.status, "Client mode, press C to connect");
    settings.toggle_mode();
    assert_eq!(settings.mode, NetworkMode::Off);
    assert_eq!(settings.status, "Disabled");
}

#[test]
fn cycle_host_goes_round_three_hosts() {
    let mut settings = NetworkSettings::default();
    settings.cycle_host();
    assert_eq!(settings.host, "localhost");
    assert_eq!(settings.status, "Host set to localhost");
    settings.cycle_host();
    assert_eq!(settings.host, "0.0.0.0");
    settings.cycle_host();
    assert_eq!(settings.host, "127.0.0.1");
    settings.host = "example.org".to_string();
    settings.cycle_host();
    assert_eq!(settings.host, "127.0.0.1");
}

#[test]
fn change_port_stays_in_range() {
    let mut settings = NetworkSettings::default();
    settings.change_port(1);
    assert_eq!(settings.port, 1338);
    assert_eq!(settings.status, "Port set to 1338");
    settings.port = 0;
    settings.status = "before".to_string();
    settings.change_port(-1);
    assert_eq!(settings.port, 0);
    assert_eq!(settings.status, "before");
    settings.port = 65535;
    settings.change_port(1);
    assert_eq!(settings.port, 65535);
}

#[test]
fn disconnect_clears_the_connection() {
    let mut settings = NetworkSettings::default();
    settings.connected_to("10.0.0.2:4000");
    assert!(settings.is_connected);
    assert_eq!(settings.status, "Connected to 10.0.0.2:4000");
    settings.disconnect();
    assert!(!settings.is_connected);
    assert_eq!(settings.status, "Disconnected");
}

#[test]
fn start_connect_follows_the_role() {
    let mut settings = NetworkSettings::default();
    assert!(matches!(settings.start_connect(), LinkAction::Idle));
    assert_eq!(settings.status, "Link disabled");
    settings.toggle_mode();
    assert!(settings.accepts_peers());
    match settings.start_connect() {
        LinkAction::Listen { port } => assert_eq!(port, 1337),
        other => panic!("unexpected {other:?}"),
    }
    settings.listening();
    assert_eq!(settings.status, "Listening on 1337");
    settings.toggle_mode();
    assert!(!settings.accepts_peers());
    match settings.start_connect() {
        LinkAction::Dial { address } => assert_eq!(address, "127.0.0.1:1337"),
        other => panic!("unexpected {other:?}"),
    }
}
