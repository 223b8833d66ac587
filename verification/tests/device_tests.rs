use rust_tier::clock::current_timestamp_millis;
use rust_tier::config::{Config, LogConfig};
use rust_tier::device::{DeviceConfig, Ipv4Net, Ipv6Net};
use rust_tier::interceptor::ipv4_address;
use rust_tier::lifecycle::{Connection, LifecycleAction, TransportEvent};

#[test]
fn test_tun_device() {
    let config = DeviceConfig {
        name: "tun0".to_string(),
        mtu: 1500,
        ipv4_addresses: vec![Ipv4Net::new(ipv4_address(10, 10, 10, 1), 24).unwrap()],
        ipv6_addresses: vec![],
    };
    let plan = config.plan();
    assert_eq!(plan.name, "tun0");
    assert_eq!(plan.mtu, 1500);
    assert_eq!(plan.ipv4, vec![(0x0a0a_0a01, 24)]);
    assert_eq!(plan.ipv6, vec![]);
}

#[test]
fn prefix_longer_than_the_address_is_refused() {
    assert!(Ipv4Net::new(1, 32).is_some());
    assert!(Ipv4Net::new(1, 33).is_none());
    assert!(Ipv4Net::new(1, 255).is_none());
    assert!(Ipv6Net::new(1, 128).is_some());
    assert!(Ipv6Net::new(1, 129).is_none());
}

#[test]
fn network_keeps_address_and_prefix() {
    let net = Ipv4Net::new(0xc0a8_0203, 24).unwrap();
    assert_eq!(net.ip(), 0xc0a8_0203);
    assert_eq!(net.prefix(), 24);
    let net = Ipv6Net::new(0x2001_0db8_0000_0000_0000_0000_0000_0001, 32).unwrap();
    assert_eq!(net.ip(), 0x2001_0db8_0000_0000_0000_0000_0000_0001);
    assert_eq!(net.prefix(), 32);
}

#[test]
fn plan_lists_every_address_in_order() {
    let config = DeviceConfig {
        name: "relay".to_string(),
        mtu: 1400,
        ipv4_addresses: vec![
            Ipv4Net::new(ipv4_address(192, 168, 2, 3), 24).unwrap(),
            Ipv4Net::new(ipv4_address(10, 0, 0, 1), 8).unwrap(),
        ],
        ipv6_addresses: vec![
            Ipv6Net::new(0xfd00_0000_0000_0000_0000_0000_0000_0001, 64).unwrap(),
            Ipv6Net::new(0xfe80_0000_0000_0000_0000_0000_0000_00ff, 120).unwrap(),
        ],
    };
    let plan = config.plan();
    assert_eq!(plan.name, "relay");
    assert_eq!(plan.mtu, 1400);
    assert_eq!(plan.ipv4, vec![(0xc0a8_0203, 24), (0x0a00_0001, 8)]);
    assert_eq!(
        plan.ipv6,
        vec![
            (0xfd00_0000_0000_0000_0000_0000_0000_0001, 64),
            (0xfe80_0000_0000_0000_0000_0000_0000_00ff, 120),
        ]
    );
}

#[test]
fn config_holds_the_log_level() {
    let config = Config { log: LogConfig { level: "debug".to_string() } };
    assert_eq!(config.log.level, "debug");
    assert_eq!(config.clone().log.level, "debug");
}

#[test]
fn ipv6_address_is_planned_as_configured() {
    let config = DeviceConfig {
        name: "tun6".to_string(),
        mtu: 1280,
        ipv4_addresses: vec![],
        ipv6_addresses: vec![Ipv6Net::new(0xfd00_0000_0000_0000_0000_0000_0000_0005, 64).unwrap()],
    };
    let plan = config.plan();
    assert_eq!(plan.ipv4, vec![]);
    assert_eq!(plan.ipv6, vec![(0xfd00_0000_0000_0000_0000_0000_0000_0005, 64)]);
}

#[test]
fn clock_reads_a_time_after_2020() {
    let first = current_timestamp_millis().expect("Time went backwards");
    assert!(first > 1_577_836_800_000);
    let second = current_timestamp_millis().expect("Time went backwards");
    assert!(second < first + 3_600_000);
}

#[test]
fn connection_starts_its_pump_when_established() {
    let connection = Connection::new();
    assert_eq!(connection, Connection::Pending);
    let (connection, action) = connection.step(TransportEvent::ConnectionEstablished);
    assert_eq!(connection, Connection::Established);
    assert_eq!(action, LifecycleAction::SpawnOutboundPump);
}

#[test]
fn connection_starts_nothing_when_closed() {
    let (connection, action) = Connection::Established.step(TransportEvent::ConnectionClosed);
    assert_eq!(connection, Connection::Closed);
    assert_eq!(action, LifecycleAction::Nothing);
}

#[test]
fn connection_starts_its_pump_once() {
    let (connection, _) = Connection::new().step(TransportEvent::ConnectionEstablished);
    for event in [
        TransportEvent::ListenAddressAcquired,
        TransportEvent::ConnectionEstablished,
        TransportEvent::Other,
    ] {
        assert_eq!(connection.step(event), (Connection::Established, LifecycleAction::Nothing));
    }
    let (closed, _) = connection.step(TransportEvent::ConnectionClosed);
    for event in [
        TransportEvent::ListenAddressAcquired,
        TransportEvent::ConnectionEstablished,
        TransportEvent::ConnectionClosed,
        TransportEvent::Other,
    ] {
        assert_eq!(closed.step(event), (Connection::Closed, LifecycleAction::Nothing));
    }
}

#[test]
fn pending_connection_waits_for_establishment() {
    for event in [
        TransportEvent::ListenAddressAcquired,
        TransportEvent::ConnectionClosed,
        TransportEvent::Other,
    ] {
        assert_eq!(
            Connection::Pending.step(event),
            (Connection::Pending, LifecycleAction::Nothing)
        );
    }
}
