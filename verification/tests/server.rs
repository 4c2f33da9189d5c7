use keyboard_system_status::node::{
    BatterySource, KeyboardSystemStatusConfig, NodeConfig, NodeRole, SplitSupport,
};
use keyboard_system_status::server::{
    initialize_server, is_cccd_handle, Action, BleKeyboardSystemStatusServer,
};
use keyboard_system_status::state::battery::{BatteryStatus, ChargeState};
use keyboard_system_status::state::layer::{update_layer_state, LayerState};
use keyboard_system_status::status::{install_config, BatteryReadings, KeyboardSystemStatus};

fn readings(level: u8) -> BatteryReadings<'static> {
    BatteryReadings {
        central: BatteryStatus::Available {
            charge_state: ChargeState::Discharging,
            level: Some(level),
        },
        peripherals: &[],
    }
}

fn configured() -> KeyboardSystemStatus {
    let mut status = KeyboardSystemStatus::new();
    let nodes = [
        NodeConfig::new(NodeRole::Main, BatterySource::Central),
        NodeConfig::new(NodeRole::Other, BatterySource::NotExposed),
    ];
    let config = KeyboardSystemStatusConfig::new(&nodes, SplitSupport::Disabled).unwrap();
    install_config(&mut status, config);
    status
}

fn published(default_layer: u8) -> LayerState {
    let mut layers = LayerState::new();
    update_layer_state(&mut layers, default_layer, &[false, false, false]);
    layers
}

#[test]
fn nothing_is_published_without_a_config() {
    let status = KeyboardSystemStatus::new();
    assert!(initialize_server(&status, &readings(10), &published(0)).is_none());
}

#[test]
fn initial_values_cover_every_characteristic() {
    let values = initialize_server(&configured(), &readings(10), &published(1)).unwrap();
    assert_eq!(values.system_info.as_slice(), &[1, 0, 2, 0, 0xff]);
    assert_eq!(values.node_status.as_slice(), &[10, 0xff]);
    assert_eq!(values.layer_status, [1, 0x02, 0, 0, 0]);
}

#[test]
fn cccd_handles_are_those_of_both_notifying_characteristics() {
    assert!(is_cccd_handle(Some(5), Some(8), 5));
    assert!(is_cccd_handle(Some(5), Some(8), 8));
    assert!(!is_cccd_handle(Some(5), Some(8), 6));
    assert!(is_cccd_handle(Some(5), None, 5));
    let recognised = (0..=u16::MAX).filter(|handle| is_cccd_handle(Some(5), Some(8), *handle)).count();
    assert_eq!(recognised, 2);
}

#[test]
fn new_server_records_the_current_values() {
    let server = BleKeyboardSystemStatusServer::new(&configured(), &readings(33), &published(2));
    assert_eq!(server.last_node_status(), &[33, 0xff]);
    assert_eq!(server.last_layer_status(), [2, 0x04, 0, 0, 0]);
}

#[test]
fn unchanged_values_are_not_notified() {
    let status = configured();
    let layers = published(0);
    let mut server = BleKeyboardSystemStatusServer::new(&status, &readings(33), &layers);
    assert_eq!(server.advance(&status, &readings(33), &layers), Action::Wait);
    assert_eq!(server.advance(&status, &readings(33), &layers), Action::Wait);
    assert_eq!(server.last_node_status(), &[33, 0xff]);
}

#[test]
fn changed_values_are_notified_node_status_first() {
    let status = configured();
    let mut server = BleKeyboardSystemStatusServer::new(&status, &readings(33), &published(0));

    assert_eq!(
        server.advance(&status, &readings(32), &published(1)),
        Action::NotifyNodeStatus
    );
    assert_eq!(server.last_node_status(), &[32, 0xff]);
    assert_eq!(server.last_layer_status(), [0, 0x01, 0, 0, 0]);

    assert_eq!(
        server.advance(&status, &readings(31), &published(2)),
        Action::NotifyLayerStatus
    );
    assert_eq!(server.last_node_status(), &[32, 0xff]);
    assert_eq!(server.last_layer_status(), [2, 0x04, 0, 0, 0]);

    assert_eq!(server.advance(&status, &readings(31), &published(1)), Action::Wait);
    assert_eq!(server.last_node_status(), &[32, 0xff]);
    assert_eq!(server.last_layer_status(), [2, 0x04, 0, 0, 0]);

    assert_eq!(
        server.advance(&status, &readings(31), &published(1)),
        Action::NotifyNodeStatus
    );
}

#[test]
fn layer_change_alone_notifies_layer_status_alone() {
    let status = configured();
    let mut server = BleKeyboardSystemStatusServer::new(&status, &readings(33), &published(0));
    assert_eq!(
        server.advance(&status, &readings(33), &published(1)),
        Action::NotifyLayerStatus
    );
    assert_eq!(server.advance(&status, &readings(33), &published(1)), Action::Wait);
    assert_eq!(server.advance(&status, &readings(33), &published(1)), Action::Wait);
}

#[test]
fn node_change_alone_notifies_node_status_alone() {
    let status = configured();
    let mut server = BleKeyboardSystemStatusServer::new(&status, &readings(33), &published(0));
    assert_eq!(
        server.advance(&status, &readings(20), &published(0)),
        Action::NotifyNodeStatus
    );
    assert_eq!(server.advance(&status, &readings(20), &published(0)), Action::Wait);
}

#[test]
fn layers_are_looked_at_after_node_status() {
    let status = configured();
    let mut server = BleKeyboardSystemStatusServer::new(&status, &readings(33), &published(0));
    assert!(server.reads_layer_status(&status, &readings(33)));
    assert!(!server.reads_layer_status(&status, &readings(34)));
    server.advance(&status, &readings(34), &published(1));
    assert!(server.reads_layer_status(&status, &readings(34)));
    server.advance(&status, &readings(34), &published(1));
    assert!(!server.reads_layer_status(&status, &readings(34)));
}

#[test]
fn installed_config_changes_node_status() {
    let mut status = KeyboardSystemStatus::new();
    let layers = published(0);
    let mut server = BleKeyboardSystemStatusServer::new(&status, &readings(5), &layers);
    assert!(server.last_node_status().is_empty());

    let nodes = [NodeConfig::new(NodeRole::Main, BatterySource::Central)];
    let config = KeyboardSystemStatusConfig::new(&nodes, SplitSupport::Disabled).unwrap();
    install_config(&mut status, config);
    assert_eq!(server.advance(&status, &readings(5), &layers), Action::NotifyNodeStatus);
    assert_eq!(server.last_node_status(), &[5]);
}

#[test]
fn no_value_is_notified_twice_in_a_row() {
    let status = configured();
    let mut server = BleKeyboardSystemStatusServer::new(&status, &readings(1), &published(0));
    let mut node_values = vec![server.last_node_status().to_vec()];
    let mut layer_values = vec![server.last_layer_status()];
    for (level, default_layer) in [
        (1, 0), (2, 0), (2, 0), (3, 1), (3, 1), (2, 1), (2, 1), (2, 2), (2, 0), (1, 0), (1, 0),
    ] {
        match server.advance(&status, &readings(level), &published(default_layer)) {
            Action::Wait => {}
            Action::NotifyNodeStatus => node_values.push(server.last_node_status().to_vec()),
            Action::NotifyLayerStatus => layer_values.push(server.last_layer_status()),
        }
    }
    assert_eq!(
        node_values,
        vec![vec![1, 0xff], vec![2, 0xff], vec![3, 0xff], vec![2, 0xff], vec![1, 0xff]]
    );
    assert_eq!(
        layer_values,
        vec![[0, 0x01, 0, 0, 0], [1, 0x02, 0, 0, 0], [2, 0x04, 0, 0, 0], [0, 0x01, 0, 0, 0]]
    );
    assert!(node_values.windows(2).all(|pair| pair[0] != pair[1]));
    assert!(layer_values.windows(2).all(|pair| pair[0] != pair[1]));
}
