use std::sync::atomic::{AtomicUsize, Ordering};
use std::sync::Arc;
use std::task::{Context, Wake, Waker};

use keyboard_system_status::node::{
    BatterySource, ConfigError, KeyboardSystemStatusConfig, NodeConfig, NodeRole, SplitSupport,
    MAX_NODES, MAX_SYSTEM_INFO_LEN,
};
use keyboard_system_status::state::battery::{BatteryStatus, ChargeState};
use keyboard_system_status::state::layer::{update_layer_state, LayerState, LayerStateSnapshot};
use keyboard_system_status::status::{
    battery_level, encode_layer_status, encode_node_status, encode_system_info, install_config,
    layer_status, node_status, notify_status_changed, poll_status_changed, system_info,
    with_config, BatteryReadings, KeyboardSystemStatus, KeyboardSystemStatusProcessor,
    MAX_STATUS_LAYERS, UNKNOWN_BATTERY_LEVEL,
};

struct CountingWaker {
    wakes: AtomicUsize,
}

impl Wake for CountingWaker {
    fn wake(self: Arc<Self>) {
        self.wakes.fetch_add(1, Ordering::SeqCst);
    }
}

fn poll(status: &mut KeyboardSystemStatus) -> bool {
    let waker = Waker::from(Arc::new(CountingWaker { wakes: AtomicUsize::new(0) }));
    poll_status_changed(status, &mut Context::from_waker(&waker))
}

fn charged(level: u8) -> BatteryStatus {
    BatteryStatus::Available { charge_state: ChargeState::Charging, level: Some(level) }
}

#[test]
fn serializes_any_valid_node_order() {
    let nodes = [
        NodeConfig::new(NodeRole::Numpad, BatterySource::NotExposed),
        NodeConfig::new(NodeRole::Main, BatterySource::Central),
        NodeConfig::new(NodeRole::PointingDevice, BatterySource::NotExposed),
    ];

    assert_eq!(encode_system_info(&nodes).as_slice(), &[1, 0, 3, 4, 0, 3]);
}

#[test]
fn validates_node_count() {
    assert_eq!(
        KeyboardSystemStatusConfig::new(&[], SplitSupport::Disabled),
        Err(ConfigError::NoNodes)
    );
    let nodes = [NodeConfig::new(NodeRole::Other, BatterySource::NotExposed); MAX_NODES + 1];
    assert_eq!(
        KeyboardSystemStatusConfig::new(&nodes, SplitSupport::Disabled),
        Err(ConfigError::TooManyNodes)
    );
}

#[test]
fn validates_peripheral_source_range() {
    for peripherals in [0usize, 1, 2, 5] {
        let split = SplitSupport::Peripherals(peripherals);
        if peripherals > 0 {
            let valid = [NodeConfig::new(NodeRole::Other, BatterySource::Peripheral(0))];
            assert!(KeyboardSystemStatusConfig::new(&valid, split).is_ok());
        }

        let invalid = [NodeConfig::new(NodeRole::Other, BatterySource::Peripheral(peripherals))];
        assert_eq!(
            KeyboardSystemStatusConfig::new(&invalid, split),
            Err(ConfigError::PeripheralOutOfRange(peripherals))
        );
    }
}

#[test]
fn layer_wire_format_is_little_endian_and_includes_default() {
    let mut layers = [false; 32];
    layers[1] = true;
    layers[17] = true;

    assert_eq!(
        encode_layer_status(LayerStateSnapshot::from_keymap(3, &layers)),
        [3, 0x0a, 0x00, 0x02, 0x00]
    );
}

#[test]
fn unavailable_and_reserved_battery_levels_are_unknown() {
    assert_eq!(battery_level(BatteryStatus::Unavailable), UNKNOWN_BATTERY_LEVEL);
    assert_eq!(
        battery_level(BatteryStatus::Available {
            charge_state: ChargeState::Discharging,
            level: Some(101),
        }),
        UNKNOWN_BATTERY_LEVEL
    );
}

#[test]
fn known_battery_levels_are_reported() {
    assert_eq!(battery_level(charged(0)), 0);
    assert_eq!(battery_level(charged(57)), 57);
    assert_eq!(battery_level(charged(100)), 100);
    assert_eq!(
        battery_level(BatteryStatus::Available { charge_state: ChargeState::Unknown, level: None }),
        0xff
    );
}

#[test]
fn role_codes_are_those_of_the_protocol() {
    assert_eq!(NodeRole::Main.code(), 0x00);
    assert_eq!(NodeRole::Left.code(), 0x01);
    assert_eq!(NodeRole::Right.code(), 0x02);
    assert_eq!(NodeRole::PointingDevice.code(), 0x03);
    assert_eq!(NodeRole::Numpad.code(), 0x04);
    assert_eq!(NodeRole::Other.code(), 0xff);
}

#[test]
fn system_info_of_no_nodes_is_the_header() {
    assert_eq!(encode_system_info(&[]).as_slice(), &[1, 0, 0]);
}

#[test]
fn full_node_list_fits_every_value() {
    let nodes = [NodeConfig::new(NodeRole::Right, BatterySource::Central); MAX_NODES];
    let config = KeyboardSystemStatusConfig::new(&nodes, SplitSupport::Disabled).unwrap();
    assert_eq!(config.nodes(), &nodes);

    let info = encode_system_info(&nodes);
    assert_eq!(info.as_slice().len(), MAX_SYSTEM_INFO_LEN);
    assert_eq!(info.as_slice(), &[1, 0, 8, 2, 2, 2, 2, 2, 2, 2, 2]);

    let readings = BatteryReadings { central: charged(9), peripherals: &[] };
    assert_eq!(encode_node_status(&nodes, &readings).as_slice(), &[9; 8]);
}

#[test]
fn peripheral_source_needs_split_support() {
    let nodes = [
        NodeConfig::new(NodeRole::Main, BatterySource::Central),
        NodeConfig::new(NodeRole::Left, BatterySource::Peripheral(0)),
    ];
    assert_eq!(
        KeyboardSystemStatusConfig::new(&nodes, SplitSupport::Disabled),
        Err(ConfigError::SplitFeatureRequired)
    );
}

#[test]
fn first_peripheral_out_of_range_is_reported() {
    let nodes = [
        NodeConfig::new(NodeRole::Main, BatterySource::Peripheral(1)),
        NodeConfig::new(NodeRole::Left, BatterySource::Peripheral(7)),
        NodeConfig::new(NodeRole::Right, BatterySource::Peripheral(5)),
    ];
    assert_eq!(
        KeyboardSystemStatusConfig::new(&nodes, SplitSupport::Peripherals(2)),
        Err(ConfigError::PeripheralOutOfRange(7))
    );
}

#[test]
fn node_count_is_checked_before_battery_sources() {
    let nodes = [NodeConfig::new(NodeRole::Other, BatterySource::Peripheral(3)); MAX_NODES + 1];
    assert_eq!(
        KeyboardSystemStatusConfig::new(&nodes, SplitSupport::Disabled),
        Err(ConfigError::TooManyNodes)
    );
}

#[test]
fn configuration_keeps_its_nodes() {
    let nodes = [
        NodeConfig::new(NodeRole::Left, BatterySource::Peripheral(1)),
        NodeConfig::new(NodeRole::Main, BatterySource::NotExposed),
    ];
    let config = KeyboardSystemStatusConfig::new(&nodes, SplitSupport::Peripherals(2)).unwrap();
    assert_eq!(config.nodes(), &nodes);
    assert_eq!(config.clone(), config);
    assert_eq!(config.clone().nodes(), &nodes);
    assert_eq!(config.split(), SplitSupport::Peripherals(2));
    assert_eq!(config.clone().split(), SplitSupport::Peripherals(2));
}

#[test]
fn node_status_reads_each_battery_source() {
    let nodes = [
        NodeConfig::new(NodeRole::Main, BatterySource::Central),
        NodeConfig::new(NodeRole::Left, BatterySource::Peripheral(0)),
        NodeConfig::new(NodeRole::Right, BatterySource::Peripheral(1)),
        NodeConfig::new(NodeRole::Numpad, BatterySource::Peripheral(2)),
        NodeConfig::new(NodeRole::Other, BatterySource::NotExposed),
    ];
    let peripherals = [Some(charged(30)), None];
    let readings = BatteryReadings { central: charged(80), peripherals: &peripherals };
    assert_eq!(
        encode_node_status(&nodes, &readings).as_slice(),
        &[80, 30, 0xff, 0xff, 0xff]
    );
}

#[test]
fn values_are_empty_until_a_config_is_installed() {
    let mut status = KeyboardSystemStatus::new();
    let readings = BatteryReadings { central: charged(50), peripherals: &[] };
    assert!(!status.is_configured());
    assert!(system_info(&status).as_slice().is_empty());
    assert!(node_status(&status, &readings).as_slice().is_empty());
    assert_eq!(with_config(&status, |config| config.nodes().len()), None);
    assert!(!poll(&mut status));

    let nodes = [NodeConfig::new(NodeRole::Main, BatterySource::Central)];
    let config = KeyboardSystemStatusConfig::new(&nodes, SplitSupport::Disabled).unwrap();
    install_config(&mut status, config);
    assert!(status.is_configured());
    assert_eq!(system_info(&status).as_slice(), &[1, 0, 1, 0]);
    assert_eq!(node_status(&status, &readings).as_slice(), &[50]);
    assert_eq!(with_config(&status, |config| config.nodes().len()), Some(1));
    assert!(poll(&mut status));
    assert!(!poll(&mut status));
}

#[test]
fn processor_installs_its_config() {
    let mut status = KeyboardSystemStatus::new();
    let nodes = [
        NodeConfig::new(NodeRole::Right, BatterySource::NotExposed),
        NodeConfig::new(NodeRole::Left, BatterySource::Central),
    ];
    let config = KeyboardSystemStatusConfig::new(&nodes, SplitSupport::Disabled).unwrap();
    let _processor = KeyboardSystemStatusProcessor::new(&mut status, config);
    assert_eq!(system_info(&status).as_slice(), &[1, 0, 2, 2, 1]);
    assert!(poll(&mut status));
}

#[test]
fn status_change_raises_the_wakeup_and_keeps_the_config() {
    let mut status = KeyboardSystemStatus::new();
    notify_status_changed(&mut status);
    notify_status_changed(&mut status);
    assert!(!status.is_configured());
    assert!(poll(&mut status));
    assert!(!poll(&mut status));
}

#[test]
fn layer_status_follows_the_published_layers() {
    let mut layers = LayerState::new();
    assert_eq!(layer_status(&layers), [0, 0, 0, 0, 0]);
    let mut active = [false; 32];
    active[31] = true;
    update_layer_state(&mut layers, 8, &active);
    assert_eq!(layer_status(&layers), [8, 0x00, 0x01, 0x00, 0x80]);
}

#[test]
fn layer_counts_tell_what_layer_status_can_represent() {
    assert!(LayerStateSnapshot::from_keymap(0, &[false; 32]).layer_count() <= MAX_STATUS_LAYERS);
    assert!(LayerStateSnapshot::from_keymap(0, &[false; 33]).layer_count() > MAX_STATUS_LAYERS);
}

#[test]
fn system_info_tells_node_orders_apart() {
    let left = NodeConfig::new(NodeRole::Left, BatterySource::NotExposed);
    let right = NodeConfig::new(NodeRole::Right, BatterySource::NotExposed);
    assert_eq!(encode_system_info(&[left, right]).as_slice(), &[1, 0, 2, 1, 2]);
    assert_eq!(encode_system_info(&[right, left]).as_slice(), &[1, 0, 2, 2, 1]);
}

#[test]
fn node_status_lists_the_nodes_in_the_order_of_system_info() {
    let nodes = [
        NodeConfig::new(NodeRole::Right, BatterySource::Peripheral(0)),
        NodeConfig::new(NodeRole::Main, BatterySource::Central),
    ];
    let readings = BatteryReadings { central: charged(70), peripherals: &[Some(charged(20))] };
    let info = encode_system_info(&nodes);
    let levels = encode_node_status(&nodes, &readings);
    assert_eq!(info.as_slice(), &[1, 0, 2, 2, 0]);
    assert_eq!(levels.as_slice(), &[20, 70]);
    assert_eq!(usize::from(info.as_slice()[2]), levels.as_slice().len());
}

#[test]
fn layer_status_tells_layer_states_apart() {
    let first = encode_layer_status(LayerStateSnapshot::from_keymap(0, &[false, true, false]));
    let second = encode_layer_status(LayerStateSnapshot::from_keymap(0, &[false, false, true]));
    let third = encode_layer_status(LayerStateSnapshot::from_keymap(1, &[true, false, false]));
    assert_eq!(first, [0, 0x03, 0, 0, 0]);
    assert_eq!(second, [0, 0x05, 0, 0, 0]);
    assert_eq!(third, [1, 0x03, 0, 0, 0]);
}

#[test]
fn publishing_task_waits_until_a_status_changes() {
    let counter = Arc::new(CountingWaker { wakes: AtomicUsize::new(0) });
    let waker = Waker::from(counter.clone());
    let mut cx = Context::from_waker(&waker);
    let mut status = KeyboardSystemStatus::new();

    assert!(!poll_status_changed(&mut status, &mut cx));
    assert_eq!(counter.wakes.load(Ordering::SeqCst), 0);
    notify_status_changed(&mut status);
    assert_eq!(counter.wakes.load(Ordering::SeqCst), 1);
    notify_status_changed(&mut status);
    assert_eq!(counter.wakes.load(Ordering::SeqCst), 1);
    assert!(poll_status_changed(&mut status, &mut cx));

    assert!(!poll_status_changed(&mut status, &mut cx));
    let nodes = [NodeConfig::new(NodeRole::Main, BatterySource::Central)];
    let config = KeyboardSystemStatusConfig::new(&nodes, SplitSupport::Disabled).unwrap();
    install_config(&mut status, config);
    assert_eq!(counter.wakes.load(Ordering::SeqCst), 2);
    assert!(poll_status_changed(&mut status, &mut cx));
}
