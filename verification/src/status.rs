//! Wire values of the keyboard system status service.

use crate::bits;
use crate::fixed_vec;
use crate::fixed_vec::NodeStatus;
use crate::fixed_vec::SystemInfo;
use crate::node::BatterySource;
use crate::node::KeyboardSystemStatusConfig;
use crate::node::NodeConfig;
use crate::node::SystemLayout;
use crate::node::MAX_NODES;
use crate::signal::Wakeup;
use crate::state::battery::BatteryStatus;
use crate::state::layer;
use crate::state::layer::LayerState;
use crate::state::layer::LayerStateSnapshot;
use core::task::Context;
use vstd::prelude::*;

verus! {

/// Level of a battery that has none to report.
pub const UNKNOWN_BATTERY_LEVEL: u8 = 0xff;

pub const KEYBOARD_SYSTEM_STATUS_SERVICE_UUID: u128 = 0x291c4b33_35fd_4c51_913e_109541021218;

pub const SYSTEM_INFO_UUID: u128 = 0xb7fb6869_d828_4f31_9ad8_949da7df35dc;

pub const NODE_STATUS_UUID: u128 = 0xe5c2c1e1_025b_4b09_be4e_4d052525e4d0;

pub const LAYER_STATUS_UUID: u128 = 0x68777b88_895f_4d13_b433_adb93a243c6b;

/// Most layers that a Layer Status value can describe.
pub const MAX_STATUS_LAYERS: usize = 32;

/// Length of a Layer Status value: the default layer and the layer bitmap.
pub const LAYER_STATUS_LEN: usize = 5;

const VERSION_MAJOR: u8 = 1;

const VERSION_MINOR: u8 = 0;

/// System Info of a node list: the protocol version, the number of nodes, and
/// the role of each node in order.
pub open spec fn system_info_bytes(nodes: Seq<NodeConfig>) -> Seq<u8> {
    seq![1u8, 0u8, nodes.len() as u8] + nodes.map_values(|node: NodeConfig| node.role.spec_code())
}

/// The level reported for a battery: its own where it is a percentage.
pub open spec fn spec_battery_level(status: BatteryStatus) -> u8 {
    match status {
        BatteryStatus::Available { level: Some(level), .. } if level <= 100 => level,
        _ => UNKNOWN_BATTERY_LEVEL,
    }
}

/// Battery readings of the keyboard's BLE host node and its split peripherals.
#[derive(Clone, Copy, Debug)]
pub struct BatteryReadings<'a> {
    /// Battery of the BLE host node.
    pub central: BatteryStatus,
    /// Battery of each split peripheral that is connected, by its id.
    pub peripherals: &'a [Option<BatteryStatus>],
}

impl<'a> BatteryReadings<'a> {
    /// The level reported for a node with the given battery source.
    pub open spec fn level(self, source: BatterySource) -> u8 {
        match source {
            BatterySource::Central => spec_battery_level(self.central),
            BatterySource::Peripheral(id) => if id < self.peripherals@.len() {
                match self.peripherals@[id as int] {
                    Some(status) => spec_battery_level(status),
                    None => UNKNOWN_BATTERY_LEVEL,
                }
            } else {
                UNKNOWN_BATTERY_LEVEL
            },
            BatterySource::NotExposed => UNKNOWN_BATTERY_LEVEL,
        }
    }
}

/// Node Status of a node list: the battery level of each node in order.
pub open spec fn node_status_bytes(nodes: Seq<NodeConfig>, readings: BatteryReadings) -> Seq<u8> {
    nodes.map_values(|node: NodeConfig| readings.level(node.battery_source))
}

/// Layer Status of a layer state: the default layer, and a bitmap of the
/// active layers in little-endian order.
pub open spec fn layer_status_bytes(layers: layer::Layers) -> Seq<u8> {
    seq![layers.default_layer] + bits::packed(layers.active, 4)
}

/// Encodes the nodes for System Info.
pub fn encode_system_info(nodes: &[NodeConfig]) -> (value: SystemInfo)
    requires
        nodes@.len() <= MAX_NODES,
    ensures
        value@ == system_info_bytes(nodes@),
        value@.len() == 3 + nodes@.len(),
        value@[0] == 1,
        value@[1] == 0,
        value@[2] == nodes@.len(),
        forall|i: int|
            0 <= i < nodes@.len() ==> value@[3 + i] == (#[trigger] nodes@[i]).role.spec_code(),
{
    let mut value = fixed_vec::info_new();
    fixed_vec::info_push(&mut value, VERSION_MAJOR).expect("System Info capacity");
    fixed_vec::info_push(&mut value, VERSION_MINOR).expect("System Info capacity");
    fixed_vec::info_push(&mut value, nodes.len() as u8).expect("System Info capacity");
    let ghost codes = nodes@.map_values(|node: NodeConfig| node.role.spec_code());
    let mut i: usize = 0;
    while i < nodes.len()
        invariant
            i <= nodes@.len() <= MAX_NODES,
            codes == nodes@.map_values(|node: NodeConfig| node.role.spec_code()),
            value@ == seq![1u8, 0u8, nodes@.len() as u8] + codes.take(i as int),
        decreases nodes@.len() - i,
    {
        fixed_vec::info_push(&mut value, nodes[i].role.code()).expect("System Info capacity");
        assert(codes.take(i + 1) =~= codes.take(i as int).push(codes[i as int]));
        i = i + 1;
    }
    assert(codes.take(nodes@.len() as int) =~= codes);
    value
}

/// The level reported for a battery.
pub fn battery_level(status: BatteryStatus) -> (level: u8)
    ensures
        level == spec_battery_level(status),
        match status {
            BatteryStatus::Unavailable => level == 255,
            BatteryStatus::Available { level: None, .. } => level == 255,
            BatteryStatus::Available { level: Some(known), .. } => (known <= 100 ==> level == known)
                && (known > 100 ==> level == 255),
        },
{
    match status {
        BatteryStatus::Available { level: Some(level), .. } if level <= 100 => level,
        _ => UNKNOWN_BATTERY_LEVEL,
    }
}

/// Encodes the battery levels of the nodes for Node Status.
pub fn encode_node_status(nodes: &[NodeConfig], readings: &BatteryReadings) -> (value: NodeStatus)
    requires
        nodes@.len() <= MAX_NODES,
    ensures
        value@ == node_status_bytes(nodes@, *readings),
        value@.len() == nodes@.len(),
        forall|i: int|
            0 <= i < nodes@.len() ==> value@[i] == match (#[trigger] nodes@[i]).battery_source {
                BatterySource::Central => spec_battery_level(readings.central),
                BatterySource::Peripheral(id) => if id < readings.peripherals@.len()
                    && readings.peripherals@[id as int] is Some {
                    spec_battery_level(readings.peripherals@[id as int]->0)
                } else {
                    255
                },
                BatterySource::NotExposed => 255,
            },
{
    let mut value = fixed_vec::levels_new();
    let ghost levels = node_status_bytes(nodes@, *readings);
    let mut i: usize = 0;
    while i < nodes.len()
        invariant
            i <= nodes@.len() <= MAX_NODES,
            levels == node_status_bytes(nodes@, *readings),
            value@ == levels.take(i as int),
        decreases nodes@.len() - i,
    {
        let level: u8 = match nodes[i].battery_source {
            BatterySource::Central => battery_level(readings.central),
            BatterySource::Peripheral(id) => if id < readings.peripherals.len() {
                match readings.peripherals[id] {
                    Some(status) => battery_level(status),
                    None => UNKNOWN_BATTERY_LEVEL,
                }
            } else {
                UNKNOWN_BATTERY_LEVEL
            },
            BatterySource::NotExposed => UNKNOWN_BATTERY_LEVEL,
        };
        fixed_vec::levels_push(&mut value, level).expect("node count validated");
        assert(levels.take(i + 1) =~= levels.take(i as int).push(levels[i as int]));
        i = i + 1;
    }
    assert(levels.take(nodes@.len() as int) =~= levels);
    value
}

/// Encodes a layer state for Layer Status.
pub fn encode_layer_status(state: LayerStateSnapshot) -> (value: [u8; LAYER_STATUS_LEN])
    requires
        state@.active.len() <= MAX_STATUS_LAYERS,
    ensures
        value@ == layer_status_bytes(state@),
{
    let bitmap = state.active_bitmap();
    let value: [u8; LAYER_STATUS_LEN] = [
        state.default_layer(),
        bitmap[0],
        bitmap[1],
        bitmap[2],
        bitmap[3],
    ];
    assert(value@ =~= layer_status_bytes(state@));
    value
}

/// What a [`KeyboardSystemStatus`] stands for.
#[verifier::ext_equal]
pub struct SystemStatus {
    /// The configured layout, once a configuration has been installed.
    pub config: Option<SystemLayout>,
    /// Whether a status has changed since the publishing task last took its
    /// wakeup.
    pub changed: bool,
    /// Whether the publishing task waits for a change.
    pub awaited: bool,
}

impl SystemStatus {
    /// The System Info value: empty until a configuration has been installed.
    pub open spec fn system_info(self) -> Seq<u8> {
        match self.config {
            Some(layout) => system_info_bytes(layout.nodes),
            None => Seq::empty(),
        }
    }

    /// The Node Status value: empty until a configuration has been installed.
    pub open spec fn node_status(self, readings: BatteryReadings) -> Seq<u8> {
        match self.config {
            Some(layout) => node_status_bytes(layout.nodes, readings),
            None => Seq::empty(),
        }
    }
}

/// The installed node configuration, and the wakeup of the task that publishes
/// the status of its nodes.
pub struct KeyboardSystemStatus {
    config: Option<KeyboardSystemStatusConfig>,
    /// Raised when a configuration has been installed or a status has changed.
    changed: Wakeup,
}

impl View for KeyboardSystemStatus {
    type V = SystemStatus;

    closed spec fn view(&self) -> SystemStatus {
        SystemStatus {
            config: match self.config {
                Some(config) => Some(config@),
                None => None,
            },
            changed: self.changed@.raised,
            awaited: self.changed@.awaited,
        }
    }
}

impl KeyboardSystemStatus {
    /// A status without a configuration.
    pub fn new() -> (status: Self)
        ensures
            status@ == (SystemStatus { config: None, changed: false, awaited: false }),
    {
        KeyboardSystemStatus { config: None, changed: Wakeup::new() }
    }

    /// Whether a configuration has been installed.
    pub fn is_configured(&self) -> (configured: bool)
        ensures
            configured == self@.config is Some,
    {
        self.config.is_some()
    }
}

/// Wakes the task that publishes the status of the nodes.
pub fn notify_status_changed(status: &mut KeyboardSystemStatus)
    ensures
        final(status)@ == (SystemStatus { changed: true, awaited: false, ..old(status)@ }),
{
    status.changed.notify();
}

/// Takes the publishing task's wakeup if it is raised, and otherwise lets the
/// task behind `cx` wait for it.
pub fn poll_status_changed(status: &mut KeyboardSystemStatus, cx: &mut Context<'_>) -> (ready: bool)
    ensures
        ready <==> old(status)@.changed,
        final(status)@ == (SystemStatus { changed: false, awaited: !ready, ..old(status)@ }),
{
    status.changed.poll_wait(cx)
}

/// Installs the node configuration, which happens once, and wakes the task
/// that publishes the status of the nodes.
pub fn install_config(status: &mut KeyboardSystemStatus, config: KeyboardSystemStatusConfig)
    requires
        old(status)@.config is None,
    ensures
        final(status)@ == (SystemStatus { config: Some(config@), changed: true, awaited: false }),
{
    status.config = Some(config);
    status.changed.notify();
}

/// Hands the installed configuration to `f`.
pub fn with_config<T, F: FnOnce(&KeyboardSystemStatusConfig) -> T>(
    status: &KeyboardSystemStatus,
    f: F,
) -> (result: Option<T>)
    requires
        forall|config: &KeyboardSystemStatusConfig|
            status@.config == Some(config@) && config.wf() ==> #[trigger] call_requires(f, (config,)),
    ensures
        result is Some <==> status@.config is Some,
        result is Some ==> exists|config: &KeyboardSystemStatusConfig|
            status@.config == Some(config@) && config.wf() && #[trigger] call_ensures(
                f,
                (config,),
                result->0,
            ),
{
    match &status.config {
        Some(config) => {
            proof {
                use_type_invariant(config);
            }
            let result = Some(f(config));
            assert(call_ensures(f, (config,), result->0));
            assert(exists|config: &KeyboardSystemStatusConfig|
                status@.config == Some(config@) && config.wf() && #[trigger] call_ensures(
                    f,
                    (config,),
                    result->0,
                ));
            result
        },
        None => None,
    }
}

/// The System Info value of the installed configuration, and an empty value
/// where there is none.
pub fn system_info(status: &KeyboardSystemStatus) -> (value: SystemInfo)
    ensures
        value@ == status@.system_info(),
        status@.config is None ==> value@.len() == 0,
        status@.config matches Some(layout) ==> {
            &&& value@.len() == 3 + layout.nodes.len()
            &&& value@[0] == 1
            &&& value@[1] == 0
            &&& value@[2] == layout.nodes.len()
            &&& forall|i: int|
                0 <= i < layout.nodes.len() ==> value@[3 + i] == (
                #[trigger] layout.nodes[i]).role.spec_code()
        },
{
    let encode = |config: &KeyboardSystemStatusConfig| -> (value: SystemInfo)
        ensures
            value@ == system_info_bytes(config@.nodes) && config@.nodes.len() <= MAX_NODES
        { encode_system_info(config.nodes()) };
    match with_config(status, encode) {
        Some(value) => value,
        None => fixed_vec::info_new(),
    }
}

/// The Node Status value of the installed configuration for the given battery
/// readings, and an empty value where there is none.
pub fn node_status(status: &KeyboardSystemStatus, readings: &BatteryReadings) -> (value: NodeStatus)
    ensures
        value@ == status@.node_status(*readings),
        status@.config is None ==> value@.len() == 0,
        status@.config matches Some(layout) ==> value@ == node_status_bytes(
            layout.nodes,
            *readings,
        ),
{
    let encode = |config: &KeyboardSystemStatusConfig| -> (value: NodeStatus)
        ensures
            value@ == node_status_bytes(config@.nodes, *readings)
        { encode_node_status(config.nodes(), readings) };
    match with_config(status, encode) {
        Some(value) => value,
        None => fixed_vec::levels_new(),
    }
}

/// The Layer Status value of the published layers.
pub fn layer_status(state: &LayerState) -> (value: [u8; LAYER_STATUS_LEN])
    requires
        state@.layers.active.len() <= MAX_STATUS_LAYERS,
    ensures
        value@ == layer_status_bytes(state@.layers),
{
    encode_layer_status(layer::current_layer_state(state))
}

/// Startup processor that installs the application-provided node config.
///
/// Battery and split drivers signal changes directly, so it consumes no event
/// subscriber slots after initialization.
pub struct KeyboardSystemStatusProcessor;

impl KeyboardSystemStatusProcessor {
    /// Installs the node configuration.
    pub fn new(
        status: &mut KeyboardSystemStatus,
        config: KeyboardSystemStatusConfig,
    ) -> (processor: Self)
        requires
            old(status)@.config is None,
        ensures
            final(status)@ == (SystemStatus { config: Some(config@), changed: true, awaited: false }),
    {
        install_config(status, config);
        Self
    }
}

} // verus!
