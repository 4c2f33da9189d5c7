//! What each operation does, said of its inputs and results alone.
//!
//! The contracts of the executable functions speak of spec functions such as
//! [`Layers::of_keymap`]. Each property here fixes one of them by facts that
//! mention no other definition of the library: bits as binary digits, codes and
//! limits as numbers, and the plain fields of the data.

use crate::bits;
use crate::fixed_vec;
use crate::fixed_vec::NodeList;
use crate::fixed_vec::NodeStatus;
use crate::fixed_vec::SystemInfo;
use crate::node;
use crate::node::BatterySource;
use crate::node::NodeConfig;
use crate::node::NodeRole;
use crate::node::SplitSupport;
use crate::server;
use crate::server::Action;
use crate::server::ServerState;
use crate::signal;
use crate::signal::Wakeup;
use crate::state::battery::BatteryStatus;
use crate::state::battery::ChargeState;
use crate::state::layer;
use crate::state::layer::LayerStateSnapshot;
use crate::state::layer::Layers;
use crate::state::layer::PublishedLayers;
use crate::status;
use crate::status::BatteryReadings;
use crate::status::SystemStatus;
use vstd::prelude::*;

verus! {

// Layers.
/// A snapshot of a keymap has the keymap's default layer and as many layers as
/// the keymap, and a layer is active in it exactly when the keymap marks the
/// layer active or the layer is the default one.
pub proof fn law_keymap_decides_each_layer(default_layer: u8, layer_state: Seq<bool>, i: int)
    requires
        0 <= i < layer_state.len(),
    ensures
        Layers::of_keymap(default_layer, layer_state).default_layer == default_layer,
        Layers::of_keymap(default_layer, layer_state).active.len() == layer_state.len(),
        Layers::of_keymap(default_layer, layer_state).active[i] <==> layer_state[i] || i
            == default_layer,
        Layers::of_keymap(default_layer, layer_state).is_active(i) <==> layer_state[i] || i
            == default_layer,
{
}

/// Marking one layer of a keymap, other than the default layer, active or
/// inactive does just that to the snapshot, and nothing else.
pub proof fn law_each_layer_is_switched_alone(
    default_layer: u8,
    layer_state: Seq<bool>,
    i: int,
    flag: bool,
)
    requires
        0 <= i < layer_state.len(),
        i != default_layer,
    ensures
        Layers::of_keymap(default_layer, layer_state.update(i, flag)).active == Layers::of_keymap(
            default_layer,
            layer_state,
        ).active.update(i, flag),
        Layers::of_keymap(default_layer, layer_state.update(i, flag)).default_layer
            == Layers::of_keymap(default_layer, layer_state).default_layer,
{
    assert(Layers::of_keymap(default_layer, layer_state.update(i, flag)).active
        =~= Layers::of_keymap(default_layer, layer_state).active.update(i, flag));
}

/// A keymap with another default layer differs in these two layers at most.
pub proof fn law_default_layer_affects_itself_alone(
    a: u8,
    b: u8,
    layer_state: Seq<bool>,
    i: int,
)
    requires
        0 <= i < layer_state.len(),
        i != a,
        i != b,
    ensures
        Layers::of_keymap(a, layer_state).active[i] == Layers::of_keymap(b, layer_state).active[i],
{
}

/// A layer is reported active exactly when it exists and its flag is set.
pub proof fn law_layer_is_active_by_its_flag(layers: Layers, layer: int)
    ensures
        0 <= layer < layers.active.len() ==> layers.is_active(layer) == layers.active[layer],
        layer < 0 || layers.active.len() <= layer ==> !layers.is_active(layer),
{
}

/// Before a keymap is published there is no layer, and the default layer is 0.
pub proof fn law_no_layers_before_a_keymap()
    ensures
        Layers::none().active.len() == 0,
        Layers::none().default_layer == 0,
{
}

/// A snapshot has at most 256 layers. Its default layer is one of them and is
/// active; without layers the default layer is 0.
pub proof fn law_snapshot_bounds(snapshot: LayerStateSnapshot)
    requires
        snapshot.wf(),
    ensures
        snapshot@.active.len() <= 256,
        snapshot@.active.len() > 0 ==> snapshot@.default_layer < snapshot@.active.len()
            && snapshot@.active[snapshot@.default_layer as int],
        snapshot@.active.len() == 0 ==> snapshot@.default_layer == 0,
{
    snapshot.lemma_valid();
}

/// Two snapshots compare equal exactly when they agree on the default layer, on
/// the number of layers, and on each layer.
pub proof fn law_equal_snapshots_agree_everywhere(a: LayerStateSnapshot, b: LayerStateSnapshot)
    ensures
        vstd::std_specs::cmp::PartialEqSpec::eq_spec(&a, &b) <==> {
            &&& a@.default_layer == b@.default_layer
            &&& a@.active.len() == b@.active.len()
            &&& forall|i: int| 0 <= i < a@.active.len() ==> a@.active[i] == b@.active[i]
        },
{
    if a@.active.len() == b@.active.len() && (forall|i: int|
        0 <= i < a@.active.len() ==> a@.active[i] == b@.active[i]) {
        assert(a@.active =~= b@.active);
    }
}

/// An update publishes what the keymap says of every layer. The wakeup is raised
/// afterwards exactly when it was raised before or the published layers are
/// other ones than before; an observer waits on exactly when it waited before
/// and the published layers are the same.
pub proof fn law_update_publishes_the_keymap(
    before: PublishedLayers,
    default_layer: u8,
    layer_state: Seq<bool>,
    i: int,
)
    requires
        0 <= i < layer_state.len(),
    ensures
        ({
            let after = before.updated(default_layer, layer_state);
            &&& after.layers.default_layer == default_layer
            &&& after.layers.active.len() == layer_state.len()
            &&& after.layers.active[i] <==> layer_state[i] || i == default_layer
            &&& after.changed <==> before.changed || before.layers != after.layers
            &&& after.awaited <==> before.awaited && before.layers == after.layers
        }),
{
}

// Bitmaps.
/// A bit of a byte is the binary digit of the byte's value at that place.
pub proof fn law_bit_is_a_binary_digit(byte: u8, index: u8)
    requires
        index < 8,
    ensures
        bits::bit(byte, index) <==> (byte as int / vstd::arithmetic::power2::pow2(
            index as nat,
        ) as int) % 2 == 1,
{
    vstd::arithmetic::power2::lemma2_to64();
    assert({
        &&& (byte & (1u8 << 0u8) != 0) == ((byte / 0x01) % 2 == 1)
        &&& (byte & (1u8 << 1u8) != 0) == ((byte / 0x02) % 2 == 1)
        &&& (byte & (1u8 << 2u8) != 0) == ((byte / 0x04) % 2 == 1)
        &&& (byte & (1u8 << 3u8) != 0) == ((byte / 0x08) % 2 == 1)
        &&& (byte & (1u8 << 4u8) != 0) == ((byte / 0x10) % 2 == 1)
        &&& (byte & (1u8 << 5u8) != 0) == ((byte / 0x20) % 2 == 1)
        &&& (byte & (1u8 << 6u8) != 0) == ((byte / 0x40) % 2 == 1)
        &&& (byte & (1u8 << 7u8) != 0) == ((byte / 0x80) % 2 == 1)
    }) by (bit_vector);
}

/// A packed bitmap has the given length, and the binary digit at place `i % 8`
/// of byte `i / 8` is 1 exactly when flag `i` exists and is set.
pub proof fn law_packed_digits_are_the_flags(flags: Seq<bool>, len: nat, i: int)
    requires
        0 <= i < 8 * len,
    ensures
        bits::packed(flags, len).len() == len,
        (bits::packed(flags, len)[i / 8] as int / vstd::arithmetic::power2::pow2(
            (i % 8) as nat,
        ) as int) % 2 == 1 <==> i < flags.len() && flags[i],
{
    bits::lemma_packed_bit(flags, len, i);
    law_bit_is_a_binary_digit(bits::packed(flags, len)[i / 8], (i % 8) as u8);
}

// Layer Status.
/// Layer Status has 5 bytes. The first is the default layer, and among the
/// other four the binary digit at place `layer % 8` of byte `layer / 8` is 1
/// exactly when the layer exists and is active.
pub proof fn law_layer_status_digits_are_the_layers(layers: Layers, layer: int)
    requires
        0 <= layer < 32,
    ensures
        status::layer_status_bytes(layers).len() == 5,
        status::layer_status_bytes(layers)[0] == layers.default_layer,
        (status::layer_status_bytes(layers)[1 + layer / 8] as int
            / vstd::arithmetic::power2::pow2((layer % 8) as nat) as int) % 2 == 1 <==> layer
            < layers.active.len() && layers.active[layer],
{
    law_packed_digits_are_the_flags(layers.active, 4, layer);
    assert(status::layer_status_bytes(layers)[1 + layer / 8] == bits::packed(layers.active, 4)[layer
        / 8]);
}

// Roles and System Info.
/// The code of every role.
pub proof fn law_role_codes(role: NodeRole)
    ensures
        role == NodeRole::Main <==> role.spec_code() == 0,
        role == NodeRole::Left <==> role.spec_code() == 1,
        role == NodeRole::Right <==> role.spec_code() == 2,
        role == NodeRole::PointingDevice <==> role.spec_code() == 3,
        role == NodeRole::Numpad <==> role.spec_code() == 4,
        role == NodeRole::Other <==> role.spec_code() == 255,
{
}

/// System Info of a node list has three bytes and one more per node: 1, 0, the
/// number of nodes, and at place `3 + i` the code of node `i`'s role.
pub proof fn law_system_info_describes_every_node(nodes: Seq<NodeConfig>, i: int)
    requires
        nodes.len() <= 8,
        0 <= i < nodes.len(),
    ensures
        status::system_info_bytes(nodes).len() == 3 + nodes.len(),
        status::system_info_bytes(nodes)[0] == 1,
        status::system_info_bytes(nodes)[1] == 0,
        status::system_info_bytes(nodes)[2] == nodes.len(),
        nodes[i].role == NodeRole::Main <==> status::system_info_bytes(nodes)[3 + i] == 0,
        nodes[i].role == NodeRole::Left <==> status::system_info_bytes(nodes)[3 + i] == 1,
        nodes[i].role == NodeRole::Right <==> status::system_info_bytes(nodes)[3 + i] == 2,
        nodes[i].role == NodeRole::PointingDevice <==> status::system_info_bytes(nodes)[3 + i] == 3,
        nodes[i].role == NodeRole::Numpad <==> status::system_info_bytes(nodes)[3 + i] == 4,
        nodes[i].role == NodeRole::Other <==> status::system_info_bytes(nodes)[3 + i] == 255,
{
    assert(status::system_info_bytes(nodes)[3 + i] == nodes[i].role.spec_code());
    law_role_codes(nodes[i].role);
}

/// System Info of no nodes is the header alone.
pub proof fn law_system_info_of_no_nodes(nodes: Seq<NodeConfig>)
    requires
        nodes.len() == 0,
    ensures
        status::system_info_bytes(nodes) == seq![1u8, 0u8, 0u8],
{
    assert(status::system_info_bytes(nodes) =~= seq![1u8, 0u8, 0u8]);
}

/// One more node adds one byte to System Info and one to its count, and keeps
/// the rest.
pub proof fn law_system_info_of_one_more_node(nodes: Seq<NodeConfig>, node: NodeConfig)
    requires
        nodes.len() < 8,
    ensures
        status::system_info_bytes(nodes.push(node)).drop_last() == status::system_info_bytes(
            nodes,
        ).update(2, (nodes.len() + 1) as u8),
{
    assert(status::system_info_bytes(nodes.push(node)).drop_last() =~= status::system_info_bytes(
        nodes,
    ).update(2, (nodes.len() + 1) as u8));
}

/// The System Info value describes every node of the installed configuration:
/// it has three bytes and one more per node, 1, 0, the number of nodes, and at
/// place `3 + i` the code of node `i`'s role.
pub proof fn law_installed_system_info_describes_every_node(status: SystemStatus, i: int)
    requires
        status.config is Some,
        status.config->0.nodes.len() <= 8,
        0 <= i < status.config->0.nodes.len(),
    ensures
        ({
            let role = status.config->0.nodes[i].role;
            let value = status.system_info();
            &&& value.len() == 3 + status.config->0.nodes.len()
            &&& value[0] == 1
            &&& value[1] == 0
            &&& value[2] == status.config->0.nodes.len()
            &&& role == NodeRole::Main <==> value[3 + i] == 0
            &&& role == NodeRole::Left <==> value[3 + i] == 1
            &&& role == NodeRole::Right <==> value[3 + i] == 2
            &&& role == NodeRole::PointingDevice <==> value[3 + i] == 3
            &&& role == NodeRole::Numpad <==> value[3 + i] == 4
            &&& role == NodeRole::Other <==> value[3 + i] == 255
        }),
{
    law_system_info_describes_every_node(status.config->0.nodes, i);
}

/// Without an installed configuration both values are empty.
pub proof fn law_values_are_empty_without_a_config(status: SystemStatus, readings: BatteryReadings)
    requires
        status.config is None,
    ensures
        status.system_info().len() == 0,
        status.node_status(readings).len() == 0,
{
}

// Batteries and Node Status.
/// A known level of at most 100 is reported as it is, whatever the charge state.
pub proof fn law_known_battery_level_is_reported(charge_state: ChargeState, level: u8)
    requires
        level <= 100,
    ensures
        status::spec_battery_level(BatteryStatus::Available { charge_state, level: Some(level) })
            == level,
{
}

/// A battery that is unavailable, whose level is not known, or whose level is
/// above 100 is reported as 255, whatever the charge state.
pub proof fn law_other_battery_level_is_unknown(charge_state: ChargeState, level: u8)
    requires
        level > 100,
    ensures
        status::spec_battery_level(BatteryStatus::Unavailable) == 255,
        status::spec_battery_level(BatteryStatus::Available { charge_state, level: None }) == 255,
        status::spec_battery_level(BatteryStatus::Available { charge_state, level: Some(level) })
            == 255,
{
}

/// Whether a battery is being charged makes no difference to its level.
pub proof fn law_charge_state_is_irrelevant(a: ChargeState, b: ChargeState, level: Option<u8>)
    ensures
        status::spec_battery_level(BatteryStatus::Available { charge_state: a, level })
            == status::spec_battery_level(BatteryStatus::Available { charge_state: b, level }),
{
}

/// Node Status holds one byte per node.
pub proof fn law_node_status_has_a_byte_per_node(nodes: Seq<NodeConfig>, readings: BatteryReadings)
    ensures
        status::node_status_bytes(nodes, readings).len() == nodes.len(),
{
}

/// A node that reads the host node's battery reports that battery's level.
pub proof fn law_central_node_reports_the_central_battery(
    nodes: Seq<NodeConfig>,
    readings: BatteryReadings,
    i: int,
    charge_state: ChargeState,
    level: u8,
)
    requires
        0 <= i < nodes.len(),
        nodes[i].battery_source == BatterySource::Central,
        readings.central == (BatteryStatus::Available { charge_state, level: Some(level) }),
    ensures
        level <= 100 ==> status::node_status_bytes(nodes, readings)[i] == level,
        level > 100 ==> status::node_status_bytes(nodes, readings)[i] == 255,
{
}

/// A node that reads split peripheral `id`'s battery reports that peripheral's
/// level.
pub proof fn law_peripheral_node_reports_its_own_battery(
    nodes: Seq<NodeConfig>,
    readings: BatteryReadings,
    i: int,
    id: usize,
    charge_state: ChargeState,
    level: u8,
)
    requires
        0 <= i < nodes.len(),
        nodes[i].battery_source == BatterySource::Peripheral(id),
        id < readings.peripherals@.len(),
        readings.peripherals@[id as int] == Some(
            BatteryStatus::Available { charge_state, level: Some(level) },
        ),
    ensures
        level <= 100 ==> status::node_status_bytes(nodes, readings)[i] == level,
        level > 100 ==> status::node_status_bytes(nodes, readings)[i] == 255,
{
}

/// A node reports 255 where its battery is not exposed, its peripheral is not
/// connected, or the level of its battery is not known.
pub proof fn law_node_without_a_level_reports_unknown(
    nodes: Seq<NodeConfig>,
    readings: BatteryReadings,
    i: int,
)
    requires
        0 <= i < nodes.len(),
        match nodes[i].battery_source {
            BatterySource::Central => match readings.central {
                BatteryStatus::Unavailable => true,
                BatteryStatus::Available { level, .. } => level is None,
            },
            BatterySource::Peripheral(id) => id >= readings.peripherals@.len()
                || match readings.peripherals@[id as int] {
                None => true,
                Some(BatteryStatus::Unavailable) => true,
                Some(BatteryStatus::Available { level, .. }) => level is None,
            },
            BatterySource::NotExposed => true,
        },
    ensures
        status::node_status_bytes(nodes, readings)[i] == 255,
{
}

/// The byte of a node depends on the node's own battery alone: it is the same
/// under any two readings that agree on that battery, and the same for any two
/// nodes with one battery source.
pub proof fn law_node_byte_depends_on_its_own_battery(
    a: Seq<NodeConfig>,
    b: Seq<NodeConfig>,
    first: BatteryReadings,
    second: BatteryReadings,
    i: int,
    j: int,
)
    requires
        0 <= i < a.len(),
        0 <= j < b.len(),
        a[i].battery_source == b[j].battery_source,
        a[i].battery_source == BatterySource::Central ==> first.central == second.central,
        forall|id: usize|
            a[i].battery_source == BatterySource::Peripheral(id) ==> (id < first.peripherals@.len()
                <==> id < second.peripherals@.len()) && (id < first.peripherals@.len()
                ==> #[trigger] first.peripherals@[id as int] == second.peripherals@[id as int]),
    ensures
        status::node_status_bytes(a, first)[i] == status::node_status_bytes(b, second)[j],
{
}

/// The Node Status value reports on every node of the installed configuration:
/// it has one byte per node, and each byte is the one of that node by itself.
pub proof fn law_installed_node_status_reports_every_node(
    status: SystemStatus,
    readings: BatteryReadings,
    i: int,
)
    requires
        status.config is Some,
        0 <= i < status.config->0.nodes.len(),
    ensures
        status.node_status(readings).len() == status.config->0.nodes.len(),
        status.node_status(readings)[i] == status::node_status_bytes(
            seq![status.config->0.nodes[i]],
            readings,
        )[0],
{
}

// Configurations.
/// A list of 1 to 8 nodes is accepted exactly when every peripheral that a node
/// names exists, wherever the node stands; no other list is accepted.
pub proof fn law_accepted_lists_are_those_in_range(nodes: Seq<NodeConfig>, split: SplitSupport)
    ensures
        node::nodes_valid(nodes, split) <==> {
            &&& 1 <= nodes.len() <= 8
            &&& forall|i: int|
                0 <= i < nodes.len() ==> match (#[trigger] nodes[i]).battery_source {
                    BatterySource::Central => true,
                    BatterySource::Peripheral(id) => match split {
                        SplitSupport::Disabled => false,
                        SplitSupport::Peripherals(count) => id < count,
                    },
                    BatterySource::NotExposed => true,
                }
        },
{
    if 1 <= nodes.len() <= 8 && (forall|i: int|
        0 <= i < nodes.len() ==> match (#[trigger] nodes[i]).battery_source {
            BatterySource::Central => true,
            BatterySource::Peripheral(id) => match split {
                SplitSupport::Disabled => false,
                SplitSupport::Peripherals(count) => id < count,
            },
            BatterySource::NotExposed => true,
        }) {
        assert(node::nodes_valid(nodes, split));
    }
    if node::nodes_valid(nodes, split) {
        assert forall|i: int| 0 <= i < nodes.len() implies match (
        #[trigger] nodes[i]).battery_source {
            BatterySource::Central => true,
            BatterySource::Peripheral(id) => match split {
                SplitSupport::Disabled => false,
                SplitSupport::Peripherals(count) => id < count,
            },
            BatterySource::NotExposed => true,
        } by {
            assert(!node::source_rejected(nodes[i].battery_source, split));
        }
    }
}

/// The order of the nodes makes no difference to whether they are accepted.
pub proof fn law_node_order_is_irrelevant_to_acceptance(
    nodes: Seq<NodeConfig>,
    split: SplitSupport,
    i: int,
    j: int,
)
    requires
        0 <= i < nodes.len(),
        0 <= j < nodes.len(),
        node::nodes_valid(nodes, split),
    ensures
        node::nodes_valid(nodes.update(i, nodes[j]).update(j, nodes[i]), split),
{
    let swapped = nodes.update(i, nodes[j]).update(j, nodes[i]);
    law_accepted_lists_are_those_in_range(nodes, split);
    assert forall|k: int| 0 <= k < swapped.len() implies match (
    #[trigger] swapped[k]).battery_source {
        BatterySource::Central => true,
        BatterySource::Peripheral(id) => match split {
            SplitSupport::Disabled => false,
            SplitSupport::Peripherals(count) => id < count,
        },
        BatterySource::NotExposed => true,
    } by {
        let from = if k == j {
            i
        } else if k == i {
            j
        } else {
            k
        };
        assert(swapped[k] == nodes[from]);
    }
    law_accepted_lists_are_those_in_range(swapped, split);
}

/// The peripheral that is reported out of range does not exist, and every
/// peripheral that an earlier node names does.
pub proof fn law_reported_peripheral_is_the_first_missing_one(
    nodes: Seq<NodeConfig>,
    count: usize,
    i: int,
    id: usize,
)
    requires
        0 <= i < nodes.len(),
        nodes[i].battery_source == BatterySource::Peripheral(id),
    ensures
        node::is_first_rejected(nodes, SplitSupport::Peripherals(count), i) <==> {
            &&& id >= count
            &&& forall|j: int|
                0 <= j < i ==> match (#[trigger] nodes[j]).battery_source {
                    BatterySource::Central => true,
                    BatterySource::Peripheral(earlier) => earlier < count,
                    BatterySource::NotExposed => true,
                }
        },
{
    let split = SplitSupport::Peripherals(count);
    if node::is_first_rejected(nodes, split, i) {
        assert forall|j: int| 0 <= j < i implies match (#[trigger] nodes[j]).battery_source {
            BatterySource::Central => true,
            BatterySource::Peripheral(earlier) => earlier < count,
            BatterySource::NotExposed => true,
        } by {
            assert(!node::source_rejected(nodes[j].battery_source, split));
        }
    }
}

/// Only a node that reads a split peripheral's battery can be reported.
pub proof fn law_reported_node_names_a_peripheral(
    nodes: Seq<NodeConfig>,
    split: SplitSupport,
    i: int,
)
    requires
        node::is_first_rejected(nodes, split, i),
    ensures
        0 <= i < nodes.len(),
        nodes[i].battery_source is Peripheral,
{
}

// The server.
/// A handle is recognised exactly when it is one of the two descriptors.
pub proof fn law_cccd_handle_is_one_of_the_descriptors(
    node_status_cccd: Option<u16>,
    layer_status_cccd: Option<u16>,
    handle: u16,
)
    ensures
        node_status_cccd == Some(handle) ==> server::spec_is_cccd_handle(
            node_status_cccd,
            layer_status_cccd,
            handle,
        ),
        layer_status_cccd == Some(handle) ==> server::spec_is_cccd_handle(
            node_status_cccd,
            layer_status_cccd,
            handle,
        ),
        node_status_cccd != Some(handle) && layer_status_cccd != Some(handle)
            ==> !server::spec_is_cccd_handle(node_status_cccd, layer_status_cccd, handle),
{
}

/// A waiting task whose Node Status value has changed records that value and
/// notifies the host of it.
pub proof fn law_changed_node_status_is_notified(
    server: ServerState,
    node_status: Seq<u8>,
    layer_status: Seq<u8>,
)
    requires
        server.action == Action::Wait,
        node_status != server.node_status,
    ensures
        server.step(node_status, layer_status).action == Action::NotifyNodeStatus,
        server.step(node_status, layer_status).node_status == node_status,
        server.step(node_status, layer_status).layer_status == server.layer_status,
{
}

/// A task that is done with Node Status turns to Layer Status: it records a
/// changed value and notifies the host of it, and otherwise waits.
pub proof fn law_layer_status_follows_node_status(
    server: ServerState,
    node_status: Seq<u8>,
    layer_status: Seq<u8>,
)
    requires
        server.action == Action::NotifyNodeStatus || (server.action == Action::Wait && node_status
            == server.node_status),
    ensures
        server.step(node_status, layer_status).node_status == server.node_status,
        server.step(node_status, layer_status).layer_status == layer_status,
        layer_status != server.layer_status ==> server.step(node_status, layer_status).action
            == Action::NotifyLayerStatus,
        layer_status == server.layer_status ==> server.step(node_status, layer_status).action
            == Action::Wait,
{
}

/// A task that is done with Layer Status waits, with its values kept.
pub proof fn law_wait_follows_layer_status(
    server: ServerState,
    node_status: Seq<u8>,
    layer_status: Seq<u8>,
)
    requires
        server.action == Action::NotifyLayerStatus,
    ensures
        server.step(node_status, layer_status).action == Action::Wait,
        server.step(node_status, layer_status).node_status == server.node_status,
        server.step(node_status, layer_status).layer_status == server.layer_status,
{
}

/// A step looks at the Layer Status value exactly when that value can make a
/// difference to it.
pub proof fn law_layers_are_read_when_they_matter(
    server: ServerState,
    node_status: Seq<u8>,
    a: Seq<u8>,
    b: Seq<u8>,
)
    requires
        a != b,
    ensures
        server.reads_layer_status(node_status) <==> server.step(node_status, a) != server.step(
            node_status,
            b,
        ),
{
    if server.reads_layer_status(node_status) {
        assert(server.step(node_status, a).layer_status == a);
        assert(server.step(node_status, b).layer_status == b);
    }
}

// Wakeups.
/// A wakeup is raised or awaited exactly when its signal is.
pub proof fn law_wakeup_is_its_signal(wakeup: Wakeup)
    ensures
        wakeup@.raised == signal::is_raised(wakeup),
        wakeup@.awaited == signal::is_awaited(wakeup),
{
}

// Values, identifiers and limits.
/// A node list, a System Info value and a Node Status value are their items.
pub proof fn law_values_are_their_items(nodes: NodeList, info: SystemInfo, levels: NodeStatus)
    ensures
        nodes@ == fixed_vec::node_items(nodes),
        info@ == fixed_vec::info_items(info),
        levels@ == fixed_vec::level_items(levels),
{
}

/// The identifiers by which a host finds the service and its characteristics,
/// and the limits of their values.
pub proof fn law_identifiers_and_limits()
    ensures
        status::KEYBOARD_SYSTEM_STATUS_SERVICE_UUID == 0x291c4b33_35fd_4c51_913e_109541021218,
        status::SYSTEM_INFO_UUID == 0xb7fb6869_d828_4f31_9ad8_949da7df35dc,
        status::NODE_STATUS_UUID == 0xe5c2c1e1_025b_4b09_be4e_4d052525e4d0,
        status::LAYER_STATUS_UUID == 0x68777b88_895f_4d13_b433_adb93a243c6b,
        status::UNKNOWN_BATTERY_LEVEL == 255,
        status::MAX_STATUS_LAYERS == 32,
        status::LAYER_STATUS_LEN == 5,
        node::MAX_NODES == 8,
        node::MAX_SYSTEM_INFO_LEN == 11,
        layer::MAX_LAYER_STATE_LAYERS == 256,
        layer::LAYER_BITMAP_LEN == 32,
{
}

} // verus!
