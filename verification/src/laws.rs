//! Properties of the library as a whole.

use crate::bits;
use crate::node;
use crate::node::BatterySource;
use crate::node::KeyboardSystemStatusConfig;
use crate::node::NodeConfig;
use crate::node::NodeRole;
use crate::node::SplitSupport;
use crate::node::MAX_NODES;
use crate::server;
use crate::server::Action;
use crate::server::ServerState;
use crate::server::Values;
use crate::state::battery::BatteryStatus;
use crate::state::layer::LayerStateSnapshot;
use crate::state::layer::Layers;
use crate::state::layer::PublishedLayers;
use crate::state::layer::MAX_LAYER_STATE_LAYERS;
use crate::status;
use crate::status::BatteryReadings;
use crate::status::SystemStatus;
use crate::status::MAX_STATUS_LAYERS;
use crate::status::UNKNOWN_BATTERY_LEVEL;
use vstd::prelude::*;

verus! {

/// The default layer of a snapshot is always active, once there are layers.
pub proof fn law_default_layer_is_active(snapshot: LayerStateSnapshot)
    requires
        snapshot.wf(),
        snapshot@.active.len() > 0,
    ensures
        snapshot@.is_active(snapshot@.default_layer as int),
{
    snapshot.lemma_valid();
}

/// What a keymap reports is a valid layer state.
pub proof fn law_keymap_layers_are_valid(default_layer: u8, layer_state: Seq<bool>)
    requires
        1 <= layer_state.len() <= MAX_LAYER_STATE_LAYERS,
        default_layer < layer_state.len(),
    ensures
        Layers::of_keymap(default_layer, layer_state).valid(),
{
}

/// Only the effective layers count: it makes no difference whether the keymap
/// marks its default layer active.
pub proof fn law_flag_of_default_layer_is_irrelevant(
    default_layer: u8,
    layer_state: Seq<bool>,
    flag: bool,
)
    requires
        default_layer < layer_state.len(),
    ensures
        Layers::of_keymap(default_layer, layer_state.update(default_layer as int, flag))
            == Layers::of_keymap(default_layer, layer_state),
{
    assert(Layers::of_keymap(default_layer, layer_state.update(default_layer as int, flag))
        =~= Layers::of_keymap(default_layer, layer_state));
}

/// Layer states with the same default layer, layer count and active layers are
/// the same.
pub proof fn law_layers_are_what_they_report(a: Layers, b: Layers)
    requires
        a.default_layer == b.default_layer,
        a.active.len() == b.active.len(),
        forall|layer: int|
            0 <= layer < MAX_LAYER_STATE_LAYERS ==> #[trigger] a.is_active(layer) == b.is_active(
                layer,
            ),
        a.valid(),
        b.valid(),
    ensures
        a == b,
{
    assert forall|layer: int| 0 <= layer < a.active.len() implies a.active[layer]
        == b.active[layer] by {
        assert(a.is_active(layer) == b.is_active(layer));
    }
    assert(a =~= b);
}

/// The bitmap of the active layers has the bit of a layer set exactly when the
/// layer is active.
pub proof fn law_bitmap_bits_are_active_layers(layers: Layers, len: nat, layer: int)
    requires
        0 <= layer < 8 * len,
    ensures
        bits::bitmap_bit(bits::packed(layers.active, len), layer) == layers.is_active(layer),
{
    bits::lemma_packed_bit(layers.active, len, layer);
}

/// An update wakes the observer exactly when it changes the effective layers.
pub proof fn law_update_wakes_on_change(
    before: PublishedLayers,
    default_layer: u8,
    layer_state: Seq<bool>,
)
    requires
        !before.changed,
    ensures
        before.updated(default_layer, layer_state).changed <==> before.layers != Layers::of_keymap(
            default_layer,
            layer_state,
        ),
{
}

/// Publishing the same layers again does not wake the observer, and changes
/// nothing.
pub proof fn law_repeated_update_is_silent(
    before: PublishedLayers,
    default_layer: u8,
    layer_state: Seq<bool>,
)
    ensures
        ({
            let taken = PublishedLayers {
                changed: false,
                ..before.updated(default_layer, layer_state)
            };
            taken.updated(default_layer, layer_state) == taken
        }),
{
}

/// No update withdraws a wakeup that has not been taken yet.
pub proof fn law_wakeup_is_not_lost(
    before: PublishedLayers,
    default_layer: u8,
    layer_state: Seq<bool>,
)
    requires
        before.changed,
    ensures
        before.updated(default_layer, layer_state).changed,
{
}

/// An observer that waits for the layers to change is not forgotten: after an
/// update it waits on, or it has been woken by a change.
pub proof fn law_waiting_observer_is_not_forgotten(
    before: PublishedLayers,
    default_layer: u8,
    layer_state: Seq<bool>,
)
    requires
        before.awaited,
    ensures
        ({
            let after = before.updated(default_layer, layer_state);
            &&& after.layers == before.layers ==> after == before
            &&& after.layers != before.layers ==> after.changed && !after.awaited
        }),
{
}

/// A configuration holds between 1 and [`MAX_NODES`] nodes.
pub proof fn law_config_node_count(config: KeyboardSystemStatusConfig)
    requires
        config.wf(),
    ensures
        1 <= config@.nodes.len() <= MAX_NODES,
{
    config.lemma_valid();
}

/// Every peripheral battery source of a configuration names a split peripheral
/// that exists.
pub proof fn law_config_peripherals_exist(config: KeyboardSystemStatusConfig, i: int, id: usize)
    requires
        config.wf(),
        0 <= i < config@.nodes.len(),
        config@.nodes[i].battery_source == BatterySource::Peripheral(id),
    ensures
        config@.split matches SplitSupport::Peripherals(count) && id < count,
{
    config.lemma_valid();
    assert(!node::source_rejected(config@.nodes[i].battery_source, config@.split));
}

/// Different roles have different codes.
pub proof fn law_role_codes_are_distinct(a: NodeRole, b: NodeRole)
    requires
        a.spec_code() == b.spec_code(),
    ensures
        a == b,
{
}

/// System Info holds the version 1.0, the number of nodes, and the code of each
/// node's role at the node's place.
pub proof fn law_system_info_layout(nodes: Seq<NodeConfig>)
    requires
        nodes.len() <= MAX_NODES,
    ensures
        status::system_info_bytes(nodes).len() == 3 + nodes.len(),
        status::system_info_bytes(nodes)[0] == 1,
        status::system_info_bytes(nodes)[1] == 0,
        status::system_info_bytes(nodes)[2] == nodes.len(),
        forall|i: int|
            0 <= i < nodes.len() ==> status::system_info_bytes(nodes)[3 + i] == (
            #[trigger] nodes[i]).role.spec_code(),
{
}

/// System Info determines the roles of the nodes and their order.
pub proof fn law_system_info_determines_roles(a: Seq<NodeConfig>, b: Seq<NodeConfig>)
    requires
        a.len() <= MAX_NODES,
        b.len() <= MAX_NODES,
        status::system_info_bytes(a) == status::system_info_bytes(b),
    ensures
        a.len() == b.len(),
        forall|i: int| 0 <= i < a.len() ==> (#[trigger] a[i]).role == b[i].role,
{
    law_system_info_layout(a);
    law_system_info_layout(b);
    assert forall|i: int| 0 <= i < a.len() implies (#[trigger] a[i]).role == b[i].role by {
        assert(status::system_info_bytes(a)[3 + i] == a[i].role.spec_code());
        assert(status::system_info_bytes(b)[3 + i] == b[i].role.spec_code());
        law_role_codes_are_distinct(a[i].role, b[i].role);
    }
}

/// System Info and Node Status list the same nodes in the same order: Node
/// Status holds as many levels as System Info counts nodes, and the level at
/// each place is that of the node whose role System Info holds there.
pub proof fn law_values_share_node_order(nodes: Seq<NodeConfig>, readings: BatteryReadings)
    requires
        nodes.len() <= MAX_NODES,
    ensures
        status::node_status_bytes(nodes, readings).len() == status::system_info_bytes(nodes)[2],
        forall|i: int|
            0 <= i < nodes.len() ==> status::node_status_bytes(nodes, readings)[i]
                == readings.level((#[trigger] nodes[i]).battery_source)
                && status::system_info_bytes(nodes)[3 + i] == nodes[i].role.spec_code(),
{
    law_system_info_layout(nodes);
}

/// The level reported for a battery is a percentage or the unknown level.
pub proof fn law_battery_level_is_percentage_or_unknown(status: BatteryStatus)
    ensures
        status::spec_battery_level(status) <= 100 || status::spec_battery_level(status)
            == UNKNOWN_BATTERY_LEVEL,
{
}

/// Every byte of Node Status is a percentage or the unknown level.
pub proof fn law_node_status_bytes_are_levels(
    nodes: Seq<NodeConfig>,
    readings: BatteryReadings,
    i: int,
)
    requires
        0 <= i < nodes.len(),
    ensures
        status::node_status_bytes(nodes, readings)[i] <= 100 || status::node_status_bytes(
            nodes,
            readings,
        )[i] == UNKNOWN_BATTERY_LEVEL,
{
}

/// A node without an exposed battery reports the unknown level, whatever is
/// measured elsewhere.
pub proof fn law_unexposed_battery_is_unknown(
    nodes: Seq<NodeConfig>,
    readings: BatteryReadings,
    i: int,
)
    requires
        0 <= i < nodes.len(),
        nodes[i].battery_source == BatterySource::NotExposed,
    ensures
        status::node_status_bytes(nodes, readings)[i] == UNKNOWN_BATTERY_LEVEL,
{
}

/// A split peripheral that is not connected reports the unknown level.
pub proof fn law_unconnected_peripheral_is_unknown(
    nodes: Seq<NodeConfig>,
    readings: BatteryReadings,
    i: int,
    id: usize,
)
    requires
        0 <= i < nodes.len(),
        nodes[i].battery_source == BatterySource::Peripheral(id),
        id >= readings.peripherals@.len() || readings.peripherals@[id as int] is None,
    ensures
        status::node_status_bytes(nodes, readings)[i] == UNKNOWN_BATTERY_LEVEL,
{
}

/// The System Info value is empty exactly as long as no configuration has been
/// installed.
pub proof fn law_system_info_is_empty_until_configured(status: SystemStatus)
    ensures
        status.system_info().len() == 0 <==> status.config is None,
{
}

/// In a layer state of at most 32 layers the default layer fits the bitmap of
/// Layer Status.
pub proof fn law_default_layer_fits_layer_status(snapshot: LayerStateSnapshot)
    requires
        snapshot.wf(),
        snapshot@.active.len() <= MAX_STATUS_LAYERS,
    ensures
        snapshot@.default_layer < MAX_STATUS_LAYERS,
{
    snapshot.lemma_valid();
}

/// Layer Status holds the default layer, and after it a little-endian bitmap in
/// which the bit of a layer is set exactly when the layer is active.
pub proof fn law_layer_status_layout(layers: Layers)
    ensures
        status::layer_status_bytes(layers).len() == 5,
        status::layer_status_bytes(layers)[0] == layers.default_layer,
        forall|layer: int|
            0 <= layer < MAX_STATUS_LAYERS ==> bits::bit(
                status::layer_status_bytes(layers)[1 + layer / 8],
                (layer % 8) as u8,
            ) == #[trigger] layers.is_active(layer),
{
    assert forall|layer: int| 0 <= layer < MAX_STATUS_LAYERS implies bits::bit(
        status::layer_status_bytes(layers)[1 + layer / 8],
        (layer % 8) as u8,
    ) == #[trigger] layers.is_active(layer) by {
        law_bitmap_bits_are_active_layers(layers, 4, layer);
        assert(status::layer_status_bytes(layers)[1 + layer / 8] == bits::packed(layers.active, 4)[
        layer / 8]);
    }
}

/// Layer Status always includes the default layer, once there are layers.
pub proof fn law_layer_status_includes_default_layer(snapshot: LayerStateSnapshot)
    requires
        snapshot.wf(),
        1 <= snapshot@.active.len() <= MAX_STATUS_LAYERS,
    ensures
        bits::bit(
            status::layer_status_bytes(snapshot@)[1 + snapshot@.default_layer / 8],
            snapshot@.default_layer % 8,
        ),
{
    law_default_layer_is_active(snapshot);
    law_default_layer_fits_layer_status(snapshot);
    law_layer_status_layout(snapshot@);
    assert(snapshot@.is_active(snapshot@.default_layer as int));
}

/// Layer Status determines the layer state among those with as many layers, up
/// to the 32 that it can describe.
pub proof fn law_layer_status_determines_layers(a: Layers, b: Layers)
    requires
        a.active.len() == b.active.len() <= MAX_STATUS_LAYERS,
        status::layer_status_bytes(a) == status::layer_status_bytes(b),
    ensures
        a == b,
{
    law_layer_status_layout(a);
    law_layer_status_layout(b);
    assert forall|layer: int| 0 <= layer < a.active.len() implies a.active[layer]
        == b.active[layer] by {
        assert(a.is_active(layer) == b.is_active(layer));
    }
    assert(a =~= b);
}

/// With two different client configuration descriptors there are exactly two
/// handles that are recognised: these descriptors.
pub proof fn law_cccd_handles_are_the_two_descriptors(
    node_status_cccd: u16,
    layer_status_cccd: u16,
)
    requires
        node_status_cccd != layer_status_cccd,
    ensures
        set![node_status_cccd, layer_status_cccd].len() == 2,
        forall|handle: u16|
            server::spec_is_cccd_handle(Some(node_status_cccd), Some(layer_status_cccd), handle)
                <==> #[trigger] set![node_status_cccd, layer_status_cccd].contains(handle),
{
}

/// A host is notified of a Node Status value only if it differs from the one
/// published before, and is notified of that value.
pub proof fn law_node_notification_is_news(
    server: ServerState,
    node_status: Seq<u8>,
    layer_status: Seq<u8>,
)
    requires
        server.step(node_status, layer_status).action == Action::NotifyNodeStatus,
    ensures
        node_status != server.node_status,
        server.step(node_status, layer_status).node_status == node_status,
        server.step(node_status, layer_status).layer_status == server.layer_status,
{
}

/// A host is notified of a Layer Status value only if it differs from the one
/// published before, and is notified of that value.
pub proof fn law_layer_notification_is_news(
    server: ServerState,
    node_status: Seq<u8>,
    layer_status: Seq<u8>,
)
    requires
        server.step(node_status, layer_status).action == Action::NotifyLayerStatus,
    ensures
        layer_status != server.layer_status,
        server.step(node_status, layer_status).layer_status == layer_status,
        server.step(node_status, layer_status).node_status == server.node_status,
{
}

/// Notifications follow a wakeup: the task notifies the host of Node Status
/// only right after it has waited, and of Layer Status only right after that or
/// right after it has notified the host of Node Status.
pub proof fn law_notifications_follow_a_wakeup(
    server: ServerState,
    node_status: Seq<u8>,
    layer_status: Seq<u8>,
)
    ensures
        server.step(node_status, layer_status).action == Action::NotifyNodeStatus ==> server.action
            == Action::Wait,
        server.step(node_status, layer_status).action == Action::NotifyLayerStatus ==> server.action
            == Action::Wait || server.action == Action::NotifyNodeStatus,
{
}

/// The value recorded for a characteristic changes only together with a
/// notification of it.
pub proof fn law_no_silent_change(
    server: ServerState,
    node_status: Seq<u8>,
    layer_status: Seq<u8>,
)
    ensures
        server.step(node_status, layer_status).action != Action::NotifyNodeStatus ==> server.step(
            node_status,
            layer_status,
        ).node_status == server.node_status,
        server.step(node_status, layer_status).action != Action::NotifyLayerStatus ==> server.step(
            node_status,
            layer_status,
        ).layer_status == server.layer_status,
{
}

/// A wakeup after which both values are the same as before notifies nobody.
pub proof fn law_unchanged_values_are_silent(server: ServerState)
    requires
        server.action == Action::Wait,
    ensures
        server.step(server.node_status, server.layer_status) == server,
{
}

/// A wakeup brings the host up to date: where Node Status is `node_status` when
/// the task wakes and Layer Status is `layer_status` when the task comes to it,
/// the task returns to waiting with exactly these values published, having
/// notified the host of each that was new, of Node Status first. The other
/// parameters are values at moments when the task does not look at them.
pub proof fn law_wakeup_brings_host_up_to_date(
    server: ServerState,
    node_status: Seq<u8>,
    layer_status: Seq<u8>,
    layer_at_wakeup: Seq<u8>,
    node_after_node: Seq<u8>,
    node_after_layer: Seq<u8>,
    layer_after_layer: Seq<u8>,
)
    requires
        server.action == Action::Wait,
    ensures
        ({
            let first = if node_status == server.node_status {
                server.step(node_status, layer_status)
            } else {
                server.step(node_status, layer_at_wakeup)
            };
            let second = if first.action == Action::NotifyNodeStatus {
                first.step(node_after_node, layer_status)
            } else {
                first
            };
            let third = if second.action == Action::NotifyLayerStatus {
                second.step(node_after_layer, layer_after_layer)
            } else {
                second
            };
            &&& first.action == Action::NotifyNodeStatus <==> node_status != server.node_status
            &&& second.action == Action::NotifyLayerStatus <==> layer_status != server.layer_status
            &&& third == ServerState { node_status, layer_status, action: Action::Wait }
        }),
{
}

/// In a run of any number of steps the Node Status value recorded at first,
/// followed by all Node Status values that the host is notified of, never holds
/// a value twice in a row, and ends with the value recorded at last.
pub proof fn law_node_status_is_never_notified_twice_in_a_row(
    server: ServerState,
    values: Seq<Values>,
)
    ensures
        ({
            let published = seq![server.node_status] + server.node_notifications(values);
            &&& server::no_equal_neighbours(published)
            &&& published.last() == server.run(values).node_status
        }),
    decreases values.len(),
{
    if values.len() > 0 {
        law_node_status_is_never_notified_twice_in_a_row(server, values.drop_last());
        let before = server.run(values.drop_last());
        let published = seq![server.node_status] + server.node_notifications(values.drop_last());
        law_no_silent_change(before, values.last().node_status, values.last().layer_status);
        if server.run(values).action == Action::NotifyNodeStatus {
            law_node_notification_is_news(
                before,
                values.last().node_status,
                values.last().layer_status,
            );
            assert(seq![server.node_status] + server.node_notifications(values) =~= published.push(
                server.run(values).node_status,
            ));
        }
    }
}

/// In a run of any number of steps the Layer Status value recorded at first,
/// followed by all Layer Status values that the host is notified of, never holds
/// a value twice in a row, and ends with the value recorded at last.
pub proof fn law_layer_status_is_never_notified_twice_in_a_row(
    server: ServerState,
    values: Seq<Values>,
)
    ensures
        ({
            let published = seq![server.layer_status] + server.layer_notifications(values);
            &&& server::no_equal_neighbours(published)
            &&& published.last() == server.run(values).layer_status
        }),
    decreases values.len(),
{
    if values.len() > 0 {
        law_layer_status_is_never_notified_twice_in_a_row(server, values.drop_last());
        let before = server.run(values.drop_last());
        let published = seq![server.layer_status] + server.layer_notifications(values.drop_last());
        law_no_silent_change(before, values.last().node_status, values.last().layer_status);
        if server.run(values).action == Action::NotifyLayerStatus {
            law_layer_notification_is_news(
                before,
                values.last().node_status,
                values.last().layer_status,
            );
            assert(seq![server.layer_status] + server.layer_notifications(values) =~= published.push(
                server.run(values).layer_status,
            ));
        }
    }
}

} // verus!
