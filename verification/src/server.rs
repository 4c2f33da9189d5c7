//! What the GATT server publishes, and when it notifies a connected host.

use crate::bits;
use crate::fixed_vec;
use crate::fixed_vec::NodeStatus;
use crate::fixed_vec::SystemInfo;
use crate::state::layer::LayerState;
use crate::status;
use crate::status::BatteryReadings;
use crate::status::KeyboardSystemStatus;
use crate::status::LAYER_STATUS_LEN;
use crate::status::MAX_STATUS_LAYERS;
use vstd::prelude::*;

verus! {

/// The first value of each characteristic.
pub struct InitialValues {
    pub system_info: SystemInfo,
    pub node_status: NodeStatus,
    pub layer_status: [u8; LAYER_STATUS_LEN],
}

/// The values that the characteristics start with, or `None` where no node
/// configuration has been installed and nothing is to be published.
pub fn initialize_server(
    status: &KeyboardSystemStatus,
    readings: &BatteryReadings,
    layers: &LayerState,
) -> (values: Option<InitialValues>)
    requires
        status@.config is Some ==> layers@.layers.active.len() <= MAX_STATUS_LAYERS,
    ensures
        values is Some <==> status@.config is Some,
        values matches Some(initial) ==> {
            &&& initial.system_info@ == status@.system_info()
            &&& initial.node_status@ == status@.node_status(*readings)
            &&& initial.layer_status@ == status::layer_status_bytes(layers@.layers)
        },
{
    let system_info = status::system_info(status);
    if system_info.as_slice().is_empty() {
        return None;
    }
    Some(
        InitialValues {
            system_info,
            node_status: status::node_status(status, readings),
            layer_status: status::layer_status(layers),
        },
    )
}

/// Whether `handle` is one of the client configuration descriptors.
pub open spec fn spec_is_cccd_handle(
    node_status_cccd: Option<u16>,
    layer_status_cccd: Option<u16>,
    handle: u16,
) -> bool {
    node_status_cccd == Some(handle) || layer_status_cccd == Some(handle)
}

/// Whether `handle` is the client configuration descriptor of Node Status or
/// of Layer Status.
pub fn is_cccd_handle(
    node_status_cccd: Option<u16>,
    layer_status_cccd: Option<u16>,
    handle: u16,
) -> (is_cccd: bool)
    requires
        node_status_cccd is Some,
        node_status_cccd == Some(handle) || layer_status_cccd is Some,
    ensures
        is_cccd == spec_is_cccd_handle(node_status_cccd, layer_status_cccd, handle),
{
    handle == node_status_cccd.expect("No CCCD for Node Status") || handle
        == layer_status_cccd.expect("No CCCD for Layer Status")
}

/// What the server task does next.
#[derive(Clone, Copy, Debug, PartialEq, Eq, Structural)]
pub enum Action {
    /// Wait until a status or the layer state has changed.
    Wait,
    /// Notify the host of the Node Status value last recorded.
    NotifyNodeStatus,
    /// Notify the host of the Layer Status value last recorded.
    NotifyLayerStatus,
}

/// What a [`BleKeyboardSystemStatusServer`] stands for.
#[verifier::ext_equal]
pub struct ServerState {
    /// The Node Status value last published.
    pub node_status: Seq<u8>,
    /// The Layer Status value last published.
    pub layer_status: Seq<u8>,
    /// What the task is doing.
    pub action: Action,
}

impl ServerState {
    /// Publishes a Layer Status value if it is a new one.
    pub open spec fn layer_step(self, layer_status: Seq<u8>) -> ServerState {
        if layer_status == self.layer_status {
            ServerState { action: Action::Wait, ..self }
        } else {
            ServerState { layer_status, action: Action::NotifyLayerStatus, ..self }
        }
    }

    /// The state once the current action is done and the values are the given
    /// ones: a changed Node Status is published first, then a changed Layer
    /// Status, then the task waits.
    pub open spec fn step(self, node_status: Seq<u8>, layer_status: Seq<u8>) -> ServerState {
        match self.action {
            Action::Wait => if node_status == self.node_status {
                self.layer_step(layer_status)
            } else {
                ServerState { node_status, action: Action::NotifyNodeStatus, ..self }
            },
            Action::NotifyNodeStatus => self.layer_step(layer_status),
            Action::NotifyLayerStatus => ServerState { action: Action::Wait, ..self },
        }
    }

    /// Whether the next step looks at the Layer Status value.
    pub open spec fn reads_layer_status(self, node_status: Seq<u8>) -> bool {
        match self.action {
            Action::Wait => node_status == self.node_status,
            Action::NotifyNodeStatus => true,
            Action::NotifyLayerStatus => false,
        }
    }
}

/// The values of the notifying characteristics at one moment.
pub struct Values {
    pub node_status: Seq<u8>,
    pub layer_status: Seq<u8>,
}

impl ServerState {
    /// The state after a run of steps, one for each of the given values.
    pub open spec fn run(self, values: Seq<Values>) -> ServerState
        decreases values.len(),
    {
        if values.len() == 0 {
            self
        } else {
            self.run(values.drop_last()).step(values.last().node_status, values.last().layer_status)
        }
    }

    /// The Node Status values that a host is notified of during a run, in order.
    pub open spec fn node_notifications(self, values: Seq<Values>) -> Seq<Seq<u8>>
        decreases values.len(),
    {
        if values.len() == 0 {
            Seq::empty()
        } else {
            let before = self.node_notifications(values.drop_last());
            if self.run(values).action == Action::NotifyNodeStatus {
                before.push(self.run(values).node_status)
            } else {
                before
            }
        }
    }

    /// The Layer Status values that a host is notified of during a run, in
    /// order.
    pub open spec fn layer_notifications(self, values: Seq<Values>) -> Seq<Seq<u8>>
        decreases values.len(),
    {
        if values.len() == 0 {
            Seq::empty()
        } else {
            let before = self.layer_notifications(values.drop_last());
            if self.run(values).action == Action::NotifyLayerStatus {
                before.push(self.run(values).layer_status)
            } else {
                before
            }
        }
    }
}

/// Whether no value comes twice in a row.
pub open spec fn no_equal_neighbours(values: Seq<Seq<u8>>) -> bool {
    forall|i: int, j: int|
        0 <= i < values.len() && 0 <= j < values.len() && j == i + 1 ==> #[trigger] values[i]
            != #[trigger] values[j]
}

/// Keeps one connected host up to date: remembers the values last published,
/// and decides when to notify the host of new ones.
pub struct BleKeyboardSystemStatusServer {
    last_node_status: NodeStatus,
    last_layer_status: [u8; LAYER_STATUS_LEN],
    action: Action,
}

impl View for BleKeyboardSystemStatusServer {
    type V = ServerState;

    closed spec fn view(&self) -> ServerState {
        ServerState {
            node_status: self.last_node_status@,
            layer_status: self.last_layer_status@,
            action: self.action,
        }
    }
}

impl BleKeyboardSystemStatusServer {
    /// A server for a new connection. The current values, which it records,
    /// are the ones to refresh the characteristics with.
    pub fn new(
        status: &KeyboardSystemStatus,
        readings: &BatteryReadings,
        layers: &LayerState,
    ) -> (server: Self)
        requires
            layers@.layers.active.len() <= MAX_STATUS_LAYERS,
        ensures
            server@ == (ServerState {
                node_status: status@.node_status(*readings),
                layer_status: status::layer_status_bytes(layers@.layers),
                action: Action::Wait,
            }),
    {
        BleKeyboardSystemStatusServer {
            last_node_status: status::node_status(status, readings),
            last_layer_status: status::layer_status(layers),
            action: Action::Wait,
        }
    }

    /// The Node Status value last published.
    pub fn last_node_status(&self) -> (value: &[u8])
        ensures
            value@ == self@.node_status,
    {
        self.last_node_status.as_slice()
    }

    /// The Layer Status value last published.
    pub fn last_layer_status(&self) -> (value: [u8; LAYER_STATUS_LEN])
        ensures
            value@ == self@.layer_status,
    {
        self.last_layer_status
    }

    /// Records the Layer Status value if it is a new one.
    fn advance_layer_status(&mut self, layers: &LayerState)
        requires
            layers@.layers.active.len() <= MAX_STATUS_LAYERS,
        ensures
            final(self)@ == old(self)@.layer_step(status::layer_status_bytes(layers@.layers)),
    {
        let next_layer_status = status::layer_status(layers);
        if bits::same_bytes(&next_layer_status, &self.last_layer_status) {
            self.action = Action::Wait;
        } else {
            self.last_layer_status = next_layer_status;
            self.action = Action::NotifyLayerStatus;
        }
    }

    /// Whether the next call of [`Self::advance`] looks at the layers.
    pub fn reads_layer_status(
        &self,
        status: &KeyboardSystemStatus,
        readings: &BatteryReadings,
    ) -> (reads: bool)
        ensures
            reads == self@.reads_layer_status(status@.node_status(*readings)),
    {
        match self.action {
            Action::Wait => fixed_vec::levels_equal(
                &status::node_status(status, readings),
                &self.last_node_status,
            ),
            Action::NotifyNodeStatus => true,
            Action::NotifyLayerStatus => false,
        }
    }

    /// Decides what to do once the current action is done, whether or not a
    /// notification reached the host.
    pub fn advance(
        &mut self,
        status: &KeyboardSystemStatus,
        readings: &BatteryReadings,
        layers: &LayerState,
    ) -> (action: Action)
        requires
            old(self)@.reads_layer_status(status@.node_status(*readings))
                ==> layers@.layers.active.len() <= MAX_STATUS_LAYERS,
        ensures
            final(self)@ == old(self)@.step(
                status@.node_status(*readings),
                status::layer_status_bytes(layers@.layers),
            ),
            action == final(self)@.action,
    {
        match self.action {
            Action::Wait => {
                let next_node_status = status::node_status(status, readings);
                if fixed_vec::levels_equal(&next_node_status, &self.last_node_status) {
                    self.advance_layer_status(layers);
                } else {
                    self.last_node_status = next_node_status;
                    self.action = Action::NotifyNodeStatus;
                }
            },
            Action::NotifyNodeStatus => {
                self.advance_layer_status(layers);
            },
            Action::NotifyLayerStatus => {
                self.action = Action::Wait;
            },
        }
        self.action
    }
}

} // verus!
