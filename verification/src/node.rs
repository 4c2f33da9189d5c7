//! The nodes of a keyboard system and their configuration.

use crate::behaviour;
use crate::fixed_vec;
use crate::fixed_vec::NodeList;
use vstd::prelude::*;

verus! {

/// Most nodes that one keyboard system can describe.
pub const MAX_NODES: usize = 8;

/// Longest System Info value: a header of three bytes and one byte per node.
pub const MAX_SYSTEM_INFO_LEN: usize = 3 + MAX_NODES;

/// A node's role in the keyboard system status protocol.
#[derive(Clone, Copy, Debug, PartialEq, Eq, Structural)]
pub enum NodeRole {
    Main,
    Left,
    Right,
    PointingDevice,
    Numpad,
    Other,
}

/// Source used to populate a node's battery status.
#[derive(Clone, Copy, Debug, PartialEq, Eq, Structural)]
pub enum BatterySource {
    /// Battery measured by the keyboard's BLE host node.
    Central,
    /// Battery reported by split peripheral `id`.
    Peripheral(usize),
    /// The node has no battery or its battery is intentionally not exposed.
    NotExposed,
}

/// Application-provided description of one status node.
#[derive(Clone, Copy, Debug, PartialEq, Eq, Structural)]
pub struct NodeConfig {
    pub role: NodeRole,
    pub battery_source: BatterySource,
}

impl NodeRole {
    /// The byte that stands for the role in System Info.
    pub open spec fn spec_code(self) -> u8 {
        match self {
            NodeRole::Main => 0x00,
            NodeRole::Left => 0x01,
            NodeRole::Right => 0x02,
            NodeRole::PointingDevice => 0x03,
            NodeRole::Numpad => 0x04,
            NodeRole::Other => 0xff,
        }
    }

    /// The byte that stands for the role in System Info.
    pub fn code(self) -> (code: u8)
        ensures
            code == self.spec_code(),
            self == NodeRole::Main <==> code == 0,
            self == NodeRole::Left <==> code == 1,
            self == NodeRole::Right <==> code == 2,
            self == NodeRole::PointingDevice <==> code == 3,
            self == NodeRole::Numpad <==> code == 4,
            self == NodeRole::Other <==> code == 255,
    {
        match self {
            NodeRole::Main => 0x00,
            NodeRole::Left => 0x01,
            NodeRole::Right => 0x02,
            NodeRole::PointingDevice => 0x03,
            NodeRole::Numpad => 0x04,
            NodeRole::Other => 0xff,
        }
    }
}

impl NodeConfig {
    pub fn new(role: NodeRole, battery_source: BatterySource) -> (node: Self)
        ensures
            node.role == role,
            node.battery_source == battery_source,
    {
        Self { role, battery_source }
    }
}

/// Whether the keyboard is built as a split keyboard.
#[derive(Clone, Copy, Debug, PartialEq, Eq, Structural)]
pub enum SplitSupport {
    /// There are no split peripherals.
    Disabled,
    /// There are this many split peripherals, numbered from zero.
    Peripherals(usize),
}

/// Invalid keyboard system status configuration.
#[derive(Clone, Copy, Debug, PartialEq, Eq, Structural)]
pub enum ConfigError {
    NoNodes,
    TooManyNodes,
    SplitFeatureRequired,
    PeripheralOutOfRange(usize),
}

/// Whether a node's battery source names a split peripheral that does not exist.
pub open spec fn source_rejected(source: BatterySource, split: SplitSupport) -> bool {
    source matches BatterySource::Peripheral(id) && match split {
        SplitSupport::Disabled => true,
        SplitSupport::Peripherals(count) => id >= count,
    }
}

/// Whether node `i` is the first one whose battery source is rejected.
pub open spec fn is_first_rejected(nodes: Seq<NodeConfig>, split: SplitSupport, i: int) -> bool {
    &&& 0 <= i < nodes.len()
    &&& source_rejected(nodes[i].battery_source, split)
    &&& forall|j: int| 0 <= j < i ==> !source_rejected(#[trigger] nodes[j].battery_source, split)
}

/// Whether the number of nodes is within bounds.
pub open spec fn node_count_valid(nodes: Seq<NodeConfig>) -> bool {
    1 <= nodes.len() <= MAX_NODES
}

/// Whether a node list makes a configuration.
pub open spec fn nodes_valid(nodes: Seq<NodeConfig>, split: SplitSupport) -> bool {
    &&& node_count_valid(nodes)
    &&& forall|i: int|
        0 <= i < nodes.len() ==> !source_rejected(#[trigger] nodes[i].battery_source, split)
}

/// What a [`KeyboardSystemStatusConfig`] stands for.
#[verifier::ext_equal]
pub struct SystemLayout {
    /// The nodes in order.
    pub nodes: Seq<NodeConfig>,
    /// The split peripherals that there are.
    pub split: SplitSupport,
}

impl SystemLayout {
    /// Whether the nodes make a configuration.
    pub open spec fn valid(self) -> bool {
        nodes_valid(self.nodes, self.split)
    }
}

/// Ordered node configuration shared by System Info and Node Status.
#[derive(Debug, PartialEq, Eq)]
pub struct KeyboardSystemStatusConfig {
    nodes: NodeList,
    split: SplitSupport,
}

impl View for KeyboardSystemStatusConfig {
    type V = SystemLayout;

    closed spec fn view(&self) -> SystemLayout {
        SystemLayout { nodes: self.nodes@, split: self.split }
    }
}

impl KeyboardSystemStatusConfig {
    /// There is at least one node and at most [`MAX_NODES`], and every
    /// peripheral that a node names exists.
    #[verifier::type_invariant]
    pub closed spec fn wf(self) -> bool {
        self@.valid()
    }

    /// A configuration stands for a valid layout.
    pub proof fn lemma_valid(self)
        requires
            self.wf(),
        ensures
            self@.valid(),
    {
    }

    /// Checks the nodes and keeps them in their order.
    pub fn new(nodes: &[NodeConfig], split: SplitSupport) -> (config: Result<Self, ConfigError>)
        ensures
            config is Ok <==> nodes_valid(nodes@, split),
            config is Ok <==> 1 <= nodes@.len() <= 8 && forall|i: int|
                0 <= i < nodes@.len() ==> match (#[trigger] nodes@[i]).battery_source {
                    BatterySource::Central => true,
                    BatterySource::Peripheral(id) => match split {
                        SplitSupport::Disabled => false,
                        SplitSupport::Peripherals(count) => id < count,
                    },
                    BatterySource::NotExposed => true,
                },
            forall|id: usize|
                config == Err::<Self, ConfigError>(ConfigError::PeripheralOutOfRange(id))
                    ==> match split {
                    SplitSupport::Disabled => false,
                    SplitSupport::Peripherals(count) => id >= count,
                },
            config matches Ok(accepted) ==> accepted@ == (SystemLayout { nodes: nodes@, split })
                && accepted.wf(),
            config == Err::<Self, ConfigError>(ConfigError::NoNodes) <==> nodes@.len() == 0,
            config == Err::<Self, ConfigError>(ConfigError::TooManyNodes) <==> nodes@.len()
                > MAX_NODES,
            config == Err::<Self, ConfigError>(ConfigError::SplitFeatureRequired)
                <==> node_count_valid(nodes@) && split is Disabled && !nodes_valid(nodes@, split),
            forall|id: usize|
                config == Err::<Self, ConfigError>(ConfigError::PeripheralOutOfRange(id))
                    <==> node_count_valid(nodes@) && split is Peripherals && exists|i: int|
                    #[trigger] is_first_rejected(nodes@, split, i) && nodes@[i].battery_source
                        == BatterySource::Peripheral(id),
    {
        proof {
            behaviour::law_accepted_lists_are_those_in_range(nodes@, split);
        }
        if nodes.is_empty() {
            return Err(ConfigError::NoNodes);
        }
        if nodes.len() > MAX_NODES {
            return Err(ConfigError::TooManyNodes);
        }
        let mut i: usize = 0;
        while i < nodes.len()
            invariant
                i <= nodes@.len(),
                node_count_valid(nodes@),
                forall|j: int|
                    0 <= j < i ==> !source_rejected(#[trigger] nodes@[j].battery_source, split),
            decreases nodes@.len() - i,
        {
            if let BatterySource::Peripheral(id) = nodes[i].battery_source {
                match split {
                    SplitSupport::Disabled => {
                        assert(source_rejected(nodes@[i as int].battery_source, split));
                        return Err(ConfigError::SplitFeatureRequired);
                    },
                    SplitSupport::Peripherals(count) => {
                        if id >= count {
                            assert(source_rejected(nodes@[i as int].battery_source, split));
                            assert(is_first_rejected(nodes@, split, i as int));
                            return Err(ConfigError::PeripheralOutOfRange(id));
                        }
                    },
                }
            }
            i = i + 1;
        }
        match fixed_vec::nodes_from_slice(nodes) {
            Ok(nodes) => Ok(Self { nodes, split }),
            Err(_) => Err(ConfigError::TooManyNodes),
        }
    }

    /// The nodes in order.
    pub fn nodes(&self) -> (nodes: &[NodeConfig])
        ensures
            nodes@ == self@.nodes,
            nodes_valid(nodes@, self@.split),
    {
        proof {
            use_type_invariant(self);
        }
        fixed_vec::nodes_as_slice(&self.nodes)
    }

    /// The split peripherals that the nodes were checked against.
    pub fn split(&self) -> (split: SplitSupport)
        ensures
            split == self@.split,
    {
        self.split
    }
}

impl Clone for KeyboardSystemStatusConfig {
    fn clone(&self) -> (config: Self)
        ensures
            config@ == self@,
    {
        proof {
            use_type_invariant(self);
        }
        Self { nodes: fixed_vec::nodes_clone(&self.nodes), split: self.split }
    }
}

} // verus!
