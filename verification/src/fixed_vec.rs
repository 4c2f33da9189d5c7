//! Fixed-capacity vectors: node lists and characteristic values.

use crate::node::NodeConfig;
use crate::node::MAX_NODES;
use crate::node::MAX_SYSTEM_INFO_LEN;
use vstd::prelude::*;

verus! {

/// A [`heapless::Vec`], which holds at most `N` items in place.
#[verifier::external_body]
#[verifier::reject_recursive_types(T)]
#[derive(Debug, PartialEq, Eq)]
pub struct FixedVec<T, const N: usize> {
    items: heapless::Vec<T, N>,
}

/// An ordered list of nodes.
pub type NodeList = FixedVec<NodeConfig, MAX_NODES>;

/// A System Info value.
pub type SystemInfo = FixedVec<u8, MAX_SYSTEM_INFO_LEN>;

/// A Node Status value.
pub type NodeStatus = FixedVec<u8, MAX_NODES>;

/// The items of a node list, in order.
pub uninterp spec fn node_items(nodes: NodeList) -> Seq<NodeConfig>;

/// The items of a System Info value, in order.
pub uninterp spec fn info_items(info: SystemInfo) -> Seq<u8>;

/// The items of a Node Status value, in order.
pub uninterp spec fn level_items(levels: NodeStatus) -> Seq<u8>;

impl View for NodeList {
    type V = Seq<NodeConfig>;

    open spec fn view(&self) -> Seq<NodeConfig> {
        node_items(*self)
    }
}

impl View for SystemInfo {
    type V = Seq<u8>;

    open spec fn view(&self) -> Seq<u8> {
        info_items(*self)
    }
}

impl View for NodeStatus {
    type V = Seq<u8>;

    open spec fn view(&self) -> Seq<u8> {
        level_items(*self)
    }
}

/// Declares [`heapless::CapacityError`], the error of a slice that does not
/// fit. Nothing is claimed of it.
#[verifier::external_type_specification]
#[verifier::external_body]
pub struct ExCapacityError(heapless::CapacityError);

/// [`heapless::Vec::from_slice`]: a copy of the slice where it fits the
/// capacity, and an error where it does not. The items are cloned, and a
/// [`NodeConfig`] clones by copying.
#[verifier::external_body]
pub(crate) fn nodes_from_slice(slice: &[NodeConfig]) -> (nodes: Result<
    NodeList,
    heapless::CapacityError,
>)
    ensures
        nodes is Ok <==> slice@.len() <= MAX_NODES,
        nodes matches Ok(list) ==> node_items(list) == slice@,
{
    heapless::Vec::from_slice(slice).map(|items| FixedVec { items })
}

/// [`heapless::Vec::as_slice`]: the items in order, no more than the capacity.
#[verifier::external_body]
pub(crate) fn nodes_as_slice(nodes: &NodeList) -> (slice: &[NodeConfig])
    ensures
        slice@ == node_items(*nodes),
        slice@.len() <= MAX_NODES,
{
    nodes.items.as_slice()
}

/// [`heapless::Vec`]'s `clone`: the same items in the same order. The items are
/// cloned, and a [`NodeConfig`] clones by copying.
#[verifier::external_body]
pub(crate) fn nodes_clone(nodes: &NodeList) -> (copy: NodeList)
    ensures
        node_items(copy) == node_items(*nodes),
{
    FixedVec { items: nodes.items.clone() }
}

/// [`heapless::Vec::new`]: no items.
#[verifier::external_body]
pub(crate) fn info_new() -> (info: SystemInfo)
    ensures
        info_items(info) == Seq::<u8>::empty(),
{
    FixedVec { items: heapless::Vec::new() }
}

/// [`heapless::Vec::push`]: appends the item where there is room; where there
/// is none, hands it back and leaves the items as they are.
#[verifier::external_body]
pub(crate) fn info_push(info: &mut SystemInfo, byte: u8) -> (pushed: Result<(), u8>)
    ensures
        pushed is Ok <==> info_items(*old(info)).len() < MAX_SYSTEM_INFO_LEN,
        pushed matches Ok(_) ==> info_items(*final(info)) == info_items(*old(info)).push(byte),
        pushed matches Err(back) ==> back == byte && info_items(*final(info)) == info_items(*old(info)),
{
    info.items.push(byte)
}

/// [`heapless::Vec::as_slice`]: the items in order, no more than the capacity.
#[verifier::external_body]
pub(crate) fn info_as_slice(info: &SystemInfo) -> (slice: &[u8])
    ensures
        slice@ == info_items(*info),
        slice@.len() <= MAX_SYSTEM_INFO_LEN,
{
    info.items.as_slice()
}

/// [`heapless::Vec::new`]: no items.
#[verifier::external_body]
pub(crate) fn levels_new() -> (levels: NodeStatus)
    ensures
        level_items(levels) == Seq::<u8>::empty(),
{
    FixedVec { items: heapless::Vec::new() }
}

/// [`heapless::Vec::push`]: appends the item where there is room; where there
/// is none, hands it back and leaves the items as they are.
#[verifier::external_body]
pub(crate) fn levels_push(levels: &mut NodeStatus, level: u8) -> (pushed: Result<(), u8>)
    ensures
        pushed is Ok <==> level_items(*old(levels)).len() < MAX_NODES,
        pushed matches Ok(_) ==> level_items(*final(levels)) == level_items(*old(levels)).push(level),
        pushed matches Err(back) ==> back == level && level_items(*final(levels)) == level_items(*old(levels)),
{
    levels.items.push(level)
}

/// [`heapless::Vec::as_slice`]: the items in order, no more than the capacity.
#[verifier::external_body]
pub(crate) fn levels_as_slice(levels: &NodeStatus) -> (slice: &[u8])
    ensures
        slice@ == level_items(*levels),
        slice@.len() <= MAX_NODES,
{
    levels.items.as_slice()
}

/// [`heapless::Vec`]'s `==`: whether both hold the same items in the same order.
#[verifier::external_body]
pub(crate) fn levels_equal(a: &NodeStatus, b: &NodeStatus) -> (equal: bool)
    ensures
        equal == (level_items(*a) == level_items(*b)),
{
    a.items == b.items
}

impl SystemInfo {
    /// The bytes of the value.
    pub fn as_slice(&self) -> (bytes: &[u8])
        ensures
            bytes@ == self@,
            bytes@.len() <= MAX_SYSTEM_INFO_LEN,
    {
        info_as_slice(self)
    }
}

impl NodeStatus {
    /// The bytes of the value.
    pub fn as_slice(&self) -> (bytes: &[u8])
        ensures
            bytes@ == self@,
            bytes@.len() <= MAX_NODES,
    {
        levels_as_slice(self)
    }
}

} // verus!
