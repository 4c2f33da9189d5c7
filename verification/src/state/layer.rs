//! Protocol-independent snapshot of the keymap's effective layer state.

use crate::bits;
use crate::signal::Wakeup;
use core::task::Context;
use vstd::prelude::*;

verus! {

/// Maximum number of layers representable by [`LayerStateSnapshot`].
pub const MAX_LAYER_STATE_LAYERS: usize = 256;

/// Number of bytes in a snapshot's layer bitmap.
pub const LAYER_BITMAP_LEN: usize = MAX_LAYER_STATE_LAYERS / 8;

/// What a [`LayerStateSnapshot`] stands for: the default layer, and for every
/// configured layer whether it is in effect.
#[verifier::ext_equal]
pub struct Layers {
    pub default_layer: u8,
    pub active: Seq<bool>,
}

impl Layers {
    /// The layers of a keymap: the ones the keymap marks active, and the
    /// default layer.
    pub open spec fn of_keymap(default_layer: u8, layer_state: Seq<bool>) -> Layers {
        Layers {
            default_layer,
            active: Seq::new(layer_state.len(), |i: int| layer_state[i] || i == default_layer),
        }
    }

    /// The state before any keymap has been published: no layers at all.
    pub open spec fn none() -> Layers {
        Layers { default_layer: 0, active: Seq::empty() }
    }

    /// Either no keymap has been published yet, or there are between 1 and 256
    /// layers, the default layer is one of them, and it is active.
    pub open spec fn valid(self) -> bool {
        ||| self == Layers::none()
        ||| {
            &&& 1 <= self.active.len() <= MAX_LAYER_STATE_LAYERS
            &&& self.default_layer < self.active.len()
            &&& self.active[self.default_layer as int]
        }
    }

    /// Whether `layer` is configured and active.
    pub open spec fn is_active(self, layer: int) -> bool {
        0 <= layer < self.active.len() && self.active[layer]
    }
}

/// Protocol-independent snapshot of the keymap's effective layer state.
///
/// Once there are layers, the default layer is always included in
/// `active_bitmap`, even though a keymap stores momentary and toggled activation
/// separately from the default layer.
#[derive(Clone, Copy, Debug)]
pub struct LayerStateSnapshot {
    default_layer: u8,
    layer_count: u16,
    active_bitmap: [u8; LAYER_BITMAP_LEN],
}

impl View for LayerStateSnapshot {
    type V = Layers;

    closed spec fn view(&self) -> Layers {
        Layers {
            default_layer: self.default_layer,
            active: Seq::new(
                self.layer_count as nat,
                |i: int| bits::bitmap_bit(self.active_bitmap@, i),
            ),
        }
    }
}

impl LayerStateSnapshot {
    /// The layers are valid, and no bit past the last layer is set.
    #[verifier::type_invariant]
    pub closed spec fn wf(self) -> bool {
        &&& self@.valid()
        &&& forall|i: int|
            self.layer_count <= i < MAX_LAYER_STATE_LAYERS ==> !#[trigger] bits::bitmap_bit(
                self.active_bitmap@,
                i,
            )
    }

    /// A snapshot stands for a valid layer state.
    pub proof fn lemma_valid(self)
        requires
            self.wf(),
        ensures
            self@.valid(),
    {
    }

    /// The bitmap of a well-formed snapshot is the packed form of its layers.
    proof fn lemma_bitmap(self)
        requires
            self.wf(),
        ensures
            self.active_bitmap@ == bits::packed(self@.active, LAYER_BITMAP_LEN as nat),
    {
        let packed = bits::packed(self@.active, LAYER_BITMAP_LEN as nat);
        assert forall|i: int| 0 <= i < 8 * packed.len() implies #[trigger] bits::bitmap_bit(
            self.active_bitmap@,
            i,
        ) == bits::bitmap_bit(packed, i) by {
            bits::lemma_packed_bit(self@.active, LAYER_BITMAP_LEN as nat, i);
        }
        bits::lemma_bitmap_is_its_bits(self.active_bitmap@, packed);
    }

    /// A snapshot without any layers.
    pub fn empty() -> (snapshot: Self)
        ensures
            snapshot@ == Layers::none(),
            snapshot@.default_layer == 0,
            snapshot@.active.len() == 0,
            snapshot.wf(),
    {
        let active_bitmap: [u8; LAYER_BITMAP_LEN] = [0u8;LAYER_BITMAP_LEN];
        proof {
            bits::lemma_zero_bitmap(active_bitmap@);
        }
        let ghost snapshot = Self { default_layer: 0, layer_count: 0, active_bitmap };
        assert(snapshot@ =~= Layers::none());
        Self { default_layer: 0, layer_count: 0, active_bitmap }
    }

    pub fn default_layer(self) -> (layer: u8)
        ensures
            layer == self@.default_layer,
    {
        self.default_layer
    }

    pub fn layer_count(self) -> (count: usize)
        ensures
            count == self@.active.len(),
    {
        self.layer_count as usize
    }

    /// Whether `layer` is configured and active.
    pub fn is_active(&self, layer: u8) -> (active: bool)
        ensures
            active == self@.is_active(layer as int),
            active <==> layer < self@.active.len() && self@.active[layer as int],
    {
        let layer: usize = layer as usize;
        layer < self.layer_count() && self.active_bitmap[layer / 8] & (1u8 << ((layer % 8) as u8))
            != 0
    }

    /// The active layers, one bit each, least significant bit first.
    pub fn active_bitmap(&self) -> (bitmap: &[u8; LAYER_BITMAP_LEN])
        ensures
            bitmap@ == bits::packed(self@.active, LAYER_BITMAP_LEN as nat),
    {
        proof {
            use_type_invariant(self);
            self.lemma_bitmap();
        }
        &self.active_bitmap
    }

    /// Takes a snapshot of a keymap's default layer and layer activation.
    pub fn from_keymap(default_layer: u8, layer_state: &[bool]) -> (snapshot: Self)
        requires
            1 <= layer_state@.len() <= MAX_LAYER_STATE_LAYERS,
            default_layer < layer_state@.len(),
        ensures
            snapshot@ == Layers::of_keymap(default_layer, layer_state@),
            snapshot@.default_layer == default_layer,
            snapshot@.active.len() == layer_state@.len(),
            forall|i: int|
                0 <= i < layer_state@.len() ==> (#[trigger] snapshot@.active[i] <==> layer_state@[i]
                    || i == default_layer),
            snapshot.wf(),
    {
        let ghost layers = Layers::of_keymap(default_layer, layer_state@);
        let mut active_bitmap: [u8; LAYER_BITMAP_LEN] = [0u8;LAYER_BITMAP_LEN];
        proof {
            bits::lemma_zero_bitmap(active_bitmap@);
        }
        let mut layer: usize = 0;
        while layer < layer_state.len()
            invariant
                layer <= layer_state@.len() <= MAX_LAYER_STATE_LAYERS,
                layers == Layers::of_keymap(default_layer, layer_state@),
                forall|i: int|
                    0 <= i < MAX_LAYER_STATE_LAYERS ==> #[trigger] bits::bitmap_bit(
                        active_bitmap@,
                        i,
                    ) == (i < layer && layers.active[i]),
            decreases layer_state@.len() - layer,
        {
            let ghost before = active_bitmap@;
            if layer_state[layer] || layer == default_layer as usize {
                let byte: u8 = active_bitmap[layer / 8];
                active_bitmap[layer / 8] = byte | (1u8 << ((layer % 8) as u8));
                proof {
                    assert forall|i: int|
                        0 <= i < MAX_LAYER_STATE_LAYERS implies #[trigger] bits::bitmap_bit(
                        active_bitmap@,
                        i,
                    ) == (bits::bitmap_bit(before, i) || i == layer) by {
                        bits::lemma_set_bit(byte, (layer % 8) as u8, (i % 8) as u8);
                    }
                }
            }
            proof {
                assert forall|i: int|
                    0 <= i < MAX_LAYER_STATE_LAYERS implies #[trigger] bits::bitmap_bit(
                    active_bitmap@,
                    i,
                ) == (i < layer + 1 && layers.active[i]) by {
                    assert(bits::bitmap_bit(before, i) == (i < layer && layers.active[i]));
                }
            }
            layer = layer + 1;
        }
        let layer_count: u16 = layer_state.len() as u16;
        let ghost snapshot = Self { default_layer, layer_count, active_bitmap };
        assert(snapshot@ =~= layers);
        Self { default_layer, layer_count, active_bitmap }
    }
}

impl PartialEq for LayerStateSnapshot {
    fn eq(&self, other: &Self) -> (equal: bool) {
        proof {
            use_type_invariant(self);
            use_type_invariant(other);
            self.lemma_bitmap();
            other.lemma_bitmap();
        }
        if self.default_layer != other.default_layer || self.layer_count != other.layer_count {
            assert(self@.active.len() == self.layer_count);
            assert(other@.active.len() == other.layer_count);
            return false;
        }
        let equal = bits::same_bytes(&self.active_bitmap, &other.active_bitmap);
        assert(equal ==> self@ =~= other@);
        equal
    }
}

impl Eq for LayerStateSnapshot {

}

impl vstd::std_specs::cmp::PartialEqSpecImpl for LayerStateSnapshot {
    open spec fn obeys_eq_spec() -> bool {
        true
    }

    /// Two snapshots are equal when they stand for the same layers.
    open spec fn eq_spec(&self, other: &Self) -> bool {
        self@ == other@
    }
}

/// What a [`LayerState`] stands for.
#[verifier::ext_equal]
pub struct PublishedLayers {
    /// The layers last published.
    pub layers: Layers,
    /// Whether they have changed since the observer last took its wakeup.
    pub changed: bool,
    /// Whether the observer waits for a change.
    pub awaited: bool,
}

impl PublishedLayers {
    /// What is published once a keymap has reported its layers: those layers,
    /// and a wakeup when they differ from what was published before. The
    /// observer waits on only when they do not.
    pub open spec fn updated(self, default_layer: u8, layer_state: Seq<bool>) -> PublishedLayers {
        let next = Layers::of_keymap(default_layer, layer_state);
        PublishedLayers {
            layers: next,
            changed: self.changed || self.layers != next,
            awaited: self.awaited && self.layers == next,
        }
    }
}

/// The layer snapshot that the keymap publishes, and the wakeup of the task
/// that observes it.
pub struct LayerState {
    snapshot: LayerStateSnapshot,
    /// Raised when the snapshot has changed.
    changed: Wakeup,
}

impl View for LayerState {
    type V = PublishedLayers;

    closed spec fn view(&self) -> PublishedLayers {
        PublishedLayers {
            layers: self.snapshot@,
            changed: self.changed@.raised,
            awaited: self.changed@.awaited,
        }
    }
}

impl LayerState {
    /// The state before the keymap has published its layers.
    pub fn new() -> (state: Self)
        ensures
            state@ == (PublishedLayers {
                layers: Layers::none(),
                changed: false,
                awaited: false,
            }),
    {
        LayerState { snapshot: LayerStateSnapshot::empty(), changed: Wakeup::new() }
    }
}

/// Returns one consistent copy of the current default and active layers.
pub fn current_layer_state(state: &LayerState) -> (snapshot: LayerStateSnapshot)
    ensures
        snapshot@ == state@.layers,
        snapshot.wf(),
{
    proof {
        use_type_invariant(&state.snapshot);
    }
    state.snapshot
}

/// Replaces the current keymap layer snapshot, and wakes the observer when its
/// effective value changed.
pub fn update_layer_state(state: &mut LayerState, default_layer: u8, layer_state: &[bool])
    requires
        1 <= layer_state@.len() <= MAX_LAYER_STATE_LAYERS,
        default_layer < layer_state@.len(),
    ensures
        final(state)@ == old(state)@.updated(default_layer, layer_state@),
        final(state)@.layers.default_layer == default_layer,
        final(state)@.layers.active.len() == layer_state@.len(),
        forall|i: int|
            0 <= i < layer_state@.len() ==> (#[trigger] final(state)@.layers.active[i]
                <==> layer_state@[i] || i == default_layer),
        final(state)@.changed <==> old(state)@.changed || old(state)@.layers
            != final(state)@.layers,
        final(state)@.awaited <==> old(state)@.awaited && old(state)@.layers
            == final(state)@.layers,
{
    let next = LayerStateSnapshot::from_keymap(default_layer, layer_state);
    if state.snapshot != next {
        state.snapshot = next;
        state.changed.notify();
    }
}

/// Takes the observer's wakeup if the layers have changed since it was last
/// taken.
pub fn try_take_layer_state_changed(state: &mut LayerState) -> (taken: Option<()>)
    ensures
        taken is Some <==> old(state)@.changed,
        final(state)@ == (PublishedLayers { changed: false, ..old(state)@ }),
{
    state.changed.try_take()
}

/// Takes the observer's wakeup if the layers have changed since it was last
/// taken, and otherwise lets the task behind `cx` wait for a change.
pub fn poll_layer_state_changed(state: &mut LayerState, cx: &mut Context<'_>) -> (ready: bool)
    ensures
        ready <==> old(state)@.changed,
        final(state)@ == (PublishedLayers { changed: false, awaited: !ready, ..old(state)@ }),
{
    state.changed.poll_wait(cx)
}

} // verus!
