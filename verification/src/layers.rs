//! The collision layers of the game, and the physics engine's layer sets.
//!
//! `heron::CollisionLayers` holds two sets of layers, the "groups" an entity
//! belongs to and the "masks" it collides with. The verifier cannot look
//! inside it, so this module names the two sets and states, for each method
//! of it that the game calls, what the method does to them.

use heron::CollisionLayers;
use heron::PhysicsLayer;
use vstd::prelude::*;

verus! {

/// `heron::CollisionLayers`, made known to the verifier as an opaque type.
#[verifier::external_type_specification]
#[verifier::external_body]
pub struct ExCollisionLayers(CollisionLayers);

/// The layers that an entity of the game can be on.
#[derive(Clone, Copy, Debug, PartialEq, Eq, Structural)]
pub enum GameCollisionLayers {
    World,
    Player,
    PlayerAttack,
    Enemy,
    EnemyAttack,
    Item,
    Coin,
    Stairs,
}

impl GameCollisionLayers {
    /// The position of the layer in the enumeration, which is also the
    /// position of its bit.
    pub open spec fn index(self) -> nat {
        match self {
            GameCollisionLayers::World => 0,
            GameCollisionLayers::Player => 1,
            GameCollisionLayers::PlayerAttack => 2,
            GameCollisionLayers::Enemy => 3,
            GameCollisionLayers::EnemyAttack => 4,
            GameCollisionLayers::Item => 5,
            GameCollisionLayers::Coin => 6,
            GameCollisionLayers::Stairs => 7,
        }
    }

    /// The bit that stands for the layer in a layer set: two to the power of
    /// its index.
    pub open spec fn bits(self) -> u32 {
        match self {
            GameCollisionLayers::World => 1,
            GameCollisionLayers::Player => 2,
            GameCollisionLayers::PlayerAttack => 4,
            GameCollisionLayers::Enemy => 8,
            GameCollisionLayers::EnemyAttack => 16,
            GameCollisionLayers::Item => 32,
            GameCollisionLayers::Coin => 64,
            GameCollisionLayers::Stairs => 128,
        }
    }
}

impl PhysicsLayer for GameCollisionLayers {
    fn to_bits(&self) -> (bits: u32)
        ensures
            bits == self.bits(),
    {
        match self {
            GameCollisionLayers::World => 1,
            GameCollisionLayers::Player => 2,
            GameCollisionLayers::PlayerAttack => 4,
            GameCollisionLayers::Enemy => 8,
            GameCollisionLayers::EnemyAttack => 16,
            GameCollisionLayers::Item => 32,
            GameCollisionLayers::Coin => 64,
            GameCollisionLayers::Stairs => 128,
        }
    }

    fn all_bits() -> (bits: u32)
        ensures
            bits == 255,
    {
        255
    }
}

/// Every layer has one bit of its own: the bit at its index, which is among
/// the bits of all layers and which no other layer has. Adding a layer to a
/// set of bits, or testing for it, therefore leaves the other layers alone.
pub proof fn lemma_layer_bits_are_distinct(a: GameCollisionLayers, b: GameCollisionLayers)
    ensures
        a.index() < 8,
        a.bits() == 1u32 << (a.index() as u32),
        a.bits() != 0,
        a.bits() & 255 == a.bits(),
        a != b ==> a.bits() & b.bits() == 0,
        (a.index() == b.index()) == (a == b),
{
    assert(forall|i: u32, j: u32| i < 8 && j < 8 && i != j ==> (1u32 << i) & (1u32 << j) == 0)
        by (bit_vector);
    assert(forall|i: u32| i < 8 ==> (1u32 << i) & 255 == (1u32 << i)) by (bit_vector);
    assert(1u32 << 0u32 == 1 && 1u32 << 1u32 == 2 && 1u32 << 2u32 == 4 && 1u32 << 3u32 == 8
        && 1u32 << 4u32 == 16 && 1u32 << 5u32 == 32 && 1u32 << 6u32 == 64 && 1u32 << 7u32
        == 128) by (bit_vector);
    assert(a.bits() == 1u32 << (a.index() as u32));
    assert(b.bits() == 1u32 << (b.index() as u32));
}

/// The layers of the game among the groups of `layers`: those whose bit is
/// set in its groups.
pub uninterp spec fn layer_groups(layers: CollisionLayers) -> Set<GameCollisionLayers>;

/// The layers of the game among the masks of `layers`: those whose bit is
/// set in its masks.
pub uninterp spec fn layer_masks(layers: CollisionLayers) -> Set<GameCollisionLayers>;

/// Calls `heron::CollisionLayers::none`, which builds the layer set with no
/// bit set in its groups and none in its masks: no layer of the game is in
/// either.
#[verifier::external_body]
pub(crate) fn no_layers() -> (layers: CollisionLayers)
    ensures
        layer_groups(layers) == Set::<GameCollisionLayers>::empty(),
        layer_masks(layers) == Set::<GameCollisionLayers>::empty(),
{
    CollisionLayers::none()
}

/// Calls `heron::CollisionLayers::contains_group`, which tests whether the
/// groups and the bits of `layer` have a bit in common. A layer of the game
/// has a single bit, so this is whether `layer` is among the groups.
#[verifier::external_body]
pub(crate) fn contains_group(layers: CollisionLayers, layer: GameCollisionLayers) -> (found: bool)
    ensures
        found == layer_groups(layers).contains(layer),
{
    layers.contains_group(layer)
}

/// Calls `heron::CollisionLayers::with_group`, which sets the bits of `layer`
/// in the groups and leaves the masks as they are. The bit of a layer of the
/// game belongs to no other layer, so `layer` joins the groups and nothing
/// else changes.
#[verifier::external_body]
pub(crate) fn with_group(
    layers: CollisionLayers,
    layer: GameCollisionLayers,
) -> (added: CollisionLayers)
    ensures
        layer_groups(added) == layer_groups(layers).insert(layer),
        layer_masks(added) == layer_masks(layers),
{
    layers.with_group(layer)
}

/// Calls `heron::CollisionLayers::with_mask`, which sets the bits of `layer`
/// in the masks and leaves the groups as they are. The bit of a layer of the
/// game belongs to no other layer, so `layer` joins the masks and nothing
/// else changes.
#[verifier::external_body]
pub(crate) fn with_mask(
    layers: CollisionLayers,
    layer: GameCollisionLayers,
) -> (added: CollisionLayers)
    ensures
        layer_groups(added) == layer_groups(layers),
        layer_masks(added) == layer_masks(layers).insert(layer),
{
    layers.with_mask(layer)
}

} // verus!
