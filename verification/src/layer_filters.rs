//! The roles that a collision participant can play, decided from its layers.
//!
//! An entity inherits layers from its parent and its children, so one set of
//! layers can hold several of them. Each role therefore asks for one layer
//! and rules others out.

use crate::layers::{contains_group, layer_groups, GameCollisionLayers};
use heron::CollisionLayers;
use vstd::prelude::*;

verus! {

/// A role that the rules of the game look for in a collision.
#[derive(Clone, Copy, Debug, PartialEq, Eq, Structural)]
pub enum Role {
    Player,
    EnemyAttack,
    Item,
    Coin,
    Stairs,
    PlayerAttack,
}

/// Whether a participant on the layers `groups` plays `role`.
pub open spec fn plays(groups: Set<GameCollisionLayers>, role: Role) -> bool {
    match role {
        Role::Player => groups.contains(GameCollisionLayers::Player) && !groups.contains(
            GameCollisionLayers::Enemy,
        ) && !groups.contains(GameCollisionLayers::EnemyAttack),
        Role::EnemyAttack => !groups.contains(GameCollisionLayers::Player) && groups.contains(
            GameCollisionLayers::EnemyAttack,
        ),
        Role::Item => !groups.contains(GameCollisionLayers::Player) && groups.contains(
            GameCollisionLayers::Item,
        ),
        Role::Coin => !groups.contains(GameCollisionLayers::Player) && groups.contains(
            GameCollisionLayers::Coin,
        ),
        Role::Stairs => !groups.contains(GameCollisionLayers::Player) && groups.contains(
            GameCollisionLayers::Stairs,
        ),
        Role::PlayerAttack => !groups.contains(GameCollisionLayers::EnemyAttack)
            && groups.contains(GameCollisionLayers::PlayerAttack),
    }
}

/// Two roles that no set of layers plays at once.
pub open spec fn exclusive(a: Role, b: Role) -> bool {
    match (a, b) {
        (Role::Player, Role::EnemyAttack) | (Role::EnemyAttack, Role::Player) => true,
        (Role::Player, Role::Item) | (Role::Item, Role::Player) => true,
        (Role::Player, Role::Coin) | (Role::Coin, Role::Player) => true,
        (Role::Player, Role::Stairs) | (Role::Stairs, Role::Player) => true,
        (Role::PlayerAttack, Role::EnemyAttack) | (Role::EnemyAttack, Role::PlayerAttack) => true,
        _ => false,
    }
}

/// The role that an entity on the single layer `layer` plays, if any.
pub open spec fn role_of_layer(layer: GameCollisionLayers) -> Option<Role> {
    match layer {
        GameCollisionLayers::World => None,
        GameCollisionLayers::Player => Some(Role::Player),
        GameCollisionLayers::PlayerAttack => Some(Role::PlayerAttack),
        GameCollisionLayers::Enemy => None,
        GameCollisionLayers::EnemyAttack => Some(Role::EnemyAttack),
        GameCollisionLayers::Item => Some(Role::Item),
        GameCollisionLayers::Coin => Some(Role::Coin),
        GameCollisionLayers::Stairs => Some(Role::Stairs),
    }
}

/// The player: on the player layer, and neither an enemy nor an enemy's
/// attack.
pub fn is_player(layers: CollisionLayers) -> (found: bool)
    ensures
        found == plays(layer_groups(layers), Role::Player),
{
    contains_group(layers, GameCollisionLayers::Player) && !contains_group(
        layers,
        GameCollisionLayers::Enemy,
    ) && !contains_group(layers, GameCollisionLayers::EnemyAttack)
}

/// An enemy's attack: on the enemy attack layer and not on the player's.
pub fn is_enemy_attack(layers: CollisionLayers) -> (found: bool)
    ensures
        found == plays(layer_groups(layers), Role::EnemyAttack),
{
    !contains_group(layers, GameCollisionLayers::Player) && contains_group(
        layers,
        GameCollisionLayers::EnemyAttack,
    )
}

/// An item: on the item layer and not on the player's.
pub fn is_item(layers: CollisionLayers) -> (found: bool)
    ensures
        found == plays(layer_groups(layers), Role::Item),
{
    !contains_group(layers, GameCollisionLayers::Player) && contains_group(
        layers,
        GameCollisionLayers::Item,
    )
}

/// A coin: on the coin layer and not on the player's.
pub fn is_coin(layers: CollisionLayers) -> (found: bool)
    ensures
        found == plays(layer_groups(layers), Role::Coin),
{
    !contains_group(layers, GameCollisionLayers::Player) && contains_group(
        layers,
        GameCollisionLayers::Coin,
    )
}

/// The stairs: on the stairs layer and not on the player's.
pub fn is_stairs(layers: CollisionLayers) -> (found: bool)
    ensures
        found == plays(layer_groups(layers), Role::Stairs),
{
    !contains_group(layers, GameCollisionLayers::Player) && contains_group(
        layers,
        GameCollisionLayers::Stairs,
    )
}

/// The player's attack: on the player attack layer and not on the enemy
/// attack layer.
pub fn is_player_attack(layers: CollisionLayers) -> (found: bool)
    ensures
        found == plays(layer_groups(layers), Role::PlayerAttack),
{
    !contains_group(layers, GameCollisionLayers::EnemyAttack) && contains_group(
        layers,
        GameCollisionLayers::PlayerAttack,
    )
}

/// Whether a participant on `layers` plays `role`. Defined for every set of
/// layers; a set that no rule recognises plays no role.
pub fn matches_role(layers: CollisionLayers, role: Role) -> (found: bool)
    ensures
        found == plays(layer_groups(layers), role),
{
    match role {
        Role::Player => is_player(layers),
        Role::EnemyAttack => is_enemy_attack(layers),
        Role::Item => is_item(layers),
        Role::Coin => is_coin(layers),
        Role::Stairs => is_stairs(layers),
        Role::PlayerAttack => is_player_attack(layers),
    }
}

/// No set of layers plays two exclusive roles at once: what is the player is
/// not an enemy's attack, an item, a coin or the stairs, and what is the
/// player's attack is not an enemy's attack.
pub proof fn lemma_exclusive_roles(groups: Set<GameCollisionLayers>, a: Role, b: Role)
    requires
        exclusive(a, b),
    ensures
        !(plays(groups, a) && plays(groups, b)),
{
}

/// An entity on a single layer plays the role of that layer and no other;
/// on the world layer or the enemy layer it plays none.
pub proof fn lemma_single_layer_role(layer: GameCollisionLayers, role: Role)
    ensures
        plays(set![layer], role) == (role_of_layer(layer) == Some(role)),
{
}

/// Without any layer a participant plays no role.
pub proof fn lemma_no_layers_no_role(role: Role)
    ensures
        !plays(Set::<GameCollisionLayers>::empty(), role),
{
}

} // verus!
