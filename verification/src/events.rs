//! The events of the game.

use vstd::prelude::*;

verus! {

/// Something that happened in the game, as the rest of the game needs to know
/// it. An event carries nothing but its kind.
#[derive(Clone, Copy, Debug, PartialEq, Eq, Hash, Structural)]
pub enum SemanticEvent {
    /// An enemy's attack hit the player.
    PlayerDamaged,
    /// The player picked up an item.
    ItemPickedUp,
    /// The player picked up a coin.
    CoinPickedUp,
    /// The player's attack met an enemy's attack.
    EnemyAttackBlocked,
    /// The player reached the stairs.
    LevelAdvanceRequested,
    /// The levels start over.
    LevelResetRequested,
    /// The player began the special action.
    PlayerActionStarted,
    /// The player's special action is over: no attack of theirs is alive
    /// any more.
    PlayerActionEnded,
}

} // verus!
