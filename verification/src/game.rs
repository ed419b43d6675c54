//! The world state of one play session: health, counters and play time.
//!
//! The state is changed only through the operations below. None of them can
//! fail: a decrement that would go below zero, or an increment that would
//! leave the range of the counter, leaves the value where it is.

use crate::types::GameState;
use vstd::prelude::*;

verus! {

/// The health a player starts a session with, and the most they can have.
pub const PLAYER_MAX_HEALTH: u32 = 3;

/// The number of nanoseconds in a second.
pub const NANOS_PER_SECOND: u64 = 1_000_000_000;

/// What a world state holds, as numbers without bounds.
pub struct WorldView {
    pub player_health: nat,
    pub inventory_points: nat,
    pub coins: nat,
    /// Time played, in nanoseconds.
    pub play_time: nat,
    pub is_player_performing_special_action: bool,
}

impl WorldView {
    /// The state at the start of a session.
    pub open spec fn fresh() -> WorldView {
        WorldView {
            player_health: PLAYER_MAX_HEALTH as nat,
            inventory_points: 0,
            coins: 0,
            play_time: 0,
            is_player_performing_special_action: false,
        }
    }

    /// What holds of every world state: the health is at most the maximum,
    /// and each counter fits its machine type.
    pub open spec fn wf(self) -> bool {
        &&& self.player_health <= PLAYER_MAX_HEALTH
        &&& self.inventory_points <= u32::MAX
        &&& self.coins <= u32::MAX
        &&& self.play_time <= u64::MAX
    }

    /// One hit: a point of health less, unless none is left.
    pub open spec fn damaged(self) -> WorldView {
        WorldView {
            player_health: if self.player_health > 0 {
                (self.player_health - 1) as nat
            } else {
                0
            },
            ..self
        }
    }

    /// `hits` hits, one after the other.
    pub open spec fn after_hits(self, hits: nat) -> WorldView
        decreases hits,
    {
        if hits == 0 {
            self
        } else {
            self.damaged().after_hits((hits - 1) as nat)
        }
    }

    /// `count` items picked up: as many points more, up to the counter's
    /// largest value.
    pub open spec fn with_items(self, count: nat) -> WorldView {
        WorldView {
            inventory_points: if self.inventory_points + count <= u32::MAX {
                self.inventory_points + count
            } else {
                u32::MAX as nat
            },
            ..self
        }
    }

    /// `count` coins picked up: as many coins more, up to the counter's
    /// largest value.
    pub open spec fn with_coins(self, count: nat) -> WorldView {
        WorldView {
            coins: if self.coins + count <= u32::MAX {
                self.coins + count
            } else {
                u32::MAX as nat
            },
            ..self
        }
    }

    /// `count` points spent; asks for `count <= self.inventory_points`.
    pub open spec fn with_points_spent(self, count: nat) -> WorldView
        recommends
            count <= self.inventory_points,
    {
        WorldView { inventory_points: (self.inventory_points - count) as nat, ..self }
    }

    /// A point spent on the special action, if there is one, and whether
    /// there was one. Without a point nothing changes.
    pub open spec fn consumed(self) -> (WorldView, bool) {
        if self.inventory_points > 0 {
            (self.with_points_spent(1), true)
        } else {
            (self, false)
        }
    }

    /// `nanos` nanoseconds played, up to the counter's largest value.
    pub open spec fn with_time(self, nanos: nat) -> WorldView {
        WorldView {
            play_time: if self.play_time + nanos <= u64::MAX {
                self.play_time + nanos
            } else {
                u64::MAX as nat
            },
            ..self
        }
    }

    /// The flag of the special action set to `active`.
    pub open spec fn with_special_action(self, active: bool) -> WorldView {
        WorldView { is_player_performing_special_action: active, ..self }
    }
}

/// Health, counters, play time and the flag of the special action.
#[derive(Clone, Copy, Debug)]
pub struct GameWorldState {
    player_health: u32,
    inventory_points: u32,
    coins: u32,
    play_time: u64,
    is_player_performing_special_action: bool,
}

impl View for GameWorldState {
    type V = WorldView;

    closed spec fn view(&self) -> WorldView {
        WorldView {
            player_health: self.player_health as nat,
            inventory_points: self.inventory_points as nat,
            coins: self.coins as nat,
            play_time: self.play_time as nat,
            is_player_performing_special_action: self.is_player_performing_special_action,
        }
    }
}

impl Default for GameWorldState {
    /// The state at the start of a session: full health, nothing collected,
    /// no time played.
    fn default() -> (state: GameWorldState)
        ensures
            state@ == WorldView::fresh(),
    {
        GameWorldState {
            player_health: PLAYER_MAX_HEALTH,
            inventory_points: 0,
            coins: 0,
            play_time: 0,
            is_player_performing_special_action: false,
        }
    }
}

impl GameWorldState {
    #[verifier::type_invariant]
    pub(crate) closed spec fn inv(self) -> bool {
        self.player_health <= PLAYER_MAX_HEALTH
    }

    /// A state that keeps its invariant has a well formed view.
    pub(crate) proof fn lemma_inv_is_wf(self)
        requires
            self.inv(),
        ensures
            self@.wf(),
    {
    }

    /// The state at the start of a session.
    pub fn new() -> (state: GameWorldState)
        ensures
            state@ == WorldView::fresh(),
    {
        GameWorldState {
            player_health: PLAYER_MAX_HEALTH,
            inventory_points: 0,
            coins: 0,
            play_time: 0,
            is_player_performing_special_action: false,
        }
    }

    /// The health that is left, from 0 to the maximum.
    pub fn player_health(&self) -> (health: u32)
        ensures
            health == self@.player_health,
            health <= PLAYER_MAX_HEALTH,
    {
        proof {
            use_type_invariant(self);
        }
        self.player_health
    }

    /// The points that can be spent on the special action.
    pub fn inventory_points(&self) -> (points: u32)
        ensures
            points == self@.inventory_points,
    {
        self.inventory_points
    }

    /// The coins collected.
    pub fn coins(&self) -> (coins: u32)
        ensures
            coins == self@.coins,
    {
        self.coins
    }

    /// The time played, in nanoseconds.
    pub fn play_time_nanos(&self) -> (nanos: u64)
        ensures
            nanos == self@.play_time,
    {
        self.play_time
    }

    /// The time played, in whole seconds.
    pub fn play_time_seconds(&self) -> (seconds: u64)
        ensures
            seconds == self@.play_time / (NANOS_PER_SECOND as nat),
    {
        self.play_time / NANOS_PER_SECOND
    }

    /// Whether the player is performing the special action, during which
    /// they take no damage.
    pub fn is_player_performing_special_action(&self) -> (active: bool)
        ensures
            active == self@.is_player_performing_special_action,
    {
        self.is_player_performing_special_action
    }

    /// Takes one point of health, unless none is left. Returns whether the
    /// health is now at zero, which ends the game.
    pub fn apply_damage(&mut self) -> (depleted: bool)
        ensures
            final(self)@ == old(self)@.damaged(),
            final(self)@.wf(),
            depleted == (final(self)@.player_health == 0),
    {
        proof {
            use_type_invariant(&*self);
        }
        if self.player_health > 0 {
            self.player_health = self.player_health - 1;
        }
        self.player_health == 0
    }

    /// Counts one item picked up.
    pub fn credit_item_pickup(&mut self)
        ensures
            final(self)@ == old(self)@.with_items(1),
            final(self)@.wf(),
    {
        self.credit_item_pickups(1);
    }

    /// Counts `count` items picked up.
    pub fn credit_item_pickups(&mut self, count: usize)
        ensures
            final(self)@ == old(self)@.with_items(count as nat),
            final(self)@.wf(),
    {
        proof {
            use_type_invariant(&*self);
        }
        let room: u32 = u32::MAX - self.inventory_points;
        if count <= room as usize {
            self.inventory_points = self.inventory_points + count as u32;
        } else {
            self.inventory_points = u32::MAX;
        }
    }

    /// Counts one coin picked up.
    pub fn credit_coin_pickup(&mut self)
        ensures
            final(self)@ == old(self)@.with_coins(1),
            final(self)@.wf(),
    {
        self.credit_coin_pickups(1);
    }

    /// Counts `count` coins picked up.
    pub fn credit_coin_pickups(&mut self, count: usize)
        ensures
            final(self)@ == old(self)@.with_coins(count as nat),
            final(self)@.wf(),
    {
        proof {
            use_type_invariant(&*self);
        }
        let room: u32 = u32::MAX - self.coins;
        if count <= room as usize {
            self.coins = self.coins + count as u32;
        } else {
            self.coins = u32::MAX;
        }
    }

    /// Spends one point on the special action, if there is one. Returns
    /// whether a point was spent; where none was, the state is unchanged and
    /// the action must not be performed.
    pub fn consume_inventory_point_for_action(&mut self) -> (spent: bool)
        ensures
            (final(self)@, spent) == old(self)@.consumed(),
            final(self)@.wf(),
    {
        proof {
            use_type_invariant(&*self);
        }
        if self.inventory_points > 0 {
            self.inventory_points = self.inventory_points - 1;
            true
        } else {
            false
        }
    }

    /// Adds `delta_nanos` nanoseconds to the time played.
    pub fn advance_play_time(&mut self, delta_nanos: u64)
        ensures
            final(self)@ == old(self)@.with_time(delta_nanos as nat),
            final(self)@.wf(),
    {
        proof {
            use_type_invariant(&*self);
        }
        if delta_nanos <= u64::MAX - self.play_time {
            self.play_time = self.play_time + delta_nanos;
        } else {
            self.play_time = u64::MAX;
        }
    }

    /// Records whether the player is performing the special action.
    pub fn set_special_action(&mut self, active: bool)
        ensures
            final(self)@ == old(self)@.with_special_action(active),
            final(self)@.wf(),
    {
        proof {
            use_type_invariant(&*self);
        }
        self.is_player_performing_special_action = active;
    }

    /// Puts the state back to that of a session's start.
    pub fn reset(&mut self)
        ensures
            final(self)@ == WorldView::fresh(),
    {
        *self = GameWorldState::new();
    }
}

/// Applies the hits of one tick to the player. Where hits came and the health
/// is at zero after them, the game is asked to end.
pub fn player_damaged(
    hits: usize,
    game_world_state: &mut GameWorldState,
    game_state: &mut GameState,
)
    ensures
        final(game_world_state)@ == old(game_world_state)@.after_hits(hits as nat),
        *final(game_state) == if hits > 0 && final(game_world_state)@.player_health == 0 {
            old(game_state).after_request(GameState::GameOver)
        } else {
            *old(game_state)
        },
{
    let mut done: usize = 0;
    while done < hits
        invariant
            done <= hits,
            game_world_state@ == old(game_world_state)@.after_hits(done as nat),
            *game_state == if done > 0 && game_world_state@.player_health == 0 {
                old(game_state).after_request(GameState::GameOver)
            } else {
                *old(game_state)
            },
        decreases hits - done,
    {
        proof {
            lemma_hits_one_more(old(game_world_state)@, done as nat);
            lemma_health_after_hits(old(game_world_state)@, done as nat);
            lemma_health_after_hits(old(game_world_state)@, (done + 1) as nat);
        }
        if game_world_state.apply_damage() {
            game_state.set(GameState::GameOver);
        }
        done = done + 1;
    }
}

/// Counts the items picked up in one tick, each of them.
pub fn player_picked_up_item(pickups: usize, game_world_state: &mut GameWorldState)
    ensures
        final(game_world_state)@ == old(game_world_state)@.with_items(pickups as nat),
        final(game_world_state)@.wf(),
{
    game_world_state.credit_item_pickups(pickups);
}

/// Counts the coins picked up in one tick, each of them.
pub fn player_picked_up_coin(pickups: usize, game_world_state: &mut GameWorldState)
    ensures
        final(game_world_state)@ == old(game_world_state)@.with_coins(pickups as nat),
        final(game_world_state)@.wf(),
{
    game_world_state.credit_coin_pickups(pickups);
}

/// Adds the time of one tick to the time played.
pub fn increase_play_time(delta_nanos: u64, game_world_state: &mut GameWorldState)
    ensures
        final(game_world_state)@ == old(game_world_state)@.with_time(delta_nanos as nat),
{
    game_world_state.advance_play_time(delta_nanos);
}

/// Records whether the player is performing the special action: they are
/// while an attack of theirs is alive.
pub fn is_borking(live_attacks: usize, game_world_state: &mut GameWorldState)
    ensures
        final(game_world_state)@ == old(game_world_state)@.with_special_action(live_attacks > 0),
{
    game_world_state.set_special_action(live_attacks > 0);
}

/// The number of attacks that `players` players start on `points` points:
/// none unless the attack was asked for, else one for each player while the
/// points last.
pub open spec fn attacks_started(attack_pressed: bool, players: nat, points: nat) -> nat {
    if !attack_pressed {
        0
    } else if players <= points {
        players
    } else {
        points
    }
}

/// Starts the special action for each player, as far as the points last: each
/// attack costs one. Returns the number of attacks to start.
pub fn bork(
    attack_pressed: bool,
    players: usize,
    game_world_state: &mut GameWorldState,
) -> (started: usize)
    ensures
        started == attacks_started(
            attack_pressed,
            players as nat,
            old(game_world_state)@.inventory_points,
        ),
        final(game_world_state)@ == old(game_world_state)@.with_points_spent(started as nat),
{
    if !attack_pressed {
        return 0;
    }
    let mut started: usize = 0;
    while started < players
        invariant
            started <= players,
            started <= old(game_world_state)@.inventory_points,
            game_world_state@ == old(game_world_state)@.with_points_spent(started as nat),
        ensures
            started == attacks_started(
                true,
                players as nat,
                old(game_world_state)@.inventory_points,
            ),
            game_world_state@ == old(game_world_state)@.with_points_spent(started as nat),
        decreases players - started,
    {
        if !game_world_state.consume_inventory_point_for_action() {
            break ;
        }
        started = started + 1;
    }
    started
}

/// One hit more is one more step of damage at the end.
pub proof fn lemma_hits_one_more(world: WorldView, hits: nat)
    ensures
        world.after_hits(hits + 1) == world.after_hits(hits).damaged(),
    decreases hits,
{
    if hits > 0 {
        lemma_hits_one_more(world.damaged(), (hits - 1) as nat);
        assert(world.after_hits(hits) == world.damaged().after_hits((hits - 1) as nat));
        assert(world.after_hits(hits + 1) == world.damaged().after_hits(hits));
    } else {
        assert(world.after_hits(1) == world.damaged().after_hits(0));
    }
}

/// The health after `hits` hits is what was there less the hits, and zero
/// where there were more hits than health. Nothing else changes.
pub proof fn lemma_health_after_hits(world: WorldView, hits: nat)
    ensures
        world.after_hits(hits) == (WorldView {
            player_health: if hits >= world.player_health {
                0
            } else {
                (world.player_health - hits) as nat
            },
            ..world
        }),
    decreases hits,
{
    if hits > 0 {
        lemma_health_after_hits(world.damaged(), (hits - 1) as nat);
    }
}

/// However many hits come, the health stays between zero and the maximum,
/// and the state stays well formed.
pub proof fn lemma_hits_keep_health_in_range(world: WorldView, hits: nat)
    requires
        world.wf(),
    ensures
        world.after_hits(hits).wf(),
        0 <= world.after_hits(hits).player_health <= PLAYER_MAX_HEALTH,
        world.after_hits(hits).player_health <= world.player_health,
{
    lemma_health_after_hits(world, hits);
}

/// A hit at zero health leaves the health at zero, and the state as it was.
pub proof fn lemma_hit_at_zero_health(world: WorldView)
    requires
        world.player_health == 0,
    ensures
        world.damaged() == world,
{
}

/// As many hits as there is health, and no fewer, bring a full health to
/// zero.
pub proof fn lemma_hits_to_zero(hits: nat)
    ensures
        (WorldView::fresh().after_hits(hits).player_health == 0) == (hits >= PLAYER_MAX_HEALTH),
{
    lemma_health_after_hits(WorldView::fresh(), hits);
}

/// Spending a point never takes the points below zero: with none left
/// nothing is spent and nothing changes, and with some left there is exactly
/// one less.
pub proof fn lemma_points_never_negative(world: WorldView)
    requires
        world.wf(),
    ensures
        world.consumed().0.wf(),
        world.consumed().0.inventory_points >= 0,
        world.inventory_points == 0 ==> world.consumed() == (world, false),
        world.inventory_points > 0 ==> world.consumed().1 && world.consumed().0.inventory_points
            + 1 == world.inventory_points,
        world.consumed().0 == world.with_points_spent(
            attacks_started(true, 1, world.inventory_points),
        ),
{
}

/// Pickups are counted one by one: three items in a tick are three points.
pub proof fn lemma_pickups_add_up(world: WorldView, first: nat, second: nat)
    requires
        world.wf(),
    ensures
        world.with_items(first).with_items(second) == world.with_items(first + second),
        world.with_coins(first).with_coins(second) == world.with_coins(first + second),
        world.with_items(first).wf(),
        world.with_coins(first).wf(),
        world.with_items(first).inventory_points >= world.inventory_points,
        world.with_coins(first).coins >= world.coins,
{
}

/// The time played never goes back.
pub proof fn lemma_play_time_never_goes_back(world: WorldView, nanos: nat)
    requires
        world.wf(),
    ensures
        world.with_time(nanos).play_time >= world.play_time,
        world.with_time(nanos).wf(),
{
}

} // verus!
