//! One play session, tick by tick.
//!
//! A session owns the phase, the world state and the level state. Each tick
//! it is handed what the engine saw, and it answers with what the engine is
//! to do. A tick has a fixed order: first the inputs that change the phase,
//! with the world and the levels reset on the way into the game; then, in
//! the game, the collisions are turned into events, and only then are the
//! events counted.

use crate::collision::{
    player_attack_collision, player_attack_enemy_attack_collision, player_coin_collision,
    player_item_collision, player_stairs_collision, routed, CollisionEvent, Emission, Rule,
};
use crate::collision::lemma_routed_in_registration_order;
use crate::events::SemanticEvent;
use crate::game::{
    attacks_started, bork, increase_play_time, is_borking, player_damaged, player_picked_up_coin,
    player_picked_up_item, GameWorldState, WorldView,
};
use crate::game::lemma_health_after_hits;
use crate::levels::{change_level, LevelState, LevelView, LEVEL_COUNT};
use crate::levels::{lemma_level_stays_in_range, lemma_only_first_request_counts};
use crate::types::GameState;
use vstd::prelude::*;

verus! {

/// What the engine saw in one tick.
#[derive(Debug)]
pub struct TickInput {
    /// All assets are loaded.
    pub assets_ready: bool,
    /// The key that starts or continues the game was pressed in this tick.
    pub confirm: bool,
    /// The key for the special action was pressed in this tick.
    pub attack: bool,
    /// The number of players in the world.
    pub players: usize,
    /// The number of attacks of the player that are alive.
    pub live_attacks: usize,
    /// The level that is shown got its first collectible.
    pub level_populated: bool,
    /// The time since the last tick, in nanoseconds.
    pub delta_nanos: u64,
    /// The collisions that the physics engine reported.
    pub collisions: Vec<CollisionEvent>,
}

/// What the engine is to do after one tick.
#[derive(Debug)]
pub struct TickOutcome {
    /// The events of the tick in the order in which they arose, each with the
    /// entity to remove, if there is one.
    pub emissions: Vec<Emission>,
    /// The number of attacks of the player to start.
    pub attacks_started: usize,
    /// The number of the level to load, if another level is to be shown.
    pub switch_to: Option<usize>,
}

/// What a session holds.
pub struct SessionView {
    pub state: GameState,
    pub world: WorldView,
    pub levels: LevelView,
}

/// `count` emissions of `event` that remove nothing.
pub open spec fn repeated(event: SemanticEvent, count: nat) -> Seq<Emission> {
    Seq::new(count, |i: int| Emission { event, despawn: None })
}

impl SessionView {
    /// The session at its start, with `max_levels` levels.
    pub open spec fn fresh(max_levels: nat) -> SessionView {
        SessionView {
            state: GameState::Loading,
            world: WorldView::fresh(),
            levels: LevelView::first(max_levels),
        }
    }

    /// What holds of every session.
    pub open spec fn wf(self) -> bool {
        self.world.wf() && self.levels.wf()
    }

    /// Whether the inputs of the tick lead into the game.
    pub open spec fn enters_game(self, input: TickInput) -> bool {
        input.confirm && (self.state == GameState::MainMenu || self.state == GameState::GameOver)
    }

    /// The session after the inputs that change the phase: the menu follows
    /// the loading once the assets are there, and the game follows the menu
    /// or the end of a game when the player confirms. On the way into the
    /// game the world starts afresh and the levels start over.
    pub open spec fn after_inputs(self, input: TickInput) -> SessionView {
        if self.state == GameState::Loading && input.assets_ready {
            SessionView { state: GameState::MainMenu, ..self }
        } else if self.enters_game(input) {
            SessionView {
                state: GameState::InGame,
                world: WorldView::fresh(),
                levels: self.levels.restarted(),
            }
        } else {
            self
        }
    }

    /// What the rules of the game make of the collisions of the tick, given
    /// a session that is in the game.
    pub open spec fn collected(self, input: TickInput) -> Seq<Emission> {
        routed(input.collisions@, Rule::registered(), input.live_attacks > 0)
    }

    /// The number of hits among the collisions of the tick.
    pub open spec fn hits(input: TickInput) -> nat {
        Rule::player_damaged().emissions(input.collisions@, input.live_attacks > 0).len()
    }

    /// The number of items picked up in the tick.
    pub open spec fn items(input: TickInput) -> nat {
        Rule::item_picked_up().emissions(input.collisions@, input.live_attacks > 0).len()
    }

    /// The number of coins picked up in the tick.
    pub open spec fn coins(input: TickInput) -> nat {
        Rule::coin_picked_up().emissions(input.collisions@, input.live_attacks > 0).len()
    }

    /// The number of times the stairs were reached in the tick.
    pub open spec fn stairs(input: TickInput) -> nat {
        Rule::level_advance_requested().emissions(
            input.collisions@,
            input.live_attacks > 0,
        ).len()
    }

    /// The levels after a tick in the game: populated if the engine says so,
    /// then advanced if the stairs were reached.
    pub open spec fn levels_played(self, input: TickInput) -> LevelView {
        let noted = if input.level_populated {
            self.levels.populated()
        } else {
            self.levels
        };
        noted.after_requests(Self::stairs(input))
    }

    /// The world after the events of a tick in the game were counted, before
    /// the player's own action.
    pub open spec fn world_counted(self, input: TickInput) -> WorldView {
        self.world.with_special_action(input.live_attacks > 0).after_hits(
            Self::hits(input),
        ).with_items(Self::items(input)).with_coins(Self::coins(input))
    }

    /// The number of attacks that the player starts in a tick in the game.
    pub open spec fn attacks(self, input: TickInput) -> nat {
        attacks_started(
            input.attack,
            input.players as nat,
            self.world_counted(input).inventory_points,
        )
    }

    /// The session after a tick in the game. The phase moves to the end of
    /// the game where hits came and no health is left.
    pub open spec fn played(self, input: TickInput) -> SessionView {
        let world = self.world_counted(input).with_points_spent(self.attacks(input)).with_time(
            input.delta_nanos as nat,
        );
        SessionView {
            state: if Self::hits(input) > 0 && world.player_health == 0 {
                GameState::GameOver
            } else {
                self.state
            },
            world,
            levels: self.levels_played(input),
        }
    }

    /// The session after a tick: after its inputs, and, where it is then in
    /// the game, after the play of the tick.
    pub open spec fn after_tick(self, input: TickInput) -> SessionView {
        let ready = self.after_inputs(input);
        if ready.state == GameState::InGame {
            ready.played(input)
        } else {
            ready
        }
    }

    /// Whether the special action ends in a tick in the game: it was on, and
    /// no attack of the player is alive any more.
    pub open spec fn action_ends(self, input: TickInput) -> bool {
        self.world.is_player_performing_special_action && input.live_attacks == 0
    }

    /// The events with which a tick begins: the restart of the levels on the
    /// way into the game, and, in the game, the end of the special action.
    pub open spec fn opening(self, input: TickInput) -> Seq<Emission> {
        let ready = self.after_inputs(input);
        let entry = if self.enters_game(input) {
            repeated(SemanticEvent::LevelResetRequested, 1)
        } else {
            Seq::empty()
        };
        if ready.state == GameState::InGame && ready.action_ends(input) {
            entry + repeated(SemanticEvent::PlayerActionEnded, 1)
        } else {
            entry
        }
    }

    /// The events of a tick: those with which it begins; then, in the game,
    /// what the collisions gave and the attacks that the player started.
    pub open spec fn emitted(self, input: TickInput) -> Seq<Emission> {
        let ready = self.after_inputs(input);
        if ready.state == GameState::InGame {
            self.opening(input) + ready.collected(input) + repeated(
                SemanticEvent::PlayerActionStarted,
                self.started(input),
            )
        } else {
            self.opening(input)
        }
    }

    /// The number of attacks that the player starts in a tick: none outside
    /// the game.
    pub open spec fn started(self, input: TickInput) -> nat {
        let ready = self.after_inputs(input);
        if ready.state == GameState::InGame {
            ready.attacks(input)
        } else {
            0
        }
    }

    /// The level to load after a tick: the next level where the stairs were
    /// reached in a populated level, else the first level on the way into
    /// the game, else none.
    pub open spec fn switched(self, input: TickInput) -> Option<usize> {
        let ready = self.after_inputs(input);
        let populated = input.level_populated || ready.levels.level_is_populated;
        if ready.state == GameState::InGame && Self::stairs(input) > 0 && populated {
            Some(ready.levels.next_index() as usize)
        } else if self.enters_game(input) {
            Some(0usize)
        } else {
            None
        }
    }
}

/// The phase, the world state and the level state of one session.
#[derive(Clone, Copy, Debug)]
pub struct Session {
    state: GameState,
    world: GameWorldState,
    levels: LevelState,
}

impl View for Session {
    type V = SessionView;

    closed spec fn view(&self) -> SessionView {
        SessionView { state: self.state, world: self.world@, levels: self.levels@ }
    }
}

/// Leaves the loading for the menu once all assets are there. Returns whether
/// the phase changed.
pub fn finish_loading(assets_ready: bool, game_state: &mut GameState) -> (changed: bool)
    ensures
        changed == (assets_ready && *old(game_state) == GameState::Loading),
        *final(game_state) == if changed {
            GameState::MainMenu
        } else {
            *old(game_state)
        },
{
    if assets_ready {
        game_state.set(GameState::MainMenu)
    } else {
        false
    }
}

/// Enters the game from the menu or from the end of a game when the player
/// confirms. Returns whether the game was entered.
pub fn load_game(confirm: bool, game_state: &mut GameState) -> (entered: bool)
    ensures
        entered == (confirm && (*old(game_state) == GameState::MainMenu || *old(game_state)
            == GameState::GameOver)),
        *final(game_state) == if entered {
            GameState::InGame
        } else {
            *old(game_state)
        },
{
    if confirm {
        game_state.set(GameState::InGame)
    } else {
        false
    }
}

/// What is done on the way into the game: the world starts afresh, then the
/// levels start over. Returns the number of the level to load, zero.
pub fn reset_game_world(
    game_world_state: &mut GameWorldState,
    level_state: &mut LevelState,
) -> (switch_to: usize)
    ensures
        final(game_world_state)@ == WorldView::fresh(),
        final(level_state)@ == old(level_state)@.restarted(),
        final(level_state)@.wf(),
        switch_to == 0,
{
    game_world_state.reset();
    level_state.request_reset()
}

impl Session {
    /// A session at its start, with the levels that the game comes with.
    pub fn new() -> (session: Session)
        ensures
            session@ == SessionView::fresh(LEVEL_COUNT as nat),
    {
        Session {
            state: GameState::new(),
            world: GameWorldState::new(),
            levels: LevelState::default(),
        }
    }

    /// A session at its start with `max_levels` levels, or nothing where
    /// there is no level.
    pub fn with_levels(max_levels: usize) -> (session: Option<Session>)
        ensures
            max_levels == 0 <==> session is None,
            session matches Some(s) ==> s@ == SessionView::fresh(max_levels as nat),
    {
        match LevelState::new(max_levels) {
            Some(levels) => Some(
                Session { state: GameState::new(), world: GameWorldState::new(), levels },
            ),
            None => None,
        }
    }

    /// The phase of the session.
    pub fn state(&self) -> (state: GameState)
        ensures
            state == self@.state,
    {
        self.state
    }

    /// The world state, to read.
    pub fn world(&self) -> (world: &GameWorldState)
        ensures
            world@ == self@.world,
    {
        &self.world
    }

    /// The level state, to read.
    pub fn levels(&self) -> (levels: &LevelState)
        ensures
            levels@ == self@.levels,
    {
        &self.levels
    }

    /// Runs one tick. First the inputs that change the phase are answered;
    /// on the way into the game the world and the levels are reset. Then, in
    /// the game, the end of the special action is told and its flag is set,
    /// the level is noted as populated if it is, the collisions are turned into events, the
    /// events are counted, the player's attack is started if it was asked
    /// for and can be paid, and the time of the tick is added. Returns what
    /// the engine is to do.
    pub fn tick(&mut self, input: &TickInput) -> (outcome: TickOutcome)
        ensures
            final(self)@ == old(self)@.after_tick(*input),
            final(self)@.wf(),
            outcome.emissions@ == old(self)@.emitted(*input),
            outcome.attacks_started == old(self)@.started(*input),
            outcome.switch_to == old(self)@.switched(*input),
    {
        let mut emissions: Vec<Emission> = Vec::new();
        let mut switch_to: Option<usize> = None;
        let mut attacks: usize = 0;
        if !finish_loading(input.assets_ready, &mut self.state) {
            if load_game(input.confirm, &mut self.state) {
                switch_to = Some(reset_game_world(&mut self.world, &mut self.levels));
                emissions.push(
                    Emission { event: SemanticEvent::LevelResetRequested, despawn: None },
                );
            }
        }
        let ghost ready = self@;
        let ghost entry = emissions@;
        proof {
            assert(ready == old(self)@.after_inputs(*input));
            assert(entry == if old(self)@.enters_game(*input) {
                repeated(SemanticEvent::LevelResetRequested, 1)
            } else {
                Seq::<Emission>::empty()
            });
        }
        match self.state {
            GameState::InGame => {
                if self.world.is_player_performing_special_action() && input.live_attacks == 0 {
                    emissions.push(
                        Emission { event: SemanticEvent::PlayerActionEnded, despawn: None },
                    );
                }
                let ghost opening = emissions@;
                proof {
                    assert(opening == old(self)@.opening(*input));
                }
                is_borking(input.live_attacks, &mut self.world);
                if input.level_populated {
                    self.levels.mark_level_populated();
                }
                let ghost noted = self.levels@;
                let mut damage = player_attack_collision(&input.collisions, &self.world);
                let mut items = player_item_collision(&input.collisions);
                let mut coins = player_coin_collision(&input.collisions);
                let mut stairs = player_stairs_collision(&input.collisions);
                let mut blocked = player_attack_enemy_attack_collision(&input.collisions);
                player_damaged(damage.len(), &mut self.world, &mut self.state);
                player_picked_up_item(items.len(), &mut self.world);
                player_picked_up_coin(coins.len(), &mut self.world);
                let advanced = change_level(stairs.len(), &mut self.levels);
                if advanced.is_some() {
                    switch_to = advanced;
                }
                proof {
                    let special = input.live_attacks > 0;
                    let events = input.collisions@;
                    lemma_routed_in_registration_order(events, special);
                    assert(Rule::item_picked_up().emissions(events, false)
                        == Rule::item_picked_up().emissions(events, special));
                    assert(Rule::coin_picked_up().emissions(events, false)
                        == Rule::coin_picked_up().emissions(events, special));
                    assert(Rule::level_advance_requested().emissions(events, false)
                        == Rule::level_advance_requested().emissions(events, special));
                    assert(Rule::enemy_attack_blocked().emissions(events, false)
                        == Rule::enemy_attack_blocked().emissions(events, special));
                    assert(self.world@ == ready.world_counted(*input));
                    assert(self.levels@ == ready.levels_played(*input));
                    if stairs.len() > 0 {
                        lemma_only_first_request_counts(noted, stairs.len() as nat);
                    }
                }
                emissions.append(&mut damage);
                emissions.append(&mut items);
                emissions.append(&mut coins);
                emissions.append(&mut stairs);
                emissions.append(&mut blocked);
                assert(emissions@ == opening + ready.collected(*input));
                attacks = bork(input.attack, input.players, &mut self.world);
                increase_play_time(input.delta_nanos, &mut self.world);
                let mut started: usize = 0;
                while started < attacks
                    invariant
                        started <= attacks,
                        emissions@ == opening + ready.collected(*input) + repeated(
                            SemanticEvent::PlayerActionStarted,
                            started as nat,
                        ),
                    decreases attacks - started,
                {
                    emissions.push(
                        Emission { event: SemanticEvent::PlayerActionStarted, despawn: None },
                    );
                    started = started + 1;
                }
                proof {
                    lemma_health_after_hits(
                        ready.world.with_special_action(input.live_attacks > 0),
                        SessionView::hits(*input),
                    );
                    assert(self@ == ready.played(*input));
                }
            },
            _ => {},
        }
        proof {
            use_type_invariant(&self.world);
            use_type_invariant(&self.levels);
            self.world.lemma_inv_is_wf();
            self.levels.lemma_inv_is_wf();
        }
        TickOutcome { emissions, attacks_started: attacks, switch_to }
    }
}

/// A tick keeps a session well formed: the health stays between zero and the
/// maximum, the counters in their range, and the current level among the
/// levels.
pub proof fn lemma_tick_keeps_session_wf(session: SessionView, input: TickInput)
    requires
        session.wf(),
    ensures
        session.after_inputs(input).wf(),
        session.after_tick(input).wf(),
{
    let ready = session.after_inputs(input);
    lemma_level_stays_in_range(session.levels);
    if ready.state == GameState::InGame {
        let special = ready.world.with_special_action(input.live_attacks > 0);
        lemma_health_after_hits(special, SessionView::hits(input));
        let noted = if input.level_populated {
            ready.levels.populated()
        } else {
            ready.levels
        };
        if SessionView::stairs(input) > 0 {
            lemma_only_first_request_counts(noted, SessionView::stairs(input));
            lemma_level_stays_in_range(noted);
        }
    }
}

/// On the way into the game the world starts afresh and the levels start
/// over with the first level, before anything of the tick is played; and the
/// game is entered from the menu and from the end of a game alone.
pub proof fn lemma_entering_the_game_resets(session: SessionView, input: TickInput)
    requires
        session.enters_game(input),
    ensures
        session.state.allows(GameState::InGame),
        session.after_inputs(input).state == GameState::InGame,
        session.after_inputs(input).world == WorldView::fresh(),
        session.after_inputs(input).levels == session.levels.restarted(),
        session.after_tick(input) == session.after_inputs(input).played(input),
        session.switched(input) is Some,
{
}

/// The phase changes only along the moves that the game makes, and it moves
/// to the end of the game only in a tick in which hits came and left no
/// health.
pub proof fn lemma_phase_follows_the_moves(session: SessionView, input: TickInput)
    ensures
        ({
            let ready = session.after_inputs(input);
            let after = session.after_tick(input);
            &&& ready.state == session.state || session.state.allows(ready.state)
            &&& after.state == ready.state || ready.state.allows(after.state)
            &&& after.state != ready.state ==> after.state == GameState::GameOver
                && SessionView::hits(input) > 0 && after.world.player_health == 0
            &&& after.state == GameState::Loading ==> session.state == GameState::Loading
        }),
{
}

/// A request that the phase does not allow is ignored: a confirmation in the
/// game or while loading changes nothing, and neither do assets that are
/// ready after the loading.
pub proof fn lemma_inputs_out_of_place_are_ignored(session: SessionView, input: TickInput)
    ensures
        session.state == GameState::InGame ==> session.after_inputs(input) == session,
        session.state == GameState::Loading && !input.assets_ready ==> session.after_inputs(input)
            == session,
        session.state != GameState::Loading && !input.confirm ==> session.after_inputs(input)
            == session,
{
}

/// Outside the game nothing is played: the world and the levels stay as they
/// are, no event arises and no level is asked for.
pub proof fn lemma_nothing_is_played_outside_the_game(session: SessionView, input: TickInput)
    requires
        session.after_inputs(input).state != GameState::InGame,
    ensures
        session.after_tick(input).world == session.world,
        session.after_tick(input).levels == session.levels,
        session.emitted(input) == Seq::<Emission>::empty(),
        session.started(input) == 0,
        session.switched(input) is None,
{
}

/// While an attack of the player is alive, the collisions of a tick take no
/// health.
pub proof fn lemma_no_damage_while_attacking(session: SessionView, input: TickInput)
    requires
        input.live_attacks > 0,
    ensures
        SessionView::hits(input) == 0,
        session.after_tick(input).world.player_health == session.after_inputs(
            input,
        ).world.player_health,
        session.after_tick(input).state == session.after_inputs(input).state,
{
    let ready = session.after_inputs(input);
    assert(ready.world.with_special_action(true).after_hits(0) == ready.world.with_special_action(
        true,
    ));
}

/// The time played never goes back in a tick in which the game is not
/// entered.
pub proof fn lemma_play_time_grows(session: SessionView, input: TickInput)
    requires
        session.wf(),
        !session.enters_game(input),
    ensures
        session.after_tick(input).world.play_time >= session.world.play_time,
{
    let ready = session.after_inputs(input);
    if ready.state == GameState::InGame {
        lemma_health_after_hits(
            ready.world.with_special_action(input.live_attacks > 0),
            SessionView::hits(input),
        );
    }
}

} // verus!
