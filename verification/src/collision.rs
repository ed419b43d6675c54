//! From the collisions of one tick to the events of the game.
//!
//! The physics engine reports each pair of bodies that began or ceased to
//! touch. A rule of the game names two roles; where the two bodies of a
//! collision that began play them, in either order, the rule raises its event
//! and may ask for the body in the first role to be removed.

use crate::events::SemanticEvent;
use crate::game::GameWorldState;
use crate::layer_filters::{exclusive, matches_role, plays, Role};
use crate::layers::layer_groups;
use bevy::ecs::entity::Entity;
use heron::CollisionLayers;
use vstd::prelude::*;

verus! {

/// `bevy::ecs::entity::Entity`, made known to the verifier as an opaque type.
/// The library only hands entities through; it never looks inside one.
#[verifier::external_type_specification]
#[verifier::external_body]
pub struct ExEntity(Entity);

/// One of the two bodies of a collision: the entity and the layers it is on.
#[derive(Clone, Copy, Debug, PartialEq, Eq)]
pub struct CollisionData {
    pub rigid_body_entity: Entity,
    pub collision_layers: CollisionLayers,
}

/// Two bodies began or ceased to touch.
#[derive(Clone, Copy, Debug, PartialEq, Eq)]
pub enum CollisionEvent {
    /// The two bodies began to touch.
    Started(CollisionData, CollisionData),
    /// The two bodies touch no longer.
    Stopped(CollisionData, CollisionData),
}

impl CollisionData {
    /// The body `rigid_body_entity`, on the layers `collision_layers`.
    pub fn new(
        rigid_body_entity: Entity,
        collision_layers: CollisionLayers,
    ) -> (data: CollisionData)
        ensures
            data.rigid_body_entity == rigid_body_entity,
            data.collision_layers == collision_layers,
    {
        CollisionData { rigid_body_entity, collision_layers }
    }

    /// Whether the body plays `role`.
    pub open spec fn plays(self, role: Role) -> bool {
        plays(layer_groups(self.collision_layers), role)
    }
}

impl CollisionEvent {
    /// Whether the bodies began to touch.
    pub open spec fn started(self) -> bool {
        self is Started
    }

    /// The body that the engine names first.
    pub open spec fn first(self) -> CollisionData {
        match self {
            CollisionEvent::Started(first, _) => first,
            CollisionEvent::Stopped(first, _) => first,
        }
    }

    /// The body that the engine names second.
    pub open spec fn second(self) -> CollisionData {
        match self {
            CollisionEvent::Started(_, second) => second,
            CollisionEvent::Stopped(_, second) => second,
        }
    }

    /// The same collision with its bodies named in the other order.
    pub open spec fn swapped(self) -> CollisionEvent {
        match self {
            CollisionEvent::Started(first, second) => CollisionEvent::Started(second, first),
            CollisionEvent::Stopped(first, second) => CollisionEvent::Stopped(second, first),
        }
    }

    /// Whether the bodies began to touch.
    pub fn is_started(&self) -> (started: bool)
        ensures
            started == self.started(),
    {
        match self {
            CollisionEvent::Started(_, _) => true,
            CollisionEvent::Stopped(_, _) => false,
        }
    }

    /// Whether the bodies touch no longer.
    pub fn is_stopped(&self) -> (stopped: bool)
        ensures
            stopped == !self.started(),
    {
        match self {
            CollisionEvent::Started(_, _) => false,
            CollisionEvent::Stopped(_, _) => true,
        }
    }

    /// The two entities, in the order in which the engine names them.
    pub fn rigid_body_entities(&self) -> (entities: (Entity, Entity))
        ensures
            entities == (self.first().rigid_body_entity, self.second().rigid_body_entity),
    {
        match self {
            CollisionEvent::Started(first, second) => (
                first.rigid_body_entity,
                second.rigid_body_entity,
            ),
            CollisionEvent::Stopped(first, second) => (
                first.rigid_body_entity,
                second.rigid_body_entity,
            ),
        }
    }

    /// The layers of the two bodies, in the order in which the engine names
    /// them.
    pub fn collision_layers(&self) -> (layers: (CollisionLayers, CollisionLayers))
        ensures
            layers == (self.first().collision_layers, self.second().collision_layers),
    {
        match self {
            CollisionEvent::Started(first, second) => (
                first.collision_layers,
                second.collision_layers,
            ),
            CollisionEvent::Stopped(first, second) => (
                first.collision_layers,
                second.collision_layers,
            ),
        }
    }
}

/// The pair that a collision gives for the roles `expected` and
/// `collided_with`: the entity that plays `expected`, then the one that plays
/// `collided_with`, whichever of them the engine named first. A collision
/// that ended gives none, and so does one whose bodies do not play the two
/// roles.
pub open spec fn matched(
    event: CollisionEvent,
    expected: Role,
    collided_with: Role,
) -> Option<(Entity, Entity)> {
    if !event.started() {
        None
    } else if event.first().plays(expected) && event.second().plays(collided_with) {
        Some((event.first().rigid_body_entity, event.second().rigid_body_entity))
    } else if event.first().plays(collided_with) && event.second().plays(expected) {
        Some((event.second().rigid_body_entity, event.first().rigid_body_entity))
    } else {
        None
    }
}

/// The pairs that the collisions give for two roles, in the order of the
/// collisions.
pub open spec fn filtered(
    events: Seq<CollisionEvent>,
    expected: Role,
    collided_with: Role,
) -> Seq<(Entity, Entity)>
    decreases events.len(),
{
    if events.len() == 0 {
        Seq::empty()
    } else {
        let before = filtered(events.drop_last(), expected, collided_with);
        match matched(events.last(), expected, collided_with) {
            Some(pair) => before.push(pair),
            None => before,
        }
    }
}

/// The pair that a collision gives for two roles, if it gives one.
pub fn match_event(
    event: &CollisionEvent,
    expected: Role,
    collided_with: Role,
) -> (pair: Option<(Entity, Entity)>)
    ensures
        pair == matched(*event, expected, collided_with),
{
    if !event.is_started() {
        return None;
    }
    let (entity_1, entity_2) = event.rigid_body_entities();
    let (layers_1, layers_2) = event.collision_layers();
    if matches_role(layers_1, expected) && matches_role(layers_2, collided_with) {
        Some((entity_1, entity_2))
    } else if matches_role(layers_1, collided_with) && matches_role(layers_2, expected) {
        Some((entity_2, entity_1))
    } else {
        None
    }
}

/// Picks from the collisions of a tick those that began between a body that
/// plays `expected` and one that plays `collided_with`, and gives for each the
/// two entities in that order.
pub fn filter_events(
    events: &Vec<CollisionEvent>,
    expected: Role,
    collided_with: Role,
) -> (pairs: Vec<(Entity, Entity)>)
    ensures
        pairs@ == filtered(events@, expected, collided_with),
{
    let mut pairs: Vec<(Entity, Entity)> = Vec::new();
    let mut i: usize = 0;
    while i < events.len()
        invariant
            i <= events.len(),
            pairs@ == filtered(events@.take(i as int), expected, collided_with),
        decreases events.len() - i,
    {
        proof {
            assert(events@.take(i + 1).drop_last() == events@.take(i as int));
        }
        match match_event(&events[i], expected, collided_with) {
            Some(pair) => {
                pairs.push(pair);
            },
            None => {},
        }
        i = i + 1;
    }
    proof {
        assert(events@.take(events.len() as int) == events@);
    }
    pairs
}

/// A rule of the game: the two roles it looks for, the event it raises, and
/// what else it asks for.
#[derive(Clone, Copy, Debug, PartialEq, Eq, Structural)]
pub struct Rule {
    /// The role of the body that the rule is about.
    pub expected: Role,
    /// The role of the body that it met.
    pub collided_with: Role,
    /// The event that the rule raises for each collision it applies to.
    pub event: SemanticEvent,
    /// Whether the body in the role `expected` is to be removed.
    pub despawns: bool,
    /// Whether the rule rests while the player performs the special action.
    pub guarded: bool,
}

/// What a rule gives for one collision: the event, and the entity to remove,
/// if the rule asks for that.
#[derive(Clone, Copy, Debug, PartialEq, Eq)]
pub struct Emission {
    pub event: SemanticEvent,
    pub despawn: Option<Entity>,
}

impl Rule {
    /// An enemy's attack that hits the player hurts them and is used up. The
    /// rule rests while the player performs the special action.
    pub open spec fn player_damaged() -> Rule {
        Rule {
            expected: Role::EnemyAttack,
            collided_with: Role::Player,
            event: SemanticEvent::PlayerDamaged,
            despawns: true,
            guarded: true,
        }
    }

    /// An item that the player touches is picked up.
    pub open spec fn item_picked_up() -> Rule {
        Rule {
            expected: Role::Item,
            collided_with: Role::Player,
            event: SemanticEvent::ItemPickedUp,
            despawns: true,
            guarded: false,
        }
    }

    /// A coin that the player touches is picked up.
    pub open spec fn coin_picked_up() -> Rule {
        Rule {
            expected: Role::Coin,
            collided_with: Role::Player,
            event: SemanticEvent::CoinPickedUp,
            despawns: true,
            guarded: false,
        }
    }

    /// The stairs that the player touches lead to the next level.
    pub open spec fn level_advance_requested() -> Rule {
        Rule {
            expected: Role::Stairs,
            collided_with: Role::Player,
            event: SemanticEvent::LevelAdvanceRequested,
            despawns: true,
            guarded: false,
        }
    }

    /// An enemy's attack that meets the player's attack is blocked. Nothing
    /// is removed.
    pub open spec fn enemy_attack_blocked() -> Rule {
        Rule {
            expected: Role::EnemyAttack,
            collided_with: Role::PlayerAttack,
            event: SemanticEvent::EnemyAttackBlocked,
            despawns: false,
            guarded: false,
        }
    }

    /// The rules of the game, in the order in which they are applied.
    pub open spec fn registered() -> Seq<Rule> {
        seq![
            Rule::player_damaged(),
            Rule::item_picked_up(),
            Rule::coin_picked_up(),
            Rule::level_advance_requested(),
            Rule::enemy_attack_blocked(),
        ]
    }

    /// What the rule gives for a pair of entities that it applies to.
    pub open spec fn emission(self, pair: (Entity, Entity)) -> Emission {
        Emission {
            event: self.event,
            despawn: if self.despawns {
                Some(pair.0)
            } else {
                None
            },
        }
    }

    /// What the rule gives for the collisions of a tick: nothing where it is
    /// guarded and the special action is on, else one emission for each
    /// collision it applies to, in the order of the collisions.
    pub open spec fn emissions(
        self,
        events: Seq<CollisionEvent>,
        special_action: bool,
    ) -> Seq<Emission> {
        if self.guarded && special_action {
            Seq::empty()
        } else {
            filtered(events, self.expected, self.collided_with).map_values(
                |pair: (Entity, Entity)| self.emission(pair),
            )
        }
    }

    /// Applies the rule to the collisions of a tick.
    pub fn apply(
        &self,
        events: &Vec<CollisionEvent>,
        special_action: bool,
    ) -> (emitted: Vec<Emission>)
        ensures
            emitted@ == self.emissions(events@, special_action),
    {
        let mut emitted: Vec<Emission> = Vec::new();
        if self.guarded && special_action {
            return emitted;
        }
        let pairs = filter_events(events, self.expected, self.collided_with);
        let mut i: usize = 0;
        while i < pairs.len()
            invariant
                i <= pairs.len(),
                emitted@ == pairs@.take(i as int).map_values(
                    |pair: (Entity, Entity)| self.emission(pair),
                ),
            decreases pairs.len() - i,
        {
            let pair = pairs[i];
            let despawn = if self.despawns {
                Some(pair.0)
            } else {
                None
            };
            emitted.push(Emission { event: self.event, despawn });
            i = i + 1;
            proof {
                assert(emitted@ == pairs@.take(i as int).map_values(
                    |pair: (Entity, Entity)| self.emission(pair),
                ));
            }
        }
        proof {
            assert(pairs@.take(pairs.len() as int) == pairs@);
        }
        emitted
    }
}

/// What the rules `rules` give for the collisions of a tick: what the first
/// rule gives, then what the second gives, and so on. Each rule looks at
/// every collision, whatever the other rules made of it.
pub open spec fn routed(
    events: Seq<CollisionEvent>,
    rules: Seq<Rule>,
    special_action: bool,
) -> Seq<Emission>
    decreases rules.len(),
{
    if rules.len() == 0 {
        Seq::empty()
    } else {
        routed(events, rules.drop_last(), special_action) + rules.last().emissions(
            events,
            special_action,
        )
    }
}

/// The rule for an enemy's attack that hits the player.
pub fn player_damaged_rule() -> (rule: Rule)
    ensures
        rule == Rule::player_damaged(),
{
    Rule {
        expected: Role::EnemyAttack,
        collided_with: Role::Player,
        event: SemanticEvent::PlayerDamaged,
        despawns: true,
        guarded: true,
    }
}

/// The rule for an item that the player touches.
pub fn item_picked_up_rule() -> (rule: Rule)
    ensures
        rule == Rule::item_picked_up(),
{
    Rule {
        expected: Role::Item,
        collided_with: Role::Player,
        event: SemanticEvent::ItemPickedUp,
        despawns: true,
        guarded: false,
    }
}

/// The rule for a coin that the player touches.
pub fn coin_picked_up_rule() -> (rule: Rule)
    ensures
        rule == Rule::coin_picked_up(),
{
    Rule {
        expected: Role::Coin,
        collided_with: Role::Player,
        event: SemanticEvent::CoinPickedUp,
        despawns: true,
        guarded: false,
    }
}

/// The rule for the stairs that the player touches.
pub fn level_advance_requested_rule() -> (rule: Rule)
    ensures
        rule == Rule::level_advance_requested(),
{
    Rule {
        expected: Role::Stairs,
        collided_with: Role::Player,
        event: SemanticEvent::LevelAdvanceRequested,
        despawns: true,
        guarded: false,
    }
}

/// The rule for an enemy's attack that meets the player's attack.
pub fn enemy_attack_blocked_rule() -> (rule: Rule)
    ensures
        rule == Rule::enemy_attack_blocked(),
{
    Rule {
        expected: Role::EnemyAttack,
        collided_with: Role::PlayerAttack,
        event: SemanticEvent::EnemyAttackBlocked,
        despawns: false,
        guarded: false,
    }
}

/// The rules of the game, in the order in which they are applied.
pub fn registered_rules() -> (rules: Vec<Rule>)
    ensures
        rules@ == Rule::registered(),
{
    let mut rules: Vec<Rule> = Vec::new();
    rules.push(player_damaged_rule());
    rules.push(item_picked_up_rule());
    rules.push(coin_picked_up_rule());
    rules.push(level_advance_requested_rule());
    rules.push(enemy_attack_blocked_rule());
    rules
}

/// Applies each of `rules` in turn to the collisions of a tick.
pub fn route(
    events: &Vec<CollisionEvent>,
    rules: &Vec<Rule>,
    special_action: bool,
) -> (emitted: Vec<Emission>)
    ensures
        emitted@ == routed(events@, rules@, special_action),
{
    let mut emitted: Vec<Emission> = Vec::new();
    let mut i: usize = 0;
    while i < rules.len()
        invariant
            i <= rules.len(),
            emitted@ == routed(events@, rules@.take(i as int), special_action),
        decreases rules.len() - i,
    {
        proof {
            assert(rules@.take(i + 1).drop_last() == rules@.take(i as int));
        }
        let mut more = rules[i].apply(events, special_action);
        emitted.append(&mut more);
        i = i + 1;
    }
    proof {
        assert(rules@.take(rules.len() as int) == rules@);
    }
    emitted
}

/// Applies the rules of the game to the collisions of a tick.
pub fn route_collisions(
    events: &Vec<CollisionEvent>,
    game_world_state: &GameWorldState,
) -> (emitted: Vec<Emission>)
    ensures
        emitted@ == routed(
            events@,
            Rule::registered(),
            game_world_state@.is_player_performing_special_action,
        ),
{
    let rules = registered_rules();
    route(events, &rules, game_world_state.is_player_performing_special_action())
}

/// An enemy's attack that hits the player: one hit for each, and the attack
/// is removed. Nothing happens while the player performs the special action.
pub fn player_attack_collision(
    events: &Vec<CollisionEvent>,
    game_world_state: &GameWorldState,
) -> (emitted: Vec<Emission>)
    ensures
        emitted@ == Rule::player_damaged().emissions(
            events@,
            game_world_state@.is_player_performing_special_action,
        ),
{
    player_damaged_rule().apply(events, game_world_state.is_player_performing_special_action())
}

/// An item that the player touches: it is picked up and removed.
pub fn player_item_collision(events: &Vec<CollisionEvent>) -> (emitted: Vec<Emission>)
    ensures
        emitted@ == Rule::item_picked_up().emissions(events@, false),
{
    item_picked_up_rule().apply(events, false)
}

/// A coin that the player touches: it is picked up and removed.
pub fn player_coin_collision(events: &Vec<CollisionEvent>) -> (emitted: Vec<Emission>)
    ensures
        emitted@ == Rule::coin_picked_up().emissions(events@, false),
{
    coin_picked_up_rule().apply(events, false)
}

/// The stairs that the player touches: the next level is asked for and the
/// stairs are removed.
pub fn player_stairs_collision(events: &Vec<CollisionEvent>) -> (emitted: Vec<Emission>)
    ensures
        emitted@ == Rule::level_advance_requested().emissions(events@, false),
{
    level_advance_requested_rule().apply(events, false)
}

/// An enemy's attack that meets the player's attack: it is blocked, and
/// nothing is removed.
pub fn player_attack_enemy_attack_collision(
    events: &Vec<CollisionEvent>,
) -> (emitted: Vec<Emission>)
    ensures
        emitted@ == Rule::enemy_attack_blocked().emissions(events@, false),
{
    enemy_attack_blocked_rule().apply(events, false)
}

/// The collisions of a tick may come in batches: what two batches give, one
/// after the other, is what they give as one.
pub proof fn lemma_filtered_in_batches(
    earlier: Seq<CollisionEvent>,
    later: Seq<CollisionEvent>,
    expected: Role,
    collided_with: Role,
)
    ensures
        filtered(earlier + later, expected, collided_with) == filtered(
            earlier,
            expected,
            collided_with,
        ) + filtered(later, expected, collided_with),
    decreases later.len(),
{
    if later.len() == 0 {
        assert(earlier + later == earlier);
    } else {
        lemma_filtered_in_batches(earlier, later.drop_last(), expected, collided_with);
        assert((earlier + later).drop_last() == earlier + later.drop_last());
        assert((earlier + later).last() == later.last());
    }
}

/// A collision gives a rule at most one pair, so the collisions of a tick
/// give it at most as many pairs as there are collisions, and one collision
/// more gives at most one pair more.
pub proof fn lemma_at_most_one_pair_per_collision(
    events: Seq<CollisionEvent>,
    event: CollisionEvent,
    expected: Role,
    collided_with: Role,
)
    ensures
        filtered(events, expected, collided_with).len() <= events.len(),
        filtered(events.push(event), expected, collided_with) == match matched(
            event,
            expected,
            collided_with,
        ) {
            Some(pair) => filtered(events, expected, collided_with).push(pair),
            None => filtered(events, expected, collided_with),
        },
    decreases events.len(),
{
    if events.len() > 0 {
        lemma_at_most_one_pair_per_collision(
            events.drop_last(),
            events.last(),
            expected,
            collided_with,
        );
    }
    assert(events.push(event).drop_last() == events);
}

/// Every pair that the collisions give comes from one of them, and the pairs
/// come in the order of the collisions they come from.
pub proof fn lemma_pairs_come_from_collisions(
    events: Seq<CollisionEvent>,
    expected: Role,
    collided_with: Role,
    i: int,
) -> (j: int)
    requires
        0 <= i < filtered(events, expected, collided_with).len(),
    ensures
        0 <= j < events.len(),
        matched(events[j], expected, collided_with) == Some(
            filtered(events, expected, collided_with)[i],
        ),
        filtered(events.take(j), expected, collided_with).len() == i,
    decreases events.len(),
{
    let before = filtered(events.drop_last(), expected, collided_with);
    if i < before.len() {
        let j = lemma_pairs_come_from_collisions(events.drop_last(), expected, collided_with, i);
        assert(events.drop_last().take(j) == events.take(j));
        j
    } else {
        assert(events.take(events.len() - 1) == events.drop_last());
        events.len() - 1
    }
}

/// A collision that ended gives no pair: the collisions of a tick give what
/// those of them that began give.
pub proof fn lemma_stopped_is_ignored(
    events: Seq<CollisionEvent>,
    expected: Role,
    collided_with: Role,
)
    ensures
        filtered(events, expected, collided_with) == filtered(
            events.filter(|event: CollisionEvent| event.started()),
            expected,
            collided_with,
        ),
    decreases events.len(),
{
    let began = |event: CollisionEvent| event.started();
    reveal(Seq::filter);
    if events.len() > 0 {
        lemma_stopped_is_ignored(events.drop_last(), expected, collided_with);
        if events.last().started() {
            assert(events.filter(began) == events.drop_last().filter(began).push(events.last()));
            lemma_at_most_one_pair_per_collision(
                events.drop_last().filter(began),
                events.last(),
                expected,
                collided_with,
            );
        } else {
            assert(events.filter(began) == events.drop_last().filter(began));
        }
    }
}

/// Where the two roles of a rule exclude each other, the order in which the
/// engine names the two bodies does not matter: either order gives the same
/// pair, the body in the first role first.
pub proof fn lemma_order_of_bodies_is_irrelevant(
    event: CollisionEvent,
    expected: Role,
    collided_with: Role,
)
    requires
        exclusive(expected, collided_with),
    ensures
        matched(event.swapped(), expected, collided_with) == matched(
            event,
            expected,
            collided_with,
        ),
        matched(event, expected, collided_with) matches Some(pair) ==> {
            ||| (pair.0 == event.first().rigid_body_entity && event.first().plays(expected)
                && pair.1 == event.second().rigid_body_entity && event.second().plays(
                collided_with,
            ))
            ||| (pair.0 == event.second().rigid_body_entity && event.second().plays(expected)
                && pair.1 == event.first().rigid_body_entity && event.first().plays(
                collided_with,
            ))
        },
{
}

/// The two roles of each rule of the game exclude each other.
pub proof fn lemma_registered_rules_are_exclusive(i: int)
    requires
        0 <= i < Rule::registered().len(),
    ensures
        exclusive(Rule::registered()[i].expected, Rule::registered()[i].collided_with),
{
}

/// Each emission of a rule carries the event of the rule and, where the rule
/// removes, the entity in the rule's first role; there is one emission for
/// each pair.
pub proof fn lemma_emissions_of_a_rule(
    rule: Rule,
    events: Seq<CollisionEvent>,
    special_action: bool,
    i: int,
)
    requires
        0 <= i < rule.emissions(events, special_action).len(),
    ensures
        !(rule.guarded && special_action),
        rule.emissions(events, special_action).len() == filtered(
            events,
            rule.expected,
            rule.collided_with,
        ).len(),
        rule.emissions(events, special_action).len() <= events.len(),
        rule.emissions(events, special_action)[i].event == rule.event,
        rule.emissions(events, special_action)[i].despawn == if rule.despawns {
            Some(filtered(events, rule.expected, rule.collided_with)[i].0)
        } else {
            None
        },
{
    if events.len() > 0 {
        lemma_at_most_one_pair_per_collision(events.drop_last(), events.last(), rule.expected,
            rule.collided_with);
        assert(events.drop_last().push(events.last()) == events);
    }
}

/// While the player performs the special action, the rule for damage gives
/// nothing, whatever collides. The other rules give what they give without
/// it.
pub proof fn lemma_special_action_guards_damage(events: Seq<CollisionEvent>, rule: Rule)
    ensures
        Rule::player_damaged().emissions(events, true) == Seq::<Emission>::empty(),
        !rule.guarded ==> rule.emissions(events, true) == rule.emissions(events, false),
{
}

/// What the rules of the game give for the collisions of a tick: the damage
/// first, then the items, the coins, the stairs, and the blocked attacks.
pub proof fn lemma_routed_in_registration_order(events: Seq<CollisionEvent>, special_action: bool)
    ensures
        routed(events, Rule::registered(), special_action) == Rule::player_damaged().emissions(
            events,
            special_action,
        ) + Rule::item_picked_up().emissions(events, special_action)
            + Rule::coin_picked_up().emissions(events, special_action)
            + Rule::level_advance_requested().emissions(events, special_action)
            + Rule::enemy_attack_blocked().emissions(events, special_action),
{
    let rules = Rule::registered();
    let r4 = rules.drop_last();
    let r3 = r4.drop_last();
    let r2 = r3.drop_last();
    let r1 = r2.drop_last();
    let r0 = r1.drop_last();
    assert(r0.len() == 0);
    assert(routed(events, r0, special_action) == Seq::<Emission>::empty());
    assert(routed(events, r1, special_action) == Seq::<Emission>::empty()
        + Rule::player_damaged().emissions(events, special_action));
    assert(routed(events, r2, special_action) == routed(events, r1, special_action)
        + Rule::item_picked_up().emissions(events, special_action));
    assert(routed(events, r3, special_action) == routed(events, r2, special_action)
        + Rule::coin_picked_up().emissions(events, special_action));
    assert(routed(events, r4, special_action) == routed(events, r3, special_action)
        + Rule::level_advance_requested().emissions(events, special_action));
    assert(routed(events, rules, special_action) == routed(events, r4, special_action)
        + Rule::enemy_attack_blocked().emissions(events, special_action));
}

/// While the player performs the special action, no event of damage comes
/// out of the rules of the game.
pub proof fn lemma_no_damage_during_special_action(events: Seq<CollisionEvent>, i: int)
    requires
        0 <= i < routed(events, Rule::registered(), true).len(),
    ensures
        routed(events, Rule::registered(), true)[i].event != SemanticEvent::PlayerDamaged,
{
    lemma_routed_in_registration_order(events, true);
    let items = Rule::item_picked_up().emissions(events, true);
    let coins = Rule::coin_picked_up().emissions(events, true);
    let stairs = Rule::level_advance_requested().emissions(events, true);
    let blocked = Rule::enemy_attack_blocked().emissions(events, true);
    assert(Rule::player_damaged().emissions(events, true) + items == items);
    if i < items.len() {
        lemma_emissions_of_a_rule(Rule::item_picked_up(), events, true, i);
    } else if i < items.len() + coins.len() {
        lemma_emissions_of_a_rule(Rule::coin_picked_up(), events, true, i - items.len());
    } else if i < items.len() + coins.len() + stairs.len() {
        lemma_emissions_of_a_rule(
            Rule::level_advance_requested(),
            events,
            true,
            i - items.len() - coins.len(),
        );
    } else {
        lemma_emissions_of_a_rule(
            Rule::enemy_attack_blocked(),
            events,
            true,
            i - items.len() - coins.len() - stairs.len(),
        );
    }
}

} // verus!
