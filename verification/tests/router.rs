use bevy::prelude::Entity;
use heron::CollisionLayers;
use obscure_resurrection::collision::{
    coin_picked_up_rule, enemy_attack_blocked_rule, filter_events, item_picked_up_rule,
    level_advance_requested_rule, match_event, player_attack_collision,
    player_attack_enemy_attack_collision, player_coin_collision, player_damaged_rule,
    player_item_collision, player_stairs_collision, registered_rules, route, route_collisions,
    CollisionData, CollisionEvent, Emission, Rule,
};
use obscure_resurrection::events::SemanticEvent;
use obscure_resurrection::game::GameWorldState;
use obscure_resurrection::layer_filters::Role;
use obscure_resurrection::layers::GameCollisionLayers;
use std::collections::HashSet;

fn body(id: u32, layer: GameCollisionLayers) -> CollisionData {
    CollisionData::new(Entity::from_raw(id), CollisionLayers::none().with_group(layer))
}

fn started(a: CollisionData, b: CollisionData) -> CollisionEvent {
    CollisionEvent::Started(a, b)
}

fn stopped(a: CollisionData, b: CollisionData) -> CollisionEvent {
    CollisionEvent::Stopped(a, b)
}

fn emission(event: SemanticEvent, despawn: Option<u32>) -> Emission {
    Emission { event, despawn: despawn.map(Entity::from_raw) }
}

fn remove_all(alive: &mut HashSet<Entity>, emitted: &[Emission]) {
    for emission in emitted {
        if let Some(entity) = emission.despawn {
            alive.remove(&entity);
        }
    }
}

#[test]
fn collision_events_give_their_parts() {
    let player = body(1, GameCollisionLayers::Player);
    let item = body(2, GameCollisionLayers::Item);
    let event = started(player, item);
    assert!(event.is_started());
    assert!(!event.is_stopped());
    assert_eq!(event.rigid_body_entities(), (Entity::from_raw(1), Entity::from_raw(2)));
    assert_eq!(event.collision_layers(), (player.collision_layers, item.collision_layers));
    let event = stopped(item, player);
    assert!(!event.is_started());
    assert!(event.is_stopped());
    assert_eq!(event.rigid_body_entities(), (Entity::from_raw(2), Entity::from_raw(1)));
}

#[test]
fn a_match_names_the_expected_entity_first_in_either_order() {
    let player = body(1, GameCollisionLayers::Player);
    let item = body(2, GameCollisionLayers::Item);
    let pair = Some((Entity::from_raw(2), Entity::from_raw(1)));
    assert_eq!(match_event(&started(player, item), Role::Item, Role::Player), pair);
    assert_eq!(match_event(&started(item, player), Role::Item, Role::Player), pair);
    assert_eq!(match_event(&started(item, player), Role::Coin, Role::Player), None);
    assert_eq!(match_event(&started(item, item), Role::Item, Role::Player), None);
    assert_eq!(match_event(&started(player, player), Role::Item, Role::Player), None);
}

#[test]
fn a_collision_that_ended_matches_nothing() {
    let player = body(1, GameCollisionLayers::Player);
    let item = body(2, GameCollisionLayers::Item);
    assert_eq!(match_event(&stopped(player, item), Role::Item, Role::Player), None);
    assert_eq!(match_event(&stopped(item, player), Role::Item, Role::Player), None);
    let events = vec![stopped(player, item), stopped(item, player)];
    assert!(filter_events(&events, Role::Item, Role::Player).is_empty());
    assert!(route(&events, &registered_rules(), false).is_empty());
}

#[test]
fn filter_keeps_the_order_of_the_collisions() {
    let player = body(1, GameCollisionLayers::Player);
    let events = vec![
        started(player, body(5, GameCollisionLayers::Item)),
        started(player, body(6, GameCollisionLayers::Coin)),
        stopped(player, body(7, GameCollisionLayers::Item)),
        started(body(8, GameCollisionLayers::Item), player),
        started(body(9, GameCollisionLayers::Item), body(10, GameCollisionLayers::Enemy)),
    ];
    let pairs = filter_events(&events, Role::Item, Role::Player);
    assert_eq!(
        pairs,
        vec![
            (Entity::from_raw(5), Entity::from_raw(1)),
            (Entity::from_raw(8), Entity::from_raw(1)),
        ]
    );
    assert!(filter_events(&Vec::new(), Role::Item, Role::Player).is_empty());
}

#[test]
fn the_rules_are_registered_in_order() {
    let rules = registered_rules();
    assert_eq!(
        rules,
        vec![
            player_damaged_rule(),
            item_picked_up_rule(),
            coin_picked_up_rule(),
            level_advance_requested_rule(),
            enemy_attack_blocked_rule(),
        ]
    );
    let events: Vec<SemanticEvent> = rules.iter().map(|rule| rule.event).collect();
    assert_eq!(
        events,
        vec![
            SemanticEvent::PlayerDamaged,
            SemanticEvent::ItemPickedUp,
            SemanticEvent::CoinPickedUp,
            SemanticEvent::LevelAdvanceRequested,
            SemanticEvent::EnemyAttackBlocked,
        ]
    );
    assert_eq!(
        player_damaged_rule(),
        Rule {
            expected: Role::EnemyAttack,
            collided_with: Role::Player,
            event: SemanticEvent::PlayerDamaged,
            despawns: true,
            guarded: true,
        }
    );
    assert_eq!(
        enemy_attack_blocked_rule(),
        Rule {
            expected: Role::EnemyAttack,
            collided_with: Role::PlayerAttack,
            event: SemanticEvent::EnemyAttackBlocked,
            despawns: false,
            guarded: false,
        }
    );
    let guarded: Vec<bool> = rules.iter().map(|rule| rule.guarded).collect();
    assert_eq!(guarded, vec![true, false, false, false, false]);
    let despawns: Vec<bool> = rules.iter().map(|rule| rule.despawns).collect();
    assert_eq!(despawns, vec![true, true, true, true, false]);
}

#[test]
fn an_enemy_attack_hurts_the_player_and_is_removed() {
    let mut world = GameWorldState::new();
    let events = vec![started(
        body(1, GameCollisionLayers::Player),
        body(2, GameCollisionLayers::EnemyAttack),
    )];
    let mut alive: HashSet<Entity> = [Entity::from_raw(1), Entity::from_raw(2)].into();
    let emitted = route_collisions(&events, &world);
    assert_eq!(emitted, vec![emission(SemanticEvent::PlayerDamaged, Some(2))]);
    remove_all(&mut alive, &emitted);
    assert!(!alive.contains(&Entity::from_raw(2)));
    assert!(alive.contains(&Entity::from_raw(1)));
    for emission in &emitted {
        if emission.event == SemanticEvent::PlayerDamaged {
            world.apply_damage();
        }
    }
    assert_eq!(world.player_health(), 2);
}

#[test]
fn the_special_action_guards_the_player() {
    let mut world = GameWorldState::new();
    world.set_special_action(true);
    let events = vec![started(
        body(1, GameCollisionLayers::Player),
        body(2, GameCollisionLayers::EnemyAttack),
    )];
    let mut alive: HashSet<Entity> = [Entity::from_raw(1), Entity::from_raw(2)].into();
    let emitted = route_collisions(&events, &world);
    assert!(emitted.is_empty());
    assert!(player_attack_collision(&events, &world).is_empty());
    remove_all(&mut alive, &emitted);
    assert_eq!(alive.len(), 2);
    assert_eq!(world.player_health(), 3);
}

#[test]
fn three_items_are_three_points() {
    let mut world = GameWorldState::new();
    let player = body(1, GameCollisionLayers::Player);
    let events = vec![
        started(player, body(10, GameCollisionLayers::Item)),
        started(body(11, GameCollisionLayers::Item), player),
        started(player, body(12, GameCollisionLayers::Item)),
    ];
    let mut alive: HashSet<Entity> = [1, 10, 11, 12].into_iter().map(Entity::from_raw).collect();
    let emitted = route_collisions(&events, &world);
    assert_eq!(
        emitted,
        vec![
            emission(SemanticEvent::ItemPickedUp, Some(10)),
            emission(SemanticEvent::ItemPickedUp, Some(11)),
            emission(SemanticEvent::ItemPickedUp, Some(12)),
        ]
    );
    remove_all(&mut alive, &emitted);
    assert_eq!(alive, [Entity::from_raw(1)].into());
    let before = world.inventory_points();
    for emission in &emitted {
        if emission.event == SemanticEvent::ItemPickedUp {
            world.credit_item_pickup();
        }
    }
    assert_eq!(world.inventory_points(), before + 3);
}

#[test]
fn each_rule_has_its_own_function() {
    let world = GameWorldState::new();
    let player = body(1, GameCollisionLayers::Player);
    let bork = body(2, GameCollisionLayers::PlayerAttack);
    let events = vec![
        started(player, body(10, GameCollisionLayers::Item)),
        started(player, body(11, GameCollisionLayers::Coin)),
        started(player, body(12, GameCollisionLayers::Stairs)),
        started(player, body(13, GameCollisionLayers::EnemyAttack)),
        started(bork, body(14, GameCollisionLayers::EnemyAttack)),
        started(player, body(15, GameCollisionLayers::World)),
        started(player, body(16, GameCollisionLayers::Enemy)),
    ];
    assert_eq!(
        player_attack_collision(&events, &world),
        vec![emission(SemanticEvent::PlayerDamaged, Some(13))]
    );
    assert_eq!(
        player_item_collision(&events),
        vec![emission(SemanticEvent::ItemPickedUp, Some(10))]
    );
    assert_eq!(
        player_coin_collision(&events),
        vec![emission(SemanticEvent::CoinPickedUp, Some(11))]
    );
    assert_eq!(
        player_stairs_collision(&events),
        vec![emission(SemanticEvent::LevelAdvanceRequested, Some(12))]
    );
    assert_eq!(
        player_attack_enemy_attack_collision(&events),
        vec![emission(SemanticEvent::EnemyAttackBlocked, None)]
    );
}

#[test]
fn emissions_come_rule_by_rule_in_registration_order() {
    let world = GameWorldState::new();
    let player = body(1, GameCollisionLayers::Player);
    let bork = body(2, GameCollisionLayers::PlayerAttack);
    let events = vec![
        started(bork, body(14, GameCollisionLayers::EnemyAttack)),
        started(player, body(12, GameCollisionLayers::Stairs)),
        started(player, body(11, GameCollisionLayers::Coin)),
        started(player, body(10, GameCollisionLayers::Item)),
        started(player, body(13, GameCollisionLayers::EnemyAttack)),
        started(player, body(20, GameCollisionLayers::Coin)),
    ];
    let emitted = route_collisions(&events, &world);
    assert_eq!(
        emitted,
        vec![
            emission(SemanticEvent::PlayerDamaged, Some(13)),
            emission(SemanticEvent::ItemPickedUp, Some(10)),
            emission(SemanticEvent::CoinPickedUp, Some(11)),
            emission(SemanticEvent::CoinPickedUp, Some(20)),
            emission(SemanticEvent::LevelAdvanceRequested, Some(12)),
            emission(SemanticEvent::EnemyAttackBlocked, None),
        ]
    );
}

#[test]
fn the_guard_stops_damage_and_nothing_else() {
    let mut world = GameWorldState::new();
    world.set_special_action(true);
    let player = body(1, GameCollisionLayers::Player);
    let events = vec![
        started(player, body(13, GameCollisionLayers::EnemyAttack)),
        started(player, body(10, GameCollisionLayers::Item)),
        started(body(2, GameCollisionLayers::PlayerAttack), body(13, GameCollisionLayers::EnemyAttack)),
    ];
    assert_eq!(
        route_collisions(&events, &world),
        vec![
            emission(SemanticEvent::ItemPickedUp, Some(10)),
            emission(SemanticEvent::EnemyAttackBlocked, None),
        ]
    );
}

#[test]
fn one_collision_can_serve_several_rules() {
    let both = CollisionData::new(
        Entity::from_raw(7),
        CollisionLayers::none()
            .with_group(GameCollisionLayers::Item)
            .with_group(GameCollisionLayers::Coin),
    );
    let events = vec![started(both, body(1, GameCollisionLayers::Player))];
    assert_eq!(
        route(&events, &registered_rules(), false),
        vec![
            emission(SemanticEvent::ItemPickedUp, Some(7)),
            emission(SemanticEvent::CoinPickedUp, Some(7)),
        ]
    );
}

#[test]
fn a_repeated_collision_is_counted_again_and_removal_is_harmless() {
    let player = body(1, GameCollisionLayers::Player);
    let coin = body(9, GameCollisionLayers::Coin);
    let events = vec![started(player, coin), started(coin, player)];
    let emitted = player_coin_collision(&events);
    assert_eq!(emitted.len(), 2);
    let mut alive: HashSet<Entity> = [Entity::from_raw(1), Entity::from_raw(9)].into();
    remove_all(&mut alive, &emitted);
    assert_eq!(alive, [Entity::from_raw(1)].into());
}

#[test]
fn a_rule_applies_to_any_table() {
    let events = vec![
        started(body(1, GameCollisionLayers::Player), body(2, GameCollisionLayers::Coin)),
        started(body(1, GameCollisionLayers::Player), body(3, GameCollisionLayers::Item)),
    ];
    let rules = vec![coin_picked_up_rule(), coin_picked_up_rule()];
    assert_eq!(
        route(&events, &rules, true),
        vec![
            emission(SemanticEvent::CoinPickedUp, Some(2)),
            emission(SemanticEvent::CoinPickedUp, Some(2)),
        ]
    );
    assert!(route(&events, &Vec::new(), false).is_empty());
    assert_eq!(
        item_picked_up_rule().apply(&events, true),
        vec![emission(SemanticEvent::ItemPickedUp, Some(3))]
    );
    assert!(player_damaged_rule().apply(&events, false).is_empty());
}

#[test]
fn composite_layers_are_not_misread() {
    let enemy_child = CollisionData::new(
        Entity::from_raw(4),
        CollisionLayers::none()
            .with_group(GameCollisionLayers::Player)
            .with_group(GameCollisionLayers::Enemy),
    );
    let attack = body(5, GameCollisionLayers::EnemyAttack);
    let world = GameWorldState::new();
    assert!(route_collisions(&vec![started(enemy_child, attack)], &world).is_empty());
}
