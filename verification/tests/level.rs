use heron::CollisionLayers;
use obscure_resurrection::layer_filters::{matches_role, Role};
use obscure_resurrection::layers::GameCollisionLayers;
use obscure_resurrection::level::{
    get_int_from_ldtk, wall_reach, EntityKind, FieldInstance, FieldValue, WallExtents,
};

const ALL_ROLES: [Role; 6] = [
    Role::Player,
    Role::EnemyAttack,
    Role::Item,
    Role::Coin,
    Role::Stairs,
    Role::PlayerAttack,
];

fn field(identifier: &str, value: FieldValue) -> FieldInstance {
    FieldInstance { identifier: identifier.to_string(), value }
}

#[test]
fn identifiers_name_the_kinds_of_a_level() {
    assert_eq!(EntityKind::from_identifier("Player"), Some(EntityKind::Player));
    assert_eq!(EntityKind::from_identifier("Enemy"), Some(EntityKind::Enemy));
    assert_eq!(EntityKind::from_identifier("Potion"), Some(EntityKind::Potion));
    assert_eq!(EntityKind::from_identifier("Coin"), Some(EntityKind::Coin));
    assert_eq!(EntityKind::from_identifier("Stairs"), Some(EntityKind::Stairs));
    assert_eq!(EntityKind::from_identifier("Wall"), Some(EntityKind::Wall));
    assert_eq!(EntityKind::from_identifier("player"), None);
    assert_eq!(EntityKind::from_identifier("Bork"), None);
    assert_eq!(EntityKind::from_identifier(""), None);
}

#[test]
fn each_kind_has_its_group_and_masks() {
    assert_eq!(
        EntityKind::Player.collision_layers(),
        CollisionLayers::none().with_group(GameCollisionLayers::Player).with_masks(&[
            GameCollisionLayers::World,
            GameCollisionLayers::Enemy,
            GameCollisionLayers::EnemyAttack,
            GameCollisionLayers::Item,
            GameCollisionLayers::Coin,
            GameCollisionLayers::Stairs,
        ])
    );
    assert_eq!(
        EntityKind::Enemy.collision_layers(),
        CollisionLayers::none().with_group(GameCollisionLayers::Enemy).with_masks(&[
            GameCollisionLayers::World,
            GameCollisionLayers::Player,
            GameCollisionLayers::PlayerAttack,
        ])
    );
    assert_eq!(
        EntityKind::Potion.collision_layers(),
        CollisionLayers::none()
            .with_group(GameCollisionLayers::Item)
            .with_mask(GameCollisionLayers::Player)
    );
    assert_eq!(
        EntityKind::Coin.collision_layers(),
        CollisionLayers::none()
            .with_group(GameCollisionLayers::Coin)
            .with_mask(GameCollisionLayers::Player)
    );
    assert_eq!(
        EntityKind::Stairs.collision_layers(),
        CollisionLayers::none()
            .with_group(GameCollisionLayers::Stairs)
            .with_mask(GameCollisionLayers::Player)
    );
    assert_eq!(
        EntityKind::Wall.collision_layers(),
        CollisionLayers::none().with_group(GameCollisionLayers::World).with_masks(&[
            GameCollisionLayers::Player,
            GameCollisionLayers::PlayerAttack,
            GameCollisionLayers::Enemy,
            GameCollisionLayers::EnemyAttack,
        ])
    );
    assert_eq!(
        EntityKind::EnemyProjectile.collision_layers(),
        CollisionLayers::none().with_group(GameCollisionLayers::EnemyAttack).with_masks(&[
            GameCollisionLayers::World,
            GameCollisionLayers::Player,
            GameCollisionLayers::PlayerAttack,
        ])
    );
    assert_eq!(
        EntityKind::Bork.collision_layers(),
        CollisionLayers::none()
            .with_group(GameCollisionLayers::PlayerAttack)
            .with_masks(&[GameCollisionLayers::Enemy, GameCollisionLayers::EnemyAttack])
    );
    assert_eq!(EntityKind::Bork.collision_layers().groups_bits(), 4);
    assert_eq!(EntityKind::Bork.collision_layers().masks_bits(), 8 + 16);
}

#[test]
fn each_kind_plays_its_role() {
    let kinds = [
        (EntityKind::Player, Some(Role::Player)),
        (EntityKind::Enemy, None),
        (EntityKind::Potion, Some(Role::Item)),
        (EntityKind::Coin, Some(Role::Coin)),
        (EntityKind::Stairs, Some(Role::Stairs)),
        (EntityKind::Wall, None),
        (EntityKind::EnemyProjectile, Some(Role::EnemyAttack)),
        (EntityKind::Bork, Some(Role::PlayerAttack)),
    ];
    for (kind, own) in kinds {
        for role in ALL_ROLES {
            assert_eq!(matches_role(kind.collision_layers(), role), own == Some(role));
        }
    }
}

#[test]
fn the_kinds_of_the_rules_interact() {
    let player = EntityKind::Player.collision_layers();
    assert!(player.interacts_with(EntityKind::Potion.collision_layers()));
    assert!(player.interacts_with(EntityKind::Coin.collision_layers()));
    assert!(player.interacts_with(EntityKind::Stairs.collision_layers()));
    assert!(player.interacts_with(EntityKind::EnemyProjectile.collision_layers()));
    assert!(player.interacts_with(EntityKind::Wall.collision_layers()));
    let bork = EntityKind::Bork.collision_layers();
    assert!(bork.interacts_with(EntityKind::EnemyProjectile.collision_layers()));
    assert!(!bork.interacts_with(player));
    assert!(!EntityKind::Enemy
        .collision_layers()
        .interacts_with(EntityKind::Potion.collision_layers()));
}

#[test]
fn a_wall_reaches_half_a_cell_and_eight_for_each_further_cell() {
    assert_eq!(wall_reach(1), 4);
    assert_eq!(wall_reach(2), 12);
    assert_eq!(wall_reach(3), 20);
    assert_eq!(wall_reach(0), -4);
    assert_eq!(wall_reach(i32::MAX), 4 + 8 * (i32::MAX as i64 - 1));
    assert_eq!(wall_reach(i32::MIN), 4 + 8 * (i32::MIN as i64 - 1));
}

#[test]
fn wall_extents_and_corners() {
    let extents = WallExtents::new(1, 2, 3, 4);
    assert_eq!(extents, WallExtents { left: -4, right: 12, top: 20, bottom: -28 });
    assert_eq!(extents.points(), vec![(-4, 20), (12, 20), (12, -28), (-4, -28)]);
    let single = WallExtents::new(1, 1, 1, 1);
    assert_eq!(single.points(), vec![(-4, 4), (4, 4), (4, -4), (-4, -4)]);
}

#[test]
fn the_first_field_of_a_name_is_read() {
    let fields = vec![
        field("left", FieldValue::Int(Some(2))),
        field("right", FieldValue::Int(Some(5))),
        field("label", FieldValue::Other),
        field("top", FieldValue::Int(None)),
        field("right", FieldValue::Int(Some(9))),
    ];
    assert_eq!(get_int_from_ldtk(&fields, "left"), Some(2));
    assert_eq!(get_int_from_ldtk(&fields, "right"), Some(5));
    assert_eq!(get_int_from_ldtk(&fields, "label"), Some(1));
    assert_eq!(get_int_from_ldtk(&fields, "top"), None);
    assert_eq!(get_int_from_ldtk(&fields, "bottom"), None);
    assert_eq!(get_int_from_ldtk(&Vec::new(), "left"), None);
}
