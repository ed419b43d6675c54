//! What the level editor's entities become in the physics world.
//!
//! Each kind of entity is put on one layer and collides with a few others.
//! A wall spans a number of cells of eight units to each side of its own.

use crate::layer_filters::{plays, Role};
use crate::layers::{
    layer_groups, layer_masks, no_layers, with_group, with_mask, GameCollisionLayers,
};
use heron::CollisionLayers;
use vstd::prelude::*;

verus! {

/// The kinds of entity that the game puts into the physics world: those that
/// a level holds, and the two that the game spawns while it runs.
#[derive(Clone, Copy, Debug, PartialEq, Eq, Structural)]
pub enum EntityKind {
    Player,
    Enemy,
    Potion,
    Coin,
    Stairs,
    Wall,
    /// What an enemy shoots at the player.
    EnemyProjectile,
    /// The player's attack.
    Bork,
}

impl EntityKind {
    /// The kind that a level names `identifier`, if it names one.
    pub open spec fn named(identifier: Seq<char>) -> Option<EntityKind> {
        if identifier == "Player"@ {
            Some(EntityKind::Player)
        } else if identifier == "Enemy"@ {
            Some(EntityKind::Enemy)
        } else if identifier == "Potion"@ {
            Some(EntityKind::Potion)
        } else if identifier == "Coin"@ {
            Some(EntityKind::Coin)
        } else if identifier == "Stairs"@ {
            Some(EntityKind::Stairs)
        } else if identifier == "Wall"@ {
            Some(EntityKind::Wall)
        } else {
            None
        }
    }

    /// The layer that an entity of this kind is on.
    pub open spec fn group(self) -> GameCollisionLayers {
        match self {
            EntityKind::Player => GameCollisionLayers::Player,
            EntityKind::Enemy => GameCollisionLayers::Enemy,
            EntityKind::Potion => GameCollisionLayers::Item,
            EntityKind::Coin => GameCollisionLayers::Coin,
            EntityKind::Stairs => GameCollisionLayers::Stairs,
            EntityKind::Wall => GameCollisionLayers::World,
            EntityKind::EnemyProjectile => GameCollisionLayers::EnemyAttack,
            EntityKind::Bork => GameCollisionLayers::PlayerAttack,
        }
    }

    /// The layers that an entity of this kind collides with.
    pub open spec fn masks(self) -> Set<GameCollisionLayers> {
        match self {
            EntityKind::Player => set![
                GameCollisionLayers::World,
                GameCollisionLayers::Enemy,
                GameCollisionLayers::EnemyAttack,
                GameCollisionLayers::Item,
                GameCollisionLayers::Coin,
                GameCollisionLayers::Stairs,
            ],
            EntityKind::Enemy => set![
                GameCollisionLayers::World,
                GameCollisionLayers::Player,
                GameCollisionLayers::PlayerAttack,
            ],
            EntityKind::Potion => set![GameCollisionLayers::Player],
            EntityKind::Coin => set![GameCollisionLayers::Player],
            EntityKind::Stairs => set![GameCollisionLayers::Player],
            EntityKind::Wall => set![
                GameCollisionLayers::Player,
                GameCollisionLayers::PlayerAttack,
                GameCollisionLayers::Enemy,
                GameCollisionLayers::EnemyAttack,
            ],
            EntityKind::EnemyProjectile => set![
                GameCollisionLayers::World,
                GameCollisionLayers::Player,
                GameCollisionLayers::PlayerAttack,
            ],
            EntityKind::Bork => set![GameCollisionLayers::Enemy, GameCollisionLayers::EnemyAttack],
        }
    }

    /// Whether two kinds of entity collide: each is on a layer that the
    /// other collides with.
    pub open spec fn collides_with(self, other: EntityKind) -> bool {
        other.masks().contains(self.group()) && self.masks().contains(other.group())
    }

    /// The role that an entity of this kind plays in a collision, if any.
    pub open spec fn role(self) -> Option<Role> {
        match self {
            EntityKind::Player => Some(Role::Player),
            EntityKind::Enemy => None,
            EntityKind::Potion => Some(Role::Item),
            EntityKind::Coin => Some(Role::Coin),
            EntityKind::Stairs => Some(Role::Stairs),
            EntityKind::Wall => None,
            EntityKind::EnemyProjectile => Some(Role::EnemyAttack),
            EntityKind::Bork => Some(Role::PlayerAttack),
        }
    }

    /// The kind that a level names `identifier`, if it names one.
    pub fn from_identifier(identifier: &str) -> (kind: Option<EntityKind>)
        ensures
            kind == EntityKind::named(identifier@),
    {
        let name = identifier.to_owned();
        if name == "Player".to_owned() {
            Some(EntityKind::Player)
        } else if name == "Enemy".to_owned() {
            Some(EntityKind::Enemy)
        } else if name == "Potion".to_owned() {
            Some(EntityKind::Potion)
        } else if name == "Coin".to_owned() {
            Some(EntityKind::Coin)
        } else if name == "Stairs".to_owned() {
            Some(EntityKind::Stairs)
        } else if name == "Wall".to_owned() {
            Some(EntityKind::Wall)
        } else {
            None
        }
    }

    /// The layers of an entity of this kind: the one it is on, and those it
    /// collides with.
    pub fn collision_layers(self) -> (layers: CollisionLayers)
        ensures
            layer_groups(layers) == set![self.group()],
            layer_masks(layers) == self.masks(),
    {
        match self {
            EntityKind::Player => {
                let on = with_group(no_layers(), GameCollisionLayers::Player);
                let on = with_mask(on, GameCollisionLayers::World);
                let on = with_mask(on, GameCollisionLayers::Enemy);
                let on = with_mask(on, GameCollisionLayers::EnemyAttack);
                let on = with_mask(on, GameCollisionLayers::Item);
                let on = with_mask(on, GameCollisionLayers::Coin);
                with_mask(on, GameCollisionLayers::Stairs)
            },
            EntityKind::Enemy => {
                let on = with_group(no_layers(), GameCollisionLayers::Enemy);
                let on = with_mask(on, GameCollisionLayers::World);
                let on = with_mask(on, GameCollisionLayers::Player);
                with_mask(on, GameCollisionLayers::PlayerAttack)
            },
            EntityKind::Potion => {
                let on = with_group(no_layers(), GameCollisionLayers::Item);
                with_mask(on, GameCollisionLayers::Player)
            },
            EntityKind::Coin => {
                let on = with_group(no_layers(), GameCollisionLayers::Coin);
                with_mask(on, GameCollisionLayers::Player)
            },
            EntityKind::Stairs => {
                let on = with_group(no_layers(), GameCollisionLayers::Stairs);
                with_mask(on, GameCollisionLayers::Player)
            },
            EntityKind::Wall => {
                let on = with_group(no_layers(), GameCollisionLayers::World);
                let on = with_mask(on, GameCollisionLayers::Player);
                let on = with_mask(on, GameCollisionLayers::PlayerAttack);
                let on = with_mask(on, GameCollisionLayers::Enemy);
                with_mask(on, GameCollisionLayers::EnemyAttack)
            },
            EntityKind::EnemyProjectile => {
                let on = with_group(no_layers(), GameCollisionLayers::EnemyAttack);
                let on = with_mask(on, GameCollisionLayers::World);
                let on = with_mask(on, GameCollisionLayers::Player);
                with_mask(on, GameCollisionLayers::PlayerAttack)
            },
            EntityKind::Bork => {
                let on = with_group(no_layers(), GameCollisionLayers::PlayerAttack);
                let on = with_mask(on, GameCollisionLayers::Enemy);
                with_mask(on, GameCollisionLayers::EnemyAttack)
            },
        }
    }
}

/// The distance from the middle of a wall's own cell to the far edge of the
/// last of `cells` cells to one side, that cell included: half a cell and
/// eight units for each cell after the first.
pub open spec fn reach(cells: int) -> int {
    4 + 8 * (cells - 1)
}

/// The four edges of a wall, about the middle of its own cell.
#[derive(Clone, Copy, Debug, PartialEq, Eq, Structural)]
pub struct WallExtents {
    pub left: i64,
    pub right: i64,
    pub top: i64,
    pub bottom: i64,
}

impl WallExtents {
    /// The four corners of the wall, each as its horizontal and vertical
    /// place: top left, top right, bottom right, bottom left.
    pub open spec fn corners(self) -> Seq<(i64, i64)> {
        seq![
            (self.left, self.top),
            (self.right, self.top),
            (self.right, self.bottom),
            (self.left, self.bottom),
        ]
    }

    /// The edges of a wall that spans the given numbers of cells to each
    /// side. To the left and to the bottom the edges lie below zero.
    pub fn new(left: i32, right: i32, top: i32, bottom: i32) -> (extents: WallExtents)
        ensures
            extents.left == -reach(left as int),
            extents.right == reach(right as int),
            extents.top == reach(top as int),
            extents.bottom == -reach(bottom as int),
    {
        WallExtents {
            left: -wall_reach(left),
            right: wall_reach(right),
            top: wall_reach(top),
            bottom: -wall_reach(bottom),
        }
    }

    /// The four corners of the wall: top left, top right, bottom right,
    /// bottom left.
    pub fn points(&self) -> (points: Vec<(i64, i64)>)
        ensures
            points@ == self.corners(),
    {
        let mut points: Vec<(i64, i64)> = Vec::new();
        points.push((self.left, self.top));
        points.push((self.right, self.top));
        points.push((self.right, self.bottom));
        points.push((self.left, self.bottom));
        points
    }
}

/// The reach of a wall over `cells` cells to one side.
pub fn wall_reach(cells: i32) -> (distance: i64)
    ensures
        distance == reach(cells as int),
{
    let cells: i64 = cells as i64;
    4 + 8 * (cells - 1)
}

/// What a field of an entity of a level holds, as far as the game reads it.
#[derive(Clone, Copy, Debug, PartialEq, Eq, Structural)]
pub enum FieldValue {
    /// A whole number, which may be left out.
    Int(Option<i32>),
    /// Anything else.
    Other,
}

/// A named field of an entity of a level.
#[derive(Debug)]
pub struct FieldInstance {
    pub identifier: String,
    pub value: FieldValue,
}

/// The place of the first field named `field_name`, or the number of fields
/// where none has that name.
pub open spec fn field_index(fields: Seq<FieldInstance>, field_name: Seq<char>) -> int
    decreases fields.len(),
{
    if fields.len() == 0 {
        0
    } else if fields.first().identifier@ == field_name {
        0
    } else {
        1 + field_index(fields.drop_first(), field_name)
    }
}

/// The whole number that the first field named `field_name` holds: nothing
/// where no field has that name or where its number is left out, and one
/// where it holds something that is no number.
pub open spec fn int_of_field(fields: Seq<FieldInstance>, field_name: Seq<char>) -> Option<i32> {
    let at = field_index(fields, field_name);
    if at >= fields.len() {
        None
    } else {
        match fields[at].value {
            FieldValue::Int(number) => number,
            FieldValue::Other => Some(1i32),
        }
    }
}

/// Reads the whole number of the first field named `field_name`.
pub fn get_int_from_ldtk(fields: &Vec<FieldInstance>, field_name: &str) -> (number: Option<i32>)
    ensures
        number == int_of_field(fields@, field_name@),
{
    let name = field_name.to_owned();
    let mut i: usize = 0;
    proof {
        assert(fields@.skip(0) == fields@);
    }
    while i < fields.len()
        invariant
            i <= fields.len(),
            name@ == field_name@,
            field_index(fields@, field_name@) == i + field_index(
                fields@.skip(i as int),
                field_name@,
            ),
        decreases fields.len() - i,
    {
        proof {
            assert(fields@.skip(i as int).first() == fields@[i as int]);
            assert(fields@.skip(i as int).drop_first() == fields@.skip(i + 1));
        }
        if fields[i].identifier == name {
            return match fields[i].value {
                FieldValue::Int(number) => number,
                FieldValue::Other => Some(1),
            };
        }
        i = i + 1;
    }
    None
}

/// Each kind of entity is on layers that play its role and no other role, and
/// a wall and an enemy play none.
pub proof fn lemma_kind_plays_its_role(kind: EntityKind, role: Role)
    ensures
        plays(set![kind.group()], role) == (kind.role() == Some(role)),
{
}

/// What the rules of the game are about does collide: the player with
/// potions, coins, the stairs and what an enemy shoots, and the player's
/// attack with what an enemy shoots. Whether two kinds collide does not
/// depend on which is asked first.
pub proof fn lemma_kinds_that_collide(a: EntityKind, b: EntityKind)
    ensures
        a.collides_with(b) == b.collides_with(a),
        EntityKind::Player.collides_with(EntityKind::Potion),
        EntityKind::Player.collides_with(EntityKind::Coin),
        EntityKind::Player.collides_with(EntityKind::Stairs),
        EntityKind::Player.collides_with(EntityKind::EnemyProjectile),
        EntityKind::Bork.collides_with(EntityKind::EnemyProjectile),
        EntityKind::Player.collides_with(EntityKind::Wall),
        !EntityKind::Enemy.collides_with(EntityKind::Potion),
        !EntityKind::Bork.collides_with(EntityKind::Player),
{
}

/// A wall reaches further the more cells it spans, eight units for each.
pub proof fn lemma_reach_grows(cells: int, more: int)
    ensures
        reach(1) == 4,
        reach(cells + 1) == reach(cells) + 8,
        cells <= more ==> reach(cells) <= reach(more),
{
}

} // verus!
