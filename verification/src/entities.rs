//! What a level entity's fields say of the components it gets.

use vstd::prelude::*;
use vstd::std_specs::convert::FromSpecImpl;
use crate::fields::EntityInstance;
use crate::fields::FieldReturn;
use crate::fields::FieldValue;

verus! {

/// How a body takes part in the physics.
#[derive(Clone, Copy, PartialEq, Eq, Structural, Debug)]
pub enum RigidBody {
    /// Never moves.
    Static,
    /// Moved by forces and contacts.
    Dynamic,
    /// Reports contacts and is moved by nothing.
    Sensor,
}

/// The shape of a collider. The measures are texts as the level file holds
/// them; turning them into numbers is left to the caller.
#[derive(Debug)]
pub enum CollisionShape {
    /// A ball with the radius that the field `radius` gives.
    Sphere { radius: Option<String> },
    /// A box with the half extents that the field `collider_size` gives.
    Cuboid { half_extends: Option<String> },
    /// The box of an entity that names no shape, and of a wall cell: four
    /// units to each side and flat.
    Tile,
}

/// The physics components of a level entity.
#[derive(Debug)]
pub struct PhysicsBundle {
    pub collider: CollisionShape,
    pub rigid_body: RigidBody,
}

/// A cell of an integer grid layer.
#[derive(Clone, Copy, PartialEq, Eq, Structural, Debug)]
pub struct IntGridCell {
    pub value: i32,
}

/// Speed of a pawn, in thousandths of a world unit per second.
#[derive(Clone, Copy, PartialEq, Eq, Structural, Debug)]
pub struct Speed(pub i32);

/// The text shown for an entity that can be examined.
#[derive(Debug)]
pub struct Info(pub String);

/// The name an entity goes by.
#[derive(Debug)]
pub struct NamedEntity(pub String);

/// The body that the field `physics` asks for: `Fixed` is static, `Dynamic`
/// is dynamic, anything else and a missing field give a sensor.
pub open spec fn rigid_body_of(entity: EntityInstance) -> RigidBody {
    match entity.text("physics"@) {
        Some(kind) => if kind@ == "Fixed"@ {
            RigidBody::Static
        } else if kind@ == "Dynamic"@ {
            RigidBody::Dynamic
        } else {
            RigidBody::Sensor
        },
        None => RigidBody::Sensor,
    }
}

/// The shape that the field `collider_shape` asks for: `Sphere` is a ball,
/// anything else a box, and a missing field the tile.
pub open spec fn collision_shape_of(entity: EntityInstance) -> CollisionShape {
    match entity.text("collider_shape"@) {
        Some(shape) => if shape@ == "Sphere"@ {
            CollisionShape::Sphere { radius: entity.text("radius"@) }
        } else {
            CollisionShape::Cuboid { half_extends: entity.text("collider_size"@) }
        },
        None => CollisionShape::Tile,
    }
}

/// The speed that the field `speed` gives: 0 where the field is missing, is
/// no number with a fraction, or is not set.
pub open spec fn speed_of(entity: EntityInstance) -> Speed {
    match entity.field("speed"@) {
        Some(FieldValue::Float(Some(speed))) => Speed(speed),
        _ => Speed(0),
    }
}

/// The text that the field `text` gives: empty where the field is missing,
/// is no string, or is not set.
pub open spec fn info_of(entity: EntityInstance) -> Seq<char> {
    match entity.field("text"@) {
        Some(FieldValue::String(Some(text))) => text@,
        _ => Seq::empty(),
    }
}

/// Reads the kind of body off an entity.
pub fn get_rigidbody_from_entity(entity: &EntityInstance) -> (body: RigidBody)
    ensures
        body == rigid_body_of(*entity),
{
    match entity.get_string_value("physics") {
        Some(kind) => {
            if kind == "Fixed".to_owned() {
                RigidBody::Static
            } else if kind == "Dynamic".to_owned() {
                RigidBody::Dynamic
            } else {
                RigidBody::Sensor
            }
        },
        None => RigidBody::Sensor,
    }
}

/// Reads the collider's shape off an entity.
pub fn get_collision_shape_from_entity(entity: &EntityInstance) -> (shape: CollisionShape)
    ensures
        shape == collision_shape_of(*entity),
{
    match entity.get_string_value("collider_shape") {
        Some(shape) => {
            if shape == "Sphere".to_owned() {
                CollisionShape::Sphere { radius: entity.get_string_value("radius") }
            } else {
                CollisionShape::Cuboid { half_extends: entity.get_string_value("collider_size") }
            }
        },
        None => CollisionShape::Tile,
    }
}

/// The physics of a wall cell: a static tile for the value 1, and for every
/// other value nothing of its own.
pub fn wall_physics(cell: &IntGridCell) -> (bundle: Option<PhysicsBundle>)
    ensures
        bundle == if cell.value == 1 {
            Some(PhysicsBundle { collider: CollisionShape::Tile, rigid_body: RigidBody::Static })
        } else {
            None
        },
{
    if cell.value == 1 {
        Some(PhysicsBundle { collider: CollisionShape::Tile, rigid_body: RigidBody::Static })
    } else {
        None
    }
}

impl From<EntityInstance> for PhysicsBundle {
    fn from(entity_instance: EntityInstance) -> (bundle: Self) {
        let rigid_body = get_rigidbody_from_entity(&entity_instance);
        let collider = get_collision_shape_from_entity(&entity_instance);
        PhysicsBundle { collider, rigid_body }
    }
}

impl FromSpecImpl<EntityInstance> for PhysicsBundle {
    open spec fn obeys_from_spec() -> bool {
        true
    }

    open spec fn from_spec(entity_instance: EntityInstance) -> Self {
        PhysicsBundle {
            collider: collision_shape_of(entity_instance),
            rigid_body: rigid_body_of(entity_instance),
        }
    }
}

impl From<EntityInstance> for Speed {
    fn from(entity: EntityInstance) -> (speed: Self) {
        match entity.get_field_value("speed") {
            Some(FieldValue::Float(Some(speed))) => Speed(speed),
            _ => Speed(0),
        }
    }
}

impl FromSpecImpl<EntityInstance> for Speed {
    open spec fn obeys_from_spec() -> bool {
        true
    }

    open spec fn from_spec(entity: EntityInstance) -> Self {
        speed_of(entity)
    }
}

impl Info {
    /// The text to show for `entity`.
    pub fn from_entity(entity: &EntityInstance) -> (info: Self)
        ensures
            info.0@ == info_of(*entity),
    {
        match entity.get_field_value("text") {
            Some(FieldValue::String(Some(text))) => Info(text),
            _ => Info(String::new()),
        }
    }
}

impl NamedEntity {
    /// The name of `entity`.
    pub fn from_entity(entity: EntityInstance) -> (named: Self)
        ensures
            named.0 == entity.identifier,
    {
        NamedEntity(entity.identifier)
    }
}

} // verus!
