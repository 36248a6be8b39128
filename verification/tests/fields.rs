use contour::entities::{
    get_collision_shape_from_entity, get_rigidbody_from_entity, wall_physics, CollisionShape, Info,
    IntGridCell, NamedEntity, PhysicsBundle, RigidBody, Speed,
};
use contour::fields::{EntityInstance, FieldInstance, FieldReturn, FieldValue};

fn entity(name: &str, fields: Vec<(&str, FieldValue)>) -> EntityInstance {
    EntityInstance {
        identifier: name.to_string(),
        field_instances: fields
            .into_iter()
            .map(|(name, value)| FieldInstance { identifier: name.to_string(), value })
            .collect(),
    }
}

fn text(value: &str) -> FieldValue {
    FieldValue::String(Some(value.to_string()))
}

fn is_sphere(shape: &CollisionShape, radius: Option<&str>) -> bool {
    matches!(shape, CollisionShape::Sphere { radius: r } if r.as_deref() == radius)
}

fn is_cuboid(shape: &CollisionShape, size: Option<&str>) -> bool {
    matches!(shape, CollisionShape::Cuboid { half_extends: s } if s.as_deref() == size)
}

#[test]
fn field_is_found_by_name() {
    let chest = entity("Chest", vec![("speed", FieldValue::Float(Some(1500))), ("to", FieldValue::Int(Some(2)))]);
    assert!(matches!(chest.get_field_value("to"), Some(FieldValue::Int(Some(2)))));
    assert!(matches!(chest.get_field_value("speed"), Some(FieldValue::Float(Some(1500)))));
    assert!(chest.get_field_value("To").is_none());
    assert!(chest.get_field_value("").is_none());
}

#[test]
fn first_of_two_fields_with_one_name_is_taken() {
    let chest = entity("Chest", vec![("to", FieldValue::Int(Some(1))), ("to", FieldValue::Int(Some(2)))]);
    assert!(matches!(chest.get_field_value("to"), Some(FieldValue::Int(Some(1)))));
}

#[test]
fn string_value_reads_strings_and_enums_only() {
    let chest = entity(
        "Chest",
        vec![
            ("a", text("plain")),
            ("b", FieldValue::Enum(Some("Entry".to_string()))),
            ("c", FieldValue::String(None)),
            ("d", FieldValue::Int(Some(4))),
            ("e", FieldValue::Bool(true)),
            ("f", FieldValue::Other),
        ],
    );
    assert_eq!(chest.get_string_value("a"), Some("plain".to_string()));
    assert_eq!(chest.get_string_value("b"), Some("Entry".to_string()));
    assert_eq!(chest.get_string_value("c"), None);
    assert_eq!(chest.get_string_value("d"), None);
    assert_eq!(chest.get_string_value("e"), None);
    assert_eq!(chest.get_string_value("f"), None);
    assert_eq!(chest.get_string_value("g"), None);
}

#[test]
fn field_value_clone_is_equal() {
    let value = text("plain");
    assert!(matches!(value.clone(), FieldValue::String(Some(s)) if s == "plain"));
    assert!(matches!(FieldValue::Enum(None).clone(), FieldValue::Enum(None)));
    assert!(matches!(FieldValue::Other.clone(), FieldValue::Other));
}

#[test]
fn rigid_body_follows_the_physics_field() {
    assert_eq!(get_rigidbody_from_entity(&entity("A", vec![("physics", text("Fixed"))])), RigidBody::Static);
    assert_eq!(get_rigidbody_from_entity(&entity("A", vec![("physics", text("Dynamic"))])), RigidBody::Dynamic);
    assert_eq!(get_rigidbody_from_entity(&entity("A", vec![("physics", text("fixed"))])), RigidBody::Sensor);
    assert_eq!(get_rigidbody_from_entity(&entity("A", vec![])), RigidBody::Sensor);
    assert_eq!(
        get_rigidbody_from_entity(&entity("A", vec![("physics", FieldValue::Int(Some(1)))])),
        RigidBody::Sensor
    );
}

#[test]
fn collision_shape_follows_the_shape_field() {
    let ball = entity("A", vec![("collider_shape", text("Sphere")), ("radius", text("2.5"))]);
    assert!(is_sphere(&get_collision_shape_from_entity(&ball), Some("2.5")));
    let bare_ball = entity("A", vec![("collider_shape", text("Sphere")), ("collider_size", text("(1,1,1)"))]);
    assert!(is_sphere(&get_collision_shape_from_entity(&bare_ball), None));
    let chest = entity("A", vec![("collider_shape", text("Box")), ("collider_size", text("(8.0, 4.0, 0.0)"))]);
    assert!(is_cuboid(&get_collision_shape_from_entity(&chest), Some("(8.0, 4.0, 0.0)")));
    let bare_box = entity("A", vec![("collider_shape", text("Box")), ("radius", text("2.5"))]);
    assert!(is_cuboid(&get_collision_shape_from_entity(&bare_box), None));
    assert!(matches!(get_collision_shape_from_entity(&entity("A", vec![])), CollisionShape::Tile));
}

#[test]
fn physics_bundle_takes_both_from_the_entity() {
    let bundle = PhysicsBundle::from(entity(
        "A",
        vec![("physics", text("Dynamic")), ("collider_shape", text("Sphere")), ("radius", text("1.5"))],
    ));
    assert_eq!(bundle.rigid_body, RigidBody::Dynamic);
    assert!(is_sphere(&bundle.collider, Some("1.5")));
    let bare = PhysicsBundle::from(entity("A", vec![]));
    assert_eq!(bare.rigid_body, RigidBody::Sensor);
    assert!(matches!(bare.collider, CollisionShape::Tile));
}

#[test]
fn wall_cells_are_static_tiles() {
    let wall = wall_physics(&IntGridCell { value: 1 }).unwrap();
    assert_eq!(wall.rigid_body, RigidBody::Static);
    assert!(matches!(wall.collider, CollisionShape::Tile));
    assert!(wall_physics(&IntGridCell { value: 0 }).is_none());
    assert!(wall_physics(&IntGridCell { value: 2 }).is_none());
}

#[test]
fn speed_follows_the_speed_field_or_is_zero() {
    assert_eq!(Speed::from(entity("A", vec![("speed", FieldValue::Float(Some(20_000)))])), Speed(20_000));
    assert_eq!(Speed::from(entity("A", vec![("speed", FieldValue::Float(Some(-500)))])), Speed(-500));
    assert_eq!(Speed::from(entity("A", vec![("speed", FieldValue::Float(None))])), Speed(0));
    assert_eq!(Speed::from(entity("A", vec![("speed", FieldValue::Int(Some(3)))])), Speed(0));
    assert_eq!(Speed::from(entity("A", vec![])), Speed(0));
}

#[test]
fn info_follows_the_text_field_or_is_empty() {
    assert_eq!(Info::from_entity(&entity("A", vec![("text", text("A rusty key."))])).0, "A rusty key.");
    assert_eq!(Info::from_entity(&entity("A", vec![("text", FieldValue::String(None))])).0, "");
    assert_eq!(
        Info::from_entity(&entity("A", vec![("text", FieldValue::Enum(Some("x".to_string())))])).0,
        ""
    );
    assert_eq!(Info::from_entity(&entity("A", vec![])).0, "");
}

#[test]
fn named_entity_takes_the_identifier() {
    assert_eq!(NamedEntity::from_entity(entity("Wardrobe", vec![])).0, "Wardrobe");
}
