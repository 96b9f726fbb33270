use narrowphase::input_state::InputState;
use narrowphase::shapes::Sphere;
use narrowphase::vec3::Vec3;
use narrowphase::world::{CollisionShapes, CollisionWorld};

#[test]
fn input_state_press_transitions() {
    assert_eq!(InputState::on_press(None), InputState::JustPressed);
    assert_eq!(InputState::on_press(Some(InputState::Released)), InputState::JustPressed);
    assert_eq!(InputState::on_press(Some(InputState::JustReleased)), InputState::JustPressed);
    assert_eq!(InputState::on_press(Some(InputState::JustPressed)), InputState::Held);
    assert_eq!(InputState::on_press(Some(InputState::Held)), InputState::Held);
}

#[test]
fn input_state_release_and_tick() {
    assert_eq!(InputState::on_release(Some(InputState::Held)), InputState::JustReleased);
    assert_eq!(InputState::JustPressed.end_tick(), InputState::Held);
    assert_eq!(InputState::JustReleased.end_tick(), InputState::Released);
    assert_eq!(InputState::Held.end_tick(), InputState::Held);
    assert_eq!(InputState::Released.end_tick(), InputState::Released);
}

#[test]
fn input_state_down_query() {
    assert!(InputState::JustPressed.is_down());
    assert!(InputState::Held.is_down());
    assert!(!InputState::JustReleased.is_down());
    assert!(!InputState::Released.is_down());
}

#[test]
fn world_registers_shapes() {
    let mut world = CollisionWorld::new();
    assert_eq!(world.collision_shapes.len(), 0);
    let s = Sphere::new(Vec3::new(1, 2, 3), 4);
    world.add_shape(CollisionShapes::Sphere(s, Some(Vec3::new(0, -1, 0)), 0), 0);
    world.add_shape(CollisionShapes::Sphere(s, None, 1), 1);
    assert_eq!(world.collision_shapes.len(), 2);
}
