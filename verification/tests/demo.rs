use map_bevy::CameraYaw;
use map_bevy::GreetTimer;
use map_bevy::SceneObject;
use map_bevy::add_people;
use map_bevy::greet_people;
use map_bevy::greeting;
use map_bevy::hello_world;
use map_bevy::rotate_camera;
use map_bevy::setup_scene;
use map_bevy::update_people;
use map_bevy::scene::Axis;

#[test]
fn scene_holds_cube_plane_and_light() {
    let scene = setup_scene();
    assert_eq!(scene.len(), 3);
    let cubes = scene.iter().filter(|o| matches!(o, SceneObject::Cube { .. })).count();
    let planes = scene.iter().filter(|o| matches!(o, SceneObject::Plane { .. })).count();
    let lights = scene.iter().filter(|o| matches!(o, SceneObject::Light { .. })).count();
    assert_eq!((cubes, planes, lights), (1, 1, 1));
}

#[test]
fn scene_cube_values() {
    let scene = setup_scene();
    match scene[0] {
        SceneObject::Cube { size, color, translation } => {
            assert_eq!((size.x, size.y, size.z), (1000, 1000, 1000));
            assert_eq!((color.red, color.green, color.blue), (124, 144, 255));
            assert_eq!((translation.x, translation.y, translation.z), (0, 500, 0));
        }
        _ => panic!("the first object is the cube"),
    }
}

#[test]
fn scene_plane_values() {
    let scene = setup_scene();
    match scene[1] {
        SceneObject::Plane { size_x, size_z, color } => {
            assert_eq!((size_x, size_z), (5000, 5000));
            assert_eq!((color.red, color.green, color.blue), (60, 130, 60));
        }
        _ => panic!("the second object is the plane"),
    }
}

#[test]
fn scene_light_values() {
    let scene = setup_scene();
    match scene[2] {
        SceneObject::Light { shadows_enabled, translation, rotation } => {
            assert!(shadows_enabled);
            assert_eq!((translation.x, translation.y, translation.z), (0, 2000, 0));
            assert_eq!(rotation.axis, Axis::X);
            assert_eq!(rotation.millideg, -45000);
        }
        _ => panic!("the third object is the light"),
    }
}

#[test]
fn camera_rotates_half_a_radian_per_second() {
    let mut yaw = CameraYaw { microrad: 0 };
    rotate_camera(&mut yaw, 1_000_000);
    assert_eq!(yaw.microrad, 500_000);
    rotate_camera(&mut yaw, 2_000_000);
    assert_eq!(yaw.microrad, 1_500_000);
    rotate_camera(&mut yaw, 3);
    assert_eq!(yaw.microrad, 1_500_001);
}

#[test]
fn hello_world_message() {
    assert_eq!(hello_world(), "Hello, world!");
}

#[test]
fn roster_starts_with_three_people() {
    let people = add_people();
    assert_eq!(people, vec!["Alice", "Bob", "Charlie"]);
}

#[test]
fn update_renames_first_alice() {
    let mut people = add_people();
    update_people(&mut people);
    assert_eq!(people, vec!["Alex", "Bob", "Charlie"]);
}

#[test]
fn update_without_alice_changes_nothing() {
    let mut people = add_people();
    update_people(&mut people);
    update_people(&mut people);
    assert_eq!(people, vec!["Alex", "Bob", "Charlie"]);
}

#[test]
fn update_leaves_later_namesakes_alone() {
    let mut people = vec!["Alice".to_string(), "Alice".to_string()];
    update_people(&mut people);
    assert_eq!(people, vec!["Alex", "Alice"]);
}

#[test]
fn greeting_line_format() {
    assert_eq!(greeting(&"Bob".to_string()), "Hello, Bob!");
}

#[test]
fn timer_finishes_once_per_period() {
    let mut timer = GreetTimer::new(2_000_000);
    assert!(!timer.tick(1_000_000));
    assert!(timer.tick(1_000_000));
    assert_eq!(timer.elapsed_micros, 0);
    assert!(timer.tick(3_000_000));
    assert_eq!(timer.elapsed_micros, 1_000_000);
}

#[test]
fn people_greeted_exactly_when_period_elapses() {
    let people = add_people();
    let mut timer = GreetTimer::new(2_000_000);
    let silent = greet_people(&mut timer, 1_000_000, &people);
    assert!(silent.is_empty());
    let greetings = greet_people(&mut timer, 1_000_000, &people);
    assert_eq!(greetings, vec!["Hello, Alice!", "Hello, Bob!", "Hello, Charlie!"]);
}
