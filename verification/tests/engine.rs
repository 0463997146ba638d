use basita::camera::{new, Camera, CameraEntity};
use basita::engine::{EngineState, SystemCollection, SystemKind};
use basita::geometry::Vector2;

#[test]
fn new_game_runs_and_is_empty() {
    let state = EngineState::new();
    assert!(state.running);
    assert_eq!(state.image_resources.len(), 0);
    assert_eq!(state.sprites.len(), 0);
    assert_eq!(state.transforms.len(), 0);
}

#[test]
fn default_systems_run_in_a_fixed_order() {
    let mut systems = SystemCollection::new();
    systems.add_defaults();
    assert_eq!(
        systems.all,
        vec![
            SystemKind::Render,
            SystemKind::ColliderRender,
            SystemKind::SdlPresenter,
            SystemKind::SdlEvent,
        ]
    );
}

#[test]
fn default_systems_run_after_those_registered_before() {
    let mut systems = SystemCollection::new();
    systems.add(SystemKind::SdlEvent);
    systems.add_defaults();
    assert_eq!(
        systems.all,
        vec![
            SystemKind::SdlEvent,
            SystemKind::Render,
            SystemKind::ColliderRender,
            SystemKind::SdlPresenter,
            SystemKind::SdlEvent,
        ]
    );
}

#[test]
fn new_camera_joins_the_cameras_of_a_game() {
    let mut cameras: Vec<CameraEntity> = Vec::new();
    new(&mut cameras, Vector2 { x: 3, y: 4 });
    new(&mut cameras, Vector2 { x: -5, y: 6 });
    assert_eq!(cameras.len(), 2);
    assert_eq!(cameras[0].camera(), Camera { position: Vector2 { x: 3, y: 4 } });
    assert_eq!(cameras[1].camera(), Camera { position: Vector2 { x: -5, y: 6 } });
}
