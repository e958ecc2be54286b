use lumen_ray::scene::{check_snapshot, find_by_id, NoSuchEntity, NoSuchScene, ObjectType, SceneError};

#[test]
fn find_by_id_finds_each_entry() {
    let entries = vec![(2u32, 'a'), (5, 'b'), (9, 'c'), (14, 'd')];
    assert_eq!(find_by_id(&entries, 2), Some(0));
    assert_eq!(find_by_id(&entries, 9), Some(2));
    assert_eq!(find_by_id(&entries, 14), Some(3));
}

#[test]
fn find_by_id_missing_is_none() {
    let entries = vec![(2u32, 'a'), (5, 'b'), (9, 'c')];
    assert_eq!(find_by_id(&entries, 0), None);
    assert_eq!(find_by_id(&entries, 6), None);
    assert_eq!(find_by_id(&entries, 100), None);
    let empty: Vec<(u32, char)> = vec![];
    assert_eq!(find_by_id(&empty, 1), None);
}

#[test]
fn snapshot_needs_light_and_camera() {
    assert_eq!(check_snapshot(1, 1), Ok(()));
    assert_eq!(check_snapshot(0, 1), Err(SceneError::NoLight));
    assert_eq!(check_snapshot(2, 0), Err(SceneError::NoCamera));
    assert_eq!(check_snapshot(0, 0), Err(SceneError::NoLight));
}

#[test]
fn error_messages() {
    assert_eq!(NoSuchEntity.to_string(), "no such entity");
    assert_eq!(NoSuchScene.to_string(), "no such scene");
    assert_eq!(SceneError::NoCamera.to_string(), "the scene has no camera");
    assert_eq!(SceneError::NoLight.to_string(), "the scene has no point light");
}

#[test]
fn object_types_differ() {
    assert_ne!(ObjectType::Sphere, ObjectType::Plane);
    assert_eq!(ObjectType::Nothing, ObjectType::Nothing);
}
