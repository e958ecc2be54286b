use lumen_ray::renderer::texture_key::{colour_key, find_key, AssetKeys};

#[test]
fn colour_key_in_decimal() {
    assert_eq!(colour_key(0, 7, 1024), "colour/0,7,1024");
    assert_eq!(colour_key(65535, 10, 99), "colour/65535,10,99");
}

#[test]
fn find_key_first_match() {
    let keys = vec!["a.bmp".to_string(), "colour/1,2,3".to_string(), "a.bmp".to_string()];
    assert_eq!(find_key(&keys, "a.bmp"), Some(0));
    assert_eq!(find_key(&keys, "colour/1,2,3"), Some(1));
    assert_eq!(find_key(&keys, "b.bmp"), None);
    assert_eq!(find_key(&vec![], "a.bmp"), None);
}

#[test]
fn asset_keys_file_once() {
    let mut keys = AssetKeys::new();
    assert_eq!(keys.len(), 0);
    assert_eq!(keys.file(colour_key(1, 2, 3)), (0, true));
    assert_eq!(keys.file("assets/floor.bmp".to_string()), (1, true));
    assert_eq!(keys.file("colour/1,2,3".to_string()), (0, false));
    assert_eq!(keys.len(), 2);
    assert_eq!(keys.slot_of("assets/floor.bmp"), Some(1));
    assert_eq!(keys.slot_of("assets/wall.bmp"), None);
}
