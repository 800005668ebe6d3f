use perekladach::storage::{get_source_image_path, get_translated_image_path};

#[test]
fn image_paths() {
    let id: u128 = 0xa1a2a3a4b1b2c1c2d1d2d3d4d5d6d7d8;
    assert_eq!(
        get_source_image_path(id),
        "./data/pages/a1a2a3a4b1b2c1c2d1d2d3d4d5d6d7d8/source"
    );
    assert_eq!(
        get_translated_image_path(id),
        "./data/pages/a1a2a3a4b1b2c1c2d1d2d3d4d5d6d7d8/translated"
    );
}

#[test]
fn image_paths_keep_leading_zeros() {
    assert_eq!(
        get_source_image_path(1),
        "./data/pages/00000000000000000000000000000001/source"
    );
    assert_ne!(get_source_image_path(1), get_source_image_path(16));
    assert_ne!(get_source_image_path(7), get_translated_image_path(7));
}
