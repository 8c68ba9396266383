use image_browser::image_pathes_domain::{is_image_path, ImagePathes};
use image_browser::types::{ImageBuf, ImageTraitKind, ZoomFactor};

/// The listing of a directory with five recognized images and two other
/// files.
fn listing() -> Vec<String> {
    vec![
        "contents/a.png".to_string(),
        "contents/b.jpg".to_string(),
        "contents/c.tga".to_string(),
        "contents/d.webp".to_string(),
        "contents/e.png".to_string(),
        "contents/readme.txt".to_string(),
        "contents/clip.gif".to_string(),
    ]
}

#[test]
fn test_image_path() {
    let mut img_pathes = ImagePathes::new();
    img_pathes.collect_images_from_path(&listing());
    assert_eq!(img_pathes.get_image_nums(), 5);
}

#[test]
fn collect_keeps_listing_order() {
    let mut img_pathes = ImagePathes::new();
    img_pathes.collect_images_from_path(&listing());
    assert_eq!(img_pathes.current_index(), 0);
    assert_eq!(img_pathes.current_path().unwrap(), "contents/a.png");
    img_pathes.next();
    assert_eq!(img_pathes.current_path().unwrap(), "contents/b.jpg");
}

#[test]
fn extension_match_is_case_sensitive_and_exact() {
    assert!(is_image_path("a.png"));
    assert!(is_image_path("dir/photo.webp"));
    assert!(is_image_path("x.jpg"));
    assert!(is_image_path("x.tga"));
    assert!(!is_image_path("a.PNG"));
    assert!(!is_image_path("a.jpeg"));
    assert!(!is_image_path("noext"));
    assert!(!is_image_path("a.png.txt"));
    // A file named only ".png" has no extension; neither does one inside a
    // directory.
    assert!(!is_image_path(".png"));
    assert!(!is_image_path("dir/.png"));
    // A dot earlier in the name does not matter.
    assert!(is_image_path("archive.tar.png"));
}

#[test]
fn rebuild_discards_previous_state() {
    let mut img_pathes = ImagePathes::new();
    img_pathes.collect_images_from_path(&listing());
    img_pathes.next();
    img_pathes.set_curimage_factor(ZoomFactor::new(200));
    // Re-pasting the same directory starts over: cursor at 0, zoom default.
    img_pathes.collect_images_from_path(&listing());
    assert_eq!(img_pathes.current_index(), 0);
    img_pathes.next();
    assert_eq!(img_pathes.get_curimage_factor().get(), 100);
}

#[test]
fn decode_results_are_cached_per_cursor() {
    let mut img_pathes = ImagePathes::new();
    img_pathes.collect_images_from_path(&listing());
    // Nothing decoded yet: absent.
    assert!(img_pathes.get_image().is_none());
    img_pathes.store_decoded(Some(ImageBuf::new(8, 8, vec![0u8; 256])));
    assert_eq!(img_pathes.get_image().unwrap().width, 8);
    // Moving the cursor drops the decoded image.
    img_pathes.next();
    assert!(img_pathes.get_image().is_none());
    // A failed decode stays absent.
    img_pathes.store_decoded(None);
    assert!(img_pathes.get_image().is_none());
}

#[test]
fn empty_pathes_domain_is_inert() {
    let mut img_pathes = ImagePathes::new();
    img_pathes.collect_images_from_path(&Vec::new());
    assert_eq!(img_pathes.get_image_nums(), 0);
    img_pathes.next();
    img_pathes.previous();
    assert_eq!(img_pathes.current_index(), 0);
    assert!(img_pathes.current_path().is_none());
    assert!(img_pathes.get_image().is_none());
    assert_eq!(img_pathes.get_curimage_factor().get(), 100);
}

#[test]
fn pathes_domain_kind_is_text() {
    let img_pathes = ImagePathes::new();
    assert_eq!(img_pathes.kind(), ImageTraitKind::Text);
}
