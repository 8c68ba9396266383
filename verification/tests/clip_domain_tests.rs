use image_browser::image_clips_domains::ImageClipDomain;
use image_browser::types::{ImageBuf, ImageTraitKind, PasteItem, ZoomFactor};

/// A small stand-in image.
fn dummy_image() -> ImageBuf {
    ImageBuf::new(2, 2, vec![0u8; 16])
}

#[test]
fn test_new() {
    let domain = ImageClipDomain::new();
    assert_eq!(domain.get_image_nums(), 0);
    assert_eq!(domain.current_index(), 0);
}

#[test]
fn test_paste_and_get_image() {
    let mut domain = ImageClipDomain::new();
    let img = dummy_image();
    let paste_item = PasteItem::Image(img.clone());
    domain.pasete(paste_item);
    assert_eq!(domain.get_image_nums(), 1);
    let got = domain.get_image().unwrap();
    assert_eq!(got.width, img.width);
    assert_eq!(got.height, img.height);
}

#[test]
fn test_next_and_previous() {
    let mut domain = ImageClipDomain::new();
    for _ in 0..3 {
        let img = dummy_image();
        domain.pasete(PasteItem::Image(img));
    }
    let initial_index = domain.current_index();
    domain.next();
    assert_eq!(domain.current_index(), (initial_index + 1) % 3);
    domain.previous();
    assert_eq!(domain.current_index(), initial_index);
}

#[test]
fn test_kind() {
    let domain = ImageClipDomain::new();
    assert_eq!(domain.kind(), ImageTraitKind::Image);
}

#[test]
fn empty_clip_domain_is_inert() {
    let mut domain = ImageClipDomain::new();
    domain.next();
    assert_eq!(domain.current_index(), 0);
    domain.previous();
    assert_eq!(domain.current_index(), 0);
    assert!(domain.get_image().is_none());
    assert_eq!(domain.get_curimage_factor().get(), 100);
    domain.set_curimage_factor(ZoomFactor::new(150));
    assert_eq!(domain.get_curimage_factor().get(), 100);
}

#[test]
fn paste_appends_and_selects_newest() {
    let mut domain = ImageClipDomain::new();
    domain.pasete(PasteItem::Image(ImageBuf::new(10, 1, vec![0u8; 40])));
    domain.pasete(PasteItem::Image(ImageBuf::new(20, 1, vec![0u8; 80])));
    assert_eq!(domain.get_image_nums(), 2);
    assert_eq!(domain.current_index(), 1);
    assert_eq!(domain.get_image().unwrap().width, 20);
}

#[test]
fn pasted_text_is_ignored_by_clip_domain() {
    let mut domain = ImageClipDomain::new();
    domain.pasete(PasteItem::Image(dummy_image()));
    domain.pasete(PasteItem::Text("somewhere/".to_string()));
    assert_eq!(domain.get_image_nums(), 1);
    assert_eq!(domain.current_index(), 0);
}

#[test]
fn navigation_wraps_both_ways() {
    let mut domain = ImageClipDomain::new();
    for _ in 0..3 {
        domain.pasete(PasteItem::Image(dummy_image()));
    }
    assert_eq!(domain.current_index(), 2);
    domain.next();
    assert_eq!(domain.current_index(), 0);
    domain.previous();
    assert_eq!(domain.current_index(), 2);
}

#[test]
fn zoom_sticks_to_its_image() {
    let mut domain = ImageClipDomain::new();
    for _ in 0..4 {
        domain.pasete(PasteItem::Image(dummy_image()));
    }
    // Walk back to index 2, zoom it, wander off, come back.
    domain.previous();
    assert_eq!(domain.current_index(), 2);
    domain.set_curimage_factor(ZoomFactor::new(150));
    domain.next();
    domain.next();
    domain.previous();
    domain.previous();
    assert_eq!(domain.current_index(), 2);
    assert_eq!(domain.get_curimage_factor().get(), 150);
    // Index 3 was never touched: default zoom.
    domain.next();
    assert_eq!(domain.current_index(), 3);
    assert_eq!(domain.get_curimage_factor().get(), 100);
}
