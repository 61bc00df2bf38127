use doco::Viewport;

fn assert_send<T: Send>() {}
fn assert_sync<T: Sync>() {}
fn assert_unpin<T: Unpin>() {}

#[test]
fn new_stores_dimensions() {
    let vp = Viewport::new(1280, 720);
    assert_eq!(vp.width(), 1280);
    assert_eq!(vp.height(), 720);
}

#[test]
fn viewport_trait_send() {
    assert_send::<Viewport>();
}

#[test]
fn viewport_trait_sync() {
    assert_sync::<Viewport>();
}

#[test]
fn viewport_trait_unpin() {
    assert_unpin::<Viewport>();
}

#[test]
fn viewport_keeps_extreme_dimensions() {
    let vp = Viewport::new(0, u32::MAX);
    assert_eq!(vp.width(), 0);
    assert_eq!(vp.height(), u32::MAX);
}

#[test]
fn viewports_with_equal_dimensions_are_equal() {
    assert_eq!(Viewport::new(800, 600), Viewport::new(800, 600));
    assert_ne!(Viewport::new(800, 600), Viewport::new(600, 800));
}
