use squarepad::pages::Pages;
use squarepad::platform::Event;
use squarepad::rect::Rect;
use squarepad::renderer::Renderer;

#[test]
fn new_renderer_shows_the_origin() {
    let r = Renderer::new((800, 600), 30);
    assert_eq!(r.camera(), Rect::new(0, 0, 800, 600));
    assert_eq!(r.dimensions(), (800, 600));
    assert_eq!(r.scroll_max(), 0);
}

#[test]
fn scroll_moves_by_the_step_against_the_wheel() {
    let mut r = Renderer::new((800, 600), 62);
    r.set_scroll_max(5000);
    r.scroll(-3);
    assert_eq!(r.camera(), Rect::new(0, 186, 800, 600));
    r.scroll(1);
    assert_eq!(r.camera().y, 124);
    r.scroll(0);
    assert_eq!(r.camera().y, 124);
}

#[test]
fn scroll_is_clamped_to_the_range() {
    let mut r = Renderer::new((800, 600), 31);
    r.set_scroll_max(500);
    // down, far beyond the range
    r.scroll(-100);
    assert_eq!(r.camera().y, 500);
    // up again, far beyond the top
    r.scroll(100);
    assert_eq!(r.camera().y, 0);
    // up from the top stays at the top
    r.scroll(100);
    assert_eq!(r.camera().y, 0);
    r.scroll(-16);
    assert_eq!(r.camera().y, 496);
    r.scroll(-1);
    assert_eq!(r.camera().y, 500);
}

#[test]
fn scroll_with_extreme_arguments() {
    let mut r = Renderer::new((800, 600), u32::MAX);
    r.set_scroll_max(i32::MAX);
    r.scroll(i32::MIN);
    assert_eq!(r.camera().y, i32::MAX);
    r.scroll(i32::MAX);
    assert_eq!(r.camera().y, 0);
}

#[test]
fn shrinking_the_range_takes_effect_at_the_next_scroll() {
    let mut r = Renderer::new((800, 600), 62);
    r.set_scroll_max(1000);
    r.scroll(-10);
    assert_eq!(r.camera().y, 620);
    r.set_scroll_max(300);
    assert_eq!(r.camera().y, 620);
    r.scroll(0);
    assert_eq!(r.camera().y, 300);
}

#[test]
fn resize_centres_the_pages() {
    let mut r = Renderer::new((800, 600), 62);
    r.set_scroll_max(1000);
    r.scroll(-2);
    r.on_resize(1000, 700, 1301);
    assert_eq!(r.camera(), Rect::new(150, 124, 1000, 700));
    assert_eq!(r.dimensions(), (1000, 700));
    // a window wider than the pages: half the difference, toward zero
    r.on_resize(1618, 900, 1301);
    assert_eq!(r.camera(), Rect::new(-158, 124, 1618, 900));
    r.on_resize(1302, 900, 1301);
    assert_eq!(r.camera().x, 0);
}

#[test]
fn set_camera_replaces_the_camera() {
    let mut r = Renderer::new((800, 600), 62);
    r.set_camera(Rect::new(5, 6, 7, 8));
    assert_eq!(r.camera(), Rect::new(5, 6, 7, 8));
    assert_eq!(r.dimensions(), (800, 600));
}

#[test]
fn renderer_takes_resize_and_wheel_and_leaves_the_rest() {
    let mut r = Renderer::new((800, 600), 30);
    r.set_scroll_max(1000);
    assert!(r.handle_event(&Event::MouseWheel { y: -2 }, 1301));
    assert_eq!(r.camera(), Rect::new(0, 60, 800, 600));
    assert!(r.handle_event(&Event::Resized { width: 1000, height: 700 }, 1301));
    assert_eq!(r.camera(), Rect::new(150, 60, 1000, 700));
    assert_eq!(r.dimensions(), (1000, 700));
    for event in [
        Event::Quit,
        Event::Other,
        Event::MouseMotion { x: 1, y: 2 },
        Event::MouseButtonDown { x: 1, y: 2 },
        Event::TextInput { text: "a".to_string() },
    ] {
        assert!(!r.handle_event(&event, 1301));
        assert_eq!(r.camera(), Rect::new(150, 60, 1000, 700));
    }
}

#[test]
fn scrolling_range_follows_the_pages() {
    let mut pages = Pages::new((42, 59));
    let mut r = Renderer::new((800, 900), 30);
    r.fit_scroll_max(&pages);
    assert_eq!(r.scroll_max(), 1828 + 400 - 900);
    pages.add_page();
    r.fit_scroll_max(&pages);
    assert_eq!(r.scroll_max(), 2 * 1828 + 200 + 400 - 900);
    r.scroll(-1000);
    assert_eq!(r.camera().y, 3356);
    pages.remove_page();
    r.fit_scroll_max(&pages);
    r.scroll(0);
    assert_eq!(r.camera().y, 1328);
    let mut tall = Renderer::new((800, 5000), 30);
    tall.fit_scroll_max(&pages);
    assert_eq!(tall.scroll_max(), 0);
}
