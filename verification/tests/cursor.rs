use squarepad::cursor::Cursor;
use squarepad::editor::{Editor, ToolType};
use squarepad::pages::Pages;
use squarepad::platform::{DrawCommand, Event, Request};
use squarepad::position::Position;
use squarepad::rect::{Color, Rect};

/// The page's corner is at (100, 50) on the screen of this camera.
fn camera() -> Rect {
    Rect::new(-100, 150, 1500, 900)
}

/// A point of the screen in the cell of column `col` and row `row`.
fn at(col: i32, row: i32) -> (i32, i32) {
    (100 + col * 30 + 7, 50 + row * 30 + 11)
}

fn down(col: i32, row: i32) -> Event {
    let (x, y) = at(col, row);
    Event::MouseButtonDown { x, y }
}

fn up(col: i32, row: i32) -> Event {
    let (x, y) = at(col, row);
    Event::MouseButtonUp { x, y }
}

fn text_editor() -> Editor {
    let mut e = Editor::new(Pages::new((42, 59)));
    e.set_tool(ToolType::Text);
    e
}

#[test]
fn new_cursor() {
    let c = Cursor::new();
    assert_eq!(c.position(), Position::FreeOnScreen(0, 0));
    assert_eq!(c.page_square(), None);
    assert_eq!(c.click_square(), None);
}

#[test]
fn motion_resolves_the_cell_under_the_pointer() {
    let mut e = text_editor();
    let mut c = Cursor::new();
    let (x, y) = at(2, 3);
    assert!(matches!(c.handle_event(&Event::MouseMotion { x, y }, camera(), &mut e), Request::Nothing));
    assert_eq!(c.position(), Position::FreeOnScreen(x, y));
    let ps = c.page_square().unwrap();
    assert_eq!((ps.page, ps.square), (0, (2, 3)));
    assert_eq!(ps.position, Position::FreeOnWorld(60, 290));
    c.handle_event(&Event::MouseMotion { x: 5, y: 5 }, camera(), &mut e);
    assert_eq!(c.page_square(), None);
    assert!(e.marks().is_empty());
}

#[test]
fn click_in_one_cell_fires_once() {
    let mut e = text_editor();
    let mut c = Cursor::new();
    assert!(matches!(c.handle_event(&down(2, 3), camera(), &mut e), Request::Nothing));
    assert_eq!(c.click_square().unwrap().square, (2, 3));
    assert!(e.marks().is_empty());
    assert!(matches!(c.handle_event(&up(2, 3), camera(), &mut e), Request::StartTextInput));
    assert_eq!(e.marks().len(), 1);
    assert_eq!(e.marks()[0].page_square().square, (2, 3));
    assert_eq!(e.marks()[0].page_square().page, 0);
    assert_eq!(c.click_square(), None);
    // the button coming up again completes nothing
    assert!(matches!(c.handle_event(&up(2, 3), camera(), &mut e), Request::Nothing));
    assert_eq!(e.marks().len(), 1);
}

#[test]
fn drag_to_another_cell_is_no_click() {
    let mut e = text_editor();
    let mut c = Cursor::new();
    c.handle_event(&down(2, 3), camera(), &mut e);
    assert!(matches!(c.handle_event(&up(2, 4), camera(), &mut e), Request::Nothing));
    assert!(e.marks().is_empty());
    assert_eq!(c.click_square(), None);
}

#[test]
fn click_that_leaves_or_enters_the_page_is_no_click() {
    let mut e = text_editor();
    let mut c = Cursor::new();
    c.handle_event(&down(2, 3), camera(), &mut e);
    assert!(matches!(
        c.handle_event(&Event::MouseButtonUp { x: 5, y: 5 }, camera(), &mut e),
        Request::Nothing
    ));
    c.handle_event(&Event::MouseButtonDown { x: 5, y: 5 }, camera(), &mut e);
    assert_eq!(c.click_square(), None);
    assert!(matches!(c.handle_event(&up(2, 3), camera(), &mut e), Request::Nothing));
    c.handle_event(&Event::MouseButtonDown { x: 5, y: 5 }, camera(), &mut e);
    c.handle_event(&Event::MouseButtonUp { x: 5, y: 5 }, camera(), &mut e);
    assert!(e.marks().is_empty());
}

#[test]
fn click_with_the_move_tool_reaches_the_editor_but_places_nothing() {
    let mut e = Editor::new(Pages::new((42, 59)));
    let mut c = Cursor::new();
    c.handle_event(&down(2, 3), camera(), &mut e);
    assert!(matches!(c.handle_event(&up(2, 3), camera(), &mut e), Request::Nothing));
    assert!(e.marks().is_empty());
}

#[test]
fn click_on_the_second_page() {
    let mut e = text_editor();
    e.add_page();
    let mut c = Cursor::new();
    let cam = Rect::new(0, 2028, 1500, 900);
    // the second page starts at 2228 in the world, 200 on this screen
    c.handle_event(&Event::MouseButtonDown { x: 31, y: 200 + 61 }, cam, &mut e);
    c.handle_event(&Event::MouseButtonUp { x: 59, y: 200 + 89 }, cam, &mut e);
    assert_eq!(e.marks().len(), 1);
    let ps = e.marks()[0].page_square();
    assert_eq!((ps.page, ps.square), (1, (1, 2)));
    assert_eq!(ps.position, Position::FreeOnWorld(30, 2228 + 60));
}

#[test]
fn other_events_leave_the_cursor_alone() {
    let mut e = text_editor();
    let mut c = Cursor::new();
    c.handle_event(&down(2, 3), camera(), &mut e);
    for event in [Event::Quit, Event::Other, Event::MouseWheel { y: 3 }] {
        assert!(matches!(c.handle_event(&event, camera(), &mut e), Request::Nothing));
    }
    assert_eq!(c.click_square().unwrap().square, (2, 3));
    let (x, y) = at(9, 9);
    c.handle_event(&Event::MouseMotion { x, y }, camera(), &mut e);
    assert_eq!(c.click_square().unwrap().square, (2, 3));
    assert_eq!(c.page_square().unwrap().square, (9, 9));
}

#[test]
fn cursor_highlights_its_cell() {
    let mut e = text_editor();
    let mut c = Cursor::new();
    let (x, y) = at(2, 3);
    c.handle_event(&Event::MouseMotion { x, y }, camera(), &mut e);
    let cmds = c.draw(e.get_pages(), camera());
    assert_eq!(cmds.len(), 5);
    let shade = Color::rgba(0, 0, 0, 50);
    let expect = [
        (Position::FreeOnWorld(60, 200), (29, 90)),
        (Position::FreeOnWorld(0, 290), (60, 29)),
        (Position::FreeOnWorld(60, 320), (29, 1828 - 90 - 29)),
        (Position::FreeOnWorld(90, 290), (1301 - 60 - 29, 29)),
    ];
    match &cmds[0] {
        DrawCommand::Outline { position, thickness, size, color } => {
            assert_eq!(*position, Position::FreeOnWorld(60, 290));
            assert_eq!(*thickness, 2);
            assert_eq!(*size, (30, 30));
            assert_eq!(*color, Color::black());
        }
        _ => panic!("not an outline"),
    }
    for (cmd, (p, s)) in cmds[1..].iter().zip(expect) {
        match cmd {
            DrawCommand::Fill { position, size, color } => {
                assert_eq!((*position, *size, *color), (p, s, shade));
            }
            _ => panic!("not a fill"),
        }
    }
}

#[test]
fn cursor_off_the_pages_draws_nothing() {
    let e = text_editor();
    let c = Cursor::new();
    assert!(c.draw(e.get_pages(), camera()).is_empty());
}

#[test]
fn cursor_in_the_last_strip_of_a_page_has_no_shade_below() {
    let mut e = text_editor();
    let mut c = Cursor::new();
    // 1810 pixels down the page: row 60 of cells of 30, with 28 pixels left
    c.handle_event(&Event::MouseMotion { x: 100 + 7, y: 50 + 1810 }, camera(), &mut e);
    assert_eq!(c.page_square(), None);
    let cmds = c.draw(e.get_pages(), camera());
    assert_eq!(cmds.len(), 4);
}
