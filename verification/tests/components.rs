use squarepad::components::AppComponents;
use squarepad::editor::{Editor, ToolType};
use squarepad::mark::Mark;
use squarepad::pages::{PageStyle, Pages};
use squarepad::platform::{DrawCommand, Event, Keycode, Mod, Reply, Request};
use squarepad::position::Position;
use squarepad::rect::{Color, Rect};
use squarepad::renderer::Renderer;
use squarepad::setup::{add_page_button, remove_page_button, setup_bottom_menu, setup_tool_menu};

const SCREEN: (u32, u32) = (1600, 900);

/// The page's corner is at (150, 50) on the screen of this camera.
fn camera() -> Rect {
    Rect::new(-150, 150, 1600, 900)
}

fn components() -> AppComponents {
    let tool = (300, 100);
    AppComponents::new(
        Editor::new(Pages::new((42, 59))),
        setup_bottom_menu(SCREEN.0, (120, 30), (90, 30)),
        setup_tool_menu(&[tool, tool, tool, tool, tool, tool]).unwrap(),
        add_page_button((300, 100)),
        remove_page_button((300, 100)),
    )
}

/// Sends `event` and answers what is asked as a platform would whose font
/// makes every character ten pixels wide. Returns how often the capture
/// of composed text was started and stopped.
fn send(ac: &mut AppComponents, event: Event) -> (usize, usize) {
    assert!(ac.is_placed(SCREEN));
    let (mut starts, mut stops) = (0, 0);
    for request in ac.handle_event(&event, camera(), SCREEN).unwrap() {
        let mut request = request;
        loop {
            request = match request {
                Request::Nothing => break,
                Request::StartTextInput => {
                    starts += 1;
                    break;
                }
                Request::StopTextInput => {
                    stops += 1;
                    break;
                }
                Request::ReadClipboard => {
                    ac.editor.reply(Reply::Clipboard("clip".to_string())).unwrap()
                }
                Request::Measure(m) => {
                    let width = 10 * m.text.chars().count() as u32;
                    ac.editor.reply(Reply::Overflow(width > m.max_width)).unwrap()
                }
                Request::Render(r) => {
                    let width = 10 * r.text.chars().count() as u32;
                    ac.editor.reply(Reply::Rendered(width, 31)).unwrap()
                }
            }
        }
    }
    (starts, stops)
}

fn click(ac: &mut AppComponents, x: i32, y: i32) -> (usize, usize) {
    let down = send(ac, Event::MouseButtonDown { x, y });
    let up = send(ac, Event::MouseButtonUp { x, y });
    (down.0 + up.0, down.1 + up.1)
}

/// A point of the screen on the button in slot `slot` of the tool menu.
fn tool_button(slot: i32) -> (i32, i32) {
    (1600 - 180 + 5, 120 + 120 * slot + 5)
}

fn lines(ac: &AppComponents, i: usize) -> Vec<String> {
    match &ac.editor.marks()[i] {
        Mark::TextBox(t) => t.lines().clone(),
    }
}

#[test]
fn a_whole_session_of_typing() {
    let mut ac = components();
    // select the text tool
    let (x, y) = tool_button(1);
    assert_eq!(click(&mut ac, x, y), (0, 0));
    assert_eq!(ac.editor.get_tool(), ToolType::Text);
    // click the cell in column 2 and row 3 of the page
    assert_eq!(click(&mut ac, 150 + 65, 50 + 95), (1, 0));
    assert_eq!(ac.editor.marks().len(), 1);
    assert_eq!(ac.editor.marks()[0].page_square().square, (2, 3));
    // type, break the line, paste, delete
    send(&mut ac, Event::TextInput { text: "ab".to_string() });
    send(
        &mut ac,
        Event::KeyDown { keycode: Some(Keycode::Return), keymod: Mod { lctrl: false, rctrl: false } },
    );
    send(
        &mut ac,
        Event::KeyDown { keycode: Some(Keycode::V), keymod: Mod { lctrl: false, rctrl: true } },
    );
    send(
        &mut ac,
        Event::KeyDown {
            keycode: Some(Keycode::Backspace),
            keymod: Mod { lctrl: false, rctrl: false },
        },
    );
    assert_eq!(lines(&ac, 0), vec!["ab".to_string(), "cli".to_string()]);
    // select the move tool: the capture stops once
    let (x, y) = tool_button(0);
    assert_eq!(click(&mut ac, x, y), (0, 1));
    assert_eq!(ac.editor.get_tool(), ToolType::Move);
    send(&mut ac, Event::TextInput { text: "cd".to_string() });
    assert_eq!(lines(&ac, 0), vec!["ab".to_string(), "cli".to_string()]);
    // select another tool from there: nothing stops
    let (x, y) = tool_button(4);
    assert_eq!(click(&mut ac, x, y), (0, 0));
    assert_eq!(ac.editor.get_tool(), ToolType::Math);
}

#[test]
fn the_request_of_the_editor_is_the_second() {
    let mut ac = components();
    let (x, y) = tool_button(1);
    click(&mut ac, x, y);
    click(&mut ac, 150 + 65, 50 + 95);
    let requests = ac
        .handle_event(&Event::TextInput { text: "ab".to_string() }, camera(), SCREEN)
        .unwrap();
    // the cursor, the editor, two buttons of the bottom menu, six tools,
    // and the two page buttons
    assert_eq!(requests.len(), 12);
    assert!(matches!(requests[0], Request::Nothing));
    assert!(matches!(requests[1], Request::Measure(_)));
    assert!(requests[2..].iter().all(|r| matches!(r, Request::Nothing)));
    assert!(matches!(ac.editor.outstanding(), Request::Measure(_)));
}

#[test]
fn page_and_style_buttons_reach_the_editor() {
    let mut ac = components();
    // the button that adds a page is at (1380, 760), the other at (1480, 760)
    click(&mut ac, 1390, 770);
    click(&mut ac, 1390, 770);
    assert_eq!(ac.editor.get_pages().pages(), 3);
    click(&mut ac, 1490, 770);
    assert_eq!(ac.editor.get_pages().pages(), 2);
    // the bottom menu's buttons are at (30, 870) and (100, 870)
    click(&mut ac, 35, 875);
    assert_eq!(ac.editor.get_pages().style(), PageStyle::BeigeSquared);
    click(&mut ac, 105, 875);
    assert_eq!(ac.editor.get_pages().style(), PageStyle::BeigePlain);
}

#[test]
fn a_button_in_the_world_fails_events_of_the_pointer() {
    let mut ac = components();
    ac.add_page_button.set_position(Position::FreeOnWorld(0, 0));
    assert!(ac.is_placed(SCREEN));
    assert_eq!(
        ac.handle_event(&Event::MouseMotion { x: 1, y: 1 }, camera(), SCREEN).map(|_| ()),
        Err("Cannot convert free on-world position to free on-screen position, without camera."
            .to_string())
    );
    assert!(ac.handle_event(&Event::TextInput { text: "a".to_string() }, camera(), SCREEN).is_ok());
}

#[test]
fn the_cursor_follows_the_pointer() {
    let mut ac = components();
    send(&mut ac, Event::MouseMotion { x: 150 + 65, y: 50 + 95 });
    assert_eq!(ac.cursor.position(), Position::FreeOnScreen(215, 145));
    assert_eq!(ac.cursor.page_square().unwrap().square, (2, 3));
}

#[test]
fn a_frame_is_drawn_bottom_to_top() {
    let mut ac = components();
    let (x, y) = tool_button(1);
    click(&mut ac, x, y);
    click(&mut ac, 150 + 65, 50 + 95);
    send(&mut ac, Event::TextInput { text: "ab".to_string() });
    send(&mut ac, Event::MouseMotion { x: 150 + 65, y: 50 + 95 });
    assert!(ac.can_draw());
    let mut view = Renderer::new(SCREEN, 30);
    view.set_camera(camera());
    let cmds = ac.draw(&mut view);
    // the frame sets the scrolling range: one page and padding, less the window
    assert_eq!(view.scroll_max(), 1828 + 400 - 900);
    assert_eq!(view.camera(), camera());
    // one page, one line, the cursor, two menus with two and six buttons,
    // two buttons, one frame
    assert_eq!(cmds.len(), 2 + 1 + 5 + (2 + 2) + (2 + 6) + 2 + 1);
    assert!(matches!(cmds[0], DrawCommand::Fill { .. }));
    match &cmds[1] {
        DrawCommand::Texture { id, .. } => assert_eq!(*id, ac.editor.get_pages().id()),
        _ => panic!("not a texture"),
    }
    match &cmds[2] {
        DrawCommand::Texture { position, size, .. } => {
            assert_eq!(*position, Position::FreeOnWorld(60, 290));
            assert_eq!(*size, (20, 31));
        }
        _ => panic!("not a texture"),
    }
    assert!(matches!(cmds[3], DrawCommand::Outline { thickness: 2, .. }));
    match &cmds[8] {
        DrawCommand::Fill { position, .. } => {
            assert_eq!(*position, Position::AnchoredLeftBottom(-1, 31))
        }
        _ => panic!("not a fill"),
    }
    match &cmds[12] {
        DrawCommand::Fill { position, .. } => {
            assert_eq!(*position, Position::AnchoredRightTop(203, 97))
        }
        _ => panic!("not a fill"),
    }
    match &cmds[20] {
        DrawCommand::Texture { id, position, .. } => {
            assert_eq!(*id, ac.add_page_button.id());
            assert_eq!(*position, Position::AnchoredRightBottom(220, 140));
        }
        _ => panic!("not a texture"),
    }
    // the frame is around the text tool, the second from the top
    match &cmds[22] {
        DrawCommand::Outline { position, thickness, size, color } => {
            assert_eq!(*position, Position::AnchoredRightTop(181, 239));
            assert_eq!(*thickness, 3);
            assert_eq!(*size, (102, 102));
            assert_eq!(*color, Color::black());
        }
        _ => panic!("not an outline"),
    }
}

#[test]
fn every_frame_follows_the_number_of_pages() {
    let mut ac = components();
    let mut view = Renderer::new(SCREEN, 30);
    ac.draw(&mut view);
    assert_eq!(view.scroll_max(), 1328);
    // the button that adds a page is at (1380, 760)
    click(&mut ac, 1390, 770);
    ac.draw(&mut view);
    assert_eq!(view.scroll_max(), 1328 + 2028);
    click(&mut ac, 1490, 770);
    ac.draw(&mut view);
    assert_eq!(view.scroll_max(), 1328);
}
