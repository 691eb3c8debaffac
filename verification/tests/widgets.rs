use squarepad::button::{Action, Button, ButtonState};
use squarepad::editor::ToolType;
use squarepad::font::{font_key, push_decimal, text_clip, texture_slot, Slot};
use squarepad::menu::{Menu, MenuAlignment};
use squarepad::platform::{DrawCommand, Event, FontStyle};
use squarepad::position::Position;
use squarepad::rect::{Color, Rect};
use squarepad::renderer::Renderer;
use squarepad::setup::{
    add_page_button, remove_page_button, setup_bottom_menu, setup_tool_menu,
};

const SCREEN: (u32, u32) = (800, 600);

fn button() -> Button {
    // at (580, 460) on the screen, 100 by 100
    let mut b = Button::new(Position::AnchoredRightBottom(220, 140), (300, 100));
    b.set_on_click(Action::AddPage);
    b
}

fn motion(x: i32, y: i32) -> Event {
    Event::MouseMotion { x, y }
}

fn down(x: i32, y: i32) -> Event {
    Event::MouseButtonDown { x, y }
}

fn up(x: i32, y: i32) -> Event {
    Event::MouseButtonUp { x, y }
}

#[test]
fn button_is_a_third_of_its_image_wide() {
    let b = Button::new(Position::FreeOnScreen(1, 2), (301, 50));
    assert_eq!((b.width(), b.height()), (100, 50));
    assert_eq!(b.position(), Position::FreeOnScreen(1, 2));
    assert_eq!(b.state(), ButtonState::Off);
}

#[test]
fn button_contains_its_left_and_top_edges_only() {
    let b = button();
    assert_eq!(b.contains_point(580, 460, SCREEN), Ok(true));
    assert_eq!(b.contains_point(679, 559, SCREEN), Ok(true));
    assert_eq!(b.contains_point(680, 500, SCREEN), Ok(false));
    assert_eq!(b.contains_point(600, 560, SCREEN), Ok(false));
    assert_eq!(b.contains_point(579, 500, SCREEN), Ok(false));
    assert_eq!(b.contains_point(600, 459, SCREEN), Ok(false));
}

#[test]
fn button_in_the_world_has_no_place_on_the_screen() {
    let mut b = Button::new(Position::FreeOnWorld(0, 0), (300, 100));
    let message =
        "Cannot convert free on-world position to free on-screen position, without camera.";
    assert_eq!(b.contains_point(1, 1, SCREEN), Err(message.to_string()));
    assert_eq!(b.handle_event(&motion(1, 1), SCREEN), Err(message.to_string()));
    assert_eq!(b.state(), ButtonState::Off);
    assert_eq!(b.handle_event(&Event::Quit, SCREEN), Ok(Action::Nothing));
}

#[test]
fn button_hovers_clicks_and_fires() {
    let mut b = button();
    assert_eq!(b.handle_event(&motion(600, 500), SCREEN), Ok(Action::Nothing));
    assert_eq!(b.state(), ButtonState::Hover);
    assert_eq!(b.handle_event(&motion(10, 10), SCREEN), Ok(Action::Nothing));
    assert_eq!(b.state(), ButtonState::Off);
    assert_eq!(b.handle_event(&down(600, 500), SCREEN), Ok(Action::Nothing));
    assert_eq!(b.state(), ButtonState::Clicked);
    // while clicked the button does not follow the pointer
    assert_eq!(b.handle_event(&motion(10, 10), SCREEN), Ok(Action::Nothing));
    assert_eq!(b.state(), ButtonState::Clicked);
    assert_eq!(b.handle_event(&up(600, 500), SCREEN), Ok(Action::AddPage));
    assert_eq!(b.state(), ButtonState::Hover);
    // a button coming up without a click fires nothing
    assert_eq!(b.handle_event(&up(600, 500), SCREEN), Ok(Action::Nothing));
    assert_eq!(b.state(), ButtonState::Off);
}

#[test]
fn button_released_elsewhere_does_not_fire() {
    let mut b = button();
    b.handle_event(&down(600, 500), SCREEN).unwrap();
    assert_eq!(b.handle_event(&up(10, 10), SCREEN), Ok(Action::Nothing));
    assert_eq!(b.state(), ButtonState::Off);
    // a button going down elsewhere leaves the state
    b.handle_event(&motion(600, 500), SCREEN).unwrap();
    assert_eq!(b.handle_event(&down(10, 10), SCREEN), Ok(Action::Nothing));
    assert_eq!(b.state(), ButtonState::Hover);
}

#[test]
fn button_draws_the_texture_of_its_state() {
    let mut b = button();
    let check = |b: &Button, expected: usize| match b.draw() {
        DrawCommand::Texture { id, index, position, size } => {
            assert_eq!(id, b.id());
            assert_eq!(index, expected);
            assert_eq!(position, Position::AnchoredRightBottom(220, 140));
            assert_eq!(size, (100, 100));
        }
        _ => panic!("not a texture"),
    };
    check(&b, 0);
    b.handle_event(&motion(600, 500), SCREEN).unwrap();
    check(&b, 1);
    b.handle_event(&down(600, 500), SCREEN).unwrap();
    check(&b, 2);
    assert_eq!(ButtonState::Off.index(), 0);
    assert_eq!(ButtonState::Hover.index(), 1);
    assert_eq!(ButtonState::Clicked.index(), 2);
}

fn tool_menu() -> Menu {
    let mut m = Menu::new(Position::AnchoredRightTop(200, 100), (140, 740), MenuAlignment::Vertical);
    m.set_border_thickness(3);
    m.set_padding((20, 20));
    for tool in [ToolType::Move, ToolType::Text, ToolType::Line] {
        let mut b = Button::new(Position::FreeOnScreen(0, 0), (300, 100));
        b.set_on_click(Action::SelectTool(tool));
        m.add_button(b);
    }
    m
}

#[test]
fn vertical_menu_stacks_its_buttons() {
    let m = tool_menu();
    assert_eq!(m.position(), Position::AnchoredRightTop(200, 100));
    assert_eq!(m.padding(), (20, 20));
    let places: Vec<Position> = m.buttons().iter().map(|b| b.position()).collect();
    assert_eq!(
        places,
        vec![
            Position::AnchoredRightTop(180, 120),
            Position::AnchoredRightTop(180, 240),
            Position::AnchoredRightTop(180, 360),
        ]
    );
}

#[test]
fn horizontal_menu_lines_up_its_buttons() {
    let mut m = Menu::new(Position::AnchoredLeftBottom(0, 30), (800, 30), MenuAlignment::Horizontal);
    m.set_padding((30, 0));
    m.add_button(Button::new(Position::FreeOnScreen(5, 5), (120, 30)));
    m.add_button(Button::new(Position::FreeOnScreen(5, 5), (90, 30)));
    m.add_button(Button::new(Position::FreeOnScreen(5, 5), (60, 30)));
    let places: Vec<Position> = m.buttons().iter().map(|b| b.position()).collect();
    assert_eq!(
        places,
        vec![
            Position::AnchoredLeftBottom(30, 30),
            Position::AnchoredLeftBottom(100, 30),
            Position::AnchoredLeftBottom(160, 30),
        ]
    );
}

#[test]
fn menu_hands_events_to_its_buttons() {
    let mut m = tool_menu();
    // the second button is at (620, 240) on the screen
    assert_eq!(
        m.handle_button_events(&down(630, 250), SCREEN),
        Ok(vec![Action::Nothing, Action::Nothing, Action::Nothing])
    );
    let states: Vec<ButtonState> = m.buttons().iter().map(|b| b.state()).collect();
    assert_eq!(states, vec![ButtonState::Off, ButtonState::Clicked, ButtonState::Off]);
    assert_eq!(
        m.handle_button_events(&up(630, 250), SCREEN),
        Ok(vec![Action::Nothing, Action::SelectTool(ToolType::Text), Action::Nothing])
    );
    assert_eq!(
        m.handle_button_events(&Event::Quit, SCREEN),
        Ok(vec![Action::Nothing, Action::Nothing, Action::Nothing])
    );
}

#[test]
fn menu_in_the_world_fails_at_its_first_button() {
    let mut m = Menu::new(Position::FreeOnWorld(0, 0), (10, 10), MenuAlignment::Vertical);
    m.add_button(Button::new(Position::FreeOnScreen(0, 0), (300, 100)));
    assert!(m.handle_button_events(&motion(1, 1), SCREEN).is_err());
    assert!(m.handle_button_events(&Event::Other, SCREEN).is_ok());
}

#[test]
fn menu_draws_border_panel_and_buttons() {
    let mut m = tool_menu();
    m.set_color(Color::rgba(1, 2, 3, 4));
    m.set_border_color(Color::rgba(5, 6, 7, 8));
    m.set_size((140, 700));
    let cmds = m.draw();
    assert_eq!(cmds.len(), 5);
    match &cmds[0] {
        DrawCommand::Fill { position, size, color } => {
            // three pixels up and to the left: further from the right edge
            assert_eq!(*position, Position::AnchoredRightTop(203, 97));
            assert_eq!(*size, (146, 706));
            assert_eq!(*color, Color::rgba(5, 6, 7, 8));
        }
        _ => panic!("not a fill"),
    }
    match &cmds[1] {
        DrawCommand::Fill { position, size, color } => {
            assert_eq!(*position, Position::AnchoredRightTop(200, 100));
            assert_eq!(*size, (140, 700));
            assert_eq!(*color, Color::rgba(1, 2, 3, 4));
        }
        _ => panic!("not a fill"),
    }
    match &cmds[3] {
        DrawCommand::Texture { id, index, position, size } => {
            assert_eq!(*id, m.buttons()[1].id());
            assert_eq!(*index, 0);
            assert_eq!(*position, Position::AnchoredRightTop(180, 240));
            assert_eq!(*size, (100, 100));
        }
        _ => panic!("not a texture"),
    }
}

#[test]
fn menu_defaults() {
    let mut m = Menu::new(Position::FreeOnScreen(10, 10), (5, 6), MenuAlignment::Horizontal);
    m.set_position(Position::FreeOnScreen(20, 20));
    let cmds = m.draw();
    match &cmds[0] {
        DrawCommand::Fill { position, size, color } => {
            assert_eq!(*position, Position::FreeOnScreen(17, 17));
            assert_eq!(*size, (11, 12));
            assert_eq!(*color, Color::gray());
        }
        _ => panic!("not a fill"),
    }
    match &cmds[1] {
        DrawCommand::Fill { color, .. } => assert_eq!(*color, Color::white()),
        _ => panic!("not a fill"),
    }
    assert!(m.id() != Menu::new(Position::FreeOnScreen(0, 0), (1, 1), MenuAlignment::Vertical).id());
}

#[test]
fn frame_around_the_selected_tool() {
    let m = tool_menu();
    for (slot, y) in [(0, 119), (1, 239), (5, 719)] {
        match m.selection_frame(slot) {
            DrawCommand::Outline { position, thickness, size, color } => {
                assert_eq!(position, Position::AnchoredRightTop(181, y));
                assert_eq!(thickness, 3);
                assert_eq!(size, (102, 102));
                assert_eq!(color, Color::black());
            }
            _ => panic!("not an outline"),
        }
    }
}

#[test]
fn font_keys() {
    let style = |bold, italic| FontStyle { bold, italic, underline: false, strikethrough: false };
    assert_eq!(font_key("NotoSerif", FontStyle::normal(), 30), "NotoSerif_30");
    assert_eq!(font_key("NotoSerif", style(true, false), 32), "NotoSerif-Bold_32");
    assert_eq!(font_key("NotoSerif", style(false, true), 36), "NotoSerif-Italic_36");
    assert_eq!(font_key("NotoSerif", style(true, true), 72), "NotoSerif-BoldItalic_72");
    assert_eq!(
        font_key("X", FontStyle { bold: false, italic: false, underline: true, strikethrough: true }, 7),
        "X_7"
    );
    assert_eq!(font_key("", FontStyle::normal(), 0), "_0");
    assert_eq!(font_key("a", FontStyle::normal(), u16::MAX), "a_65535");
}

#[test]
fn decimal_digits() {
    for n in [0u16, 9, 10, 99, 100, 101, 1000, 9999, 10000, 40302, 65535] {
        let mut s = "n=".to_string();
        push_decimal(&mut s, n);
        assert_eq!(s, format!("n={}", n));
    }
}

#[test]
fn overflow_is_width_beyond_the_maximum() {
    assert!(!Renderer::text_overflow(100, 100));
    assert!(Renderer::text_overflow(101, 100));
    assert!(!Renderer::text_overflow(0, 0));
    assert!(Renderer::text_overflow(u32::MAX, 0));
    assert!(!Renderer::text_overflow(0, u32::MAX));
}

#[test]
fn rendered_text_is_cut_to_the_baseline() {
    // ascent 32 in cells of 30: three pixels are cut from the top
    assert_eq!(text_clip(120, 32, 41), Some(Rect::new(0, 3, 120, 38)));
    assert_eq!(text_clip(120, 20, 25), Some(Rect::new(0, -9, 120, 34)));
    assert_eq!(text_clip(5, 100, 50), None);
    assert_eq!(text_clip(5, i32::MIN, 0), None);
}

#[test]
fn texture_slots() {
    assert_eq!(texture_slot(3, Some(0)), Slot::Replace(0));
    assert_eq!(texture_slot(3, Some(2)), Slot::Replace(2));
    assert_eq!(texture_slot(3, Some(3)), Slot::Append);
    assert_eq!(texture_slot(3, None), Slot::Append);
    assert_eq!(texture_slot(0, Some(0)), Slot::Append);
}

#[test]
fn renderer_places_positions_of_every_frame() {
    let mut r = Renderer::new(SCREEN, 62);
    r.set_camera(Rect::new(10, 20, 800, 600));
    assert_eq!(r.to_screen(Position::FreeOnWorld(110, 220)), Position::FreeOnScreen(100, 200));
    assert_eq!(r.to_screen(Position::AnchoredRightBottom(220, 140)), Position::FreeOnScreen(580, 460));
    assert_eq!(r.screen_rect(Position::FreeOnWorld(110, 220), (5, 6)), Rect::new(100, 200, 5, 6));
    assert_eq!(r.screen_rect(Position::AnchoredLeftBottom(0, 30), (800, 30)), Rect::new(0, 570, 800, 30));
}

#[test]
fn outline_grows_outward() {
    let r = Renderer::new(SCREEN, 62);
    assert_eq!(
        r.outline(Position::FreeOnScreen(50, 60), 3, (30, 30)),
        vec![Rect::new(50, 60, 30, 30), Rect::new(49, 59, 32, 32), Rect::new(48, 58, 34, 34)]
    );
    assert!(r.outline(Position::FreeOnScreen(50, 60), 0, (30, 30)).is_empty());
    assert!(r.outline(Position::FreeOnScreen(50, 60), -2, (30, 30)).is_empty());
}

#[test]
fn positions_that_fit_and_do_not_fit_the_screen() {
    let cam = Some(Rect::new(-1, 0, 10, 10));
    assert!(Position::FreeOnWorld(5, 5).fits_on_screen(None, cam));
    assert!(!Position::FreeOnWorld(i32::MAX, 5).fits_on_screen(None, cam));
    assert!(Position::AnchoredRightTop(5, 5).fits_on_screen(Some(SCREEN), None));
    assert!(!Position::AnchoredRightTop(5, 5).fits_on_screen(Some((u32::MAX, 5)), None));
    assert_eq!(Position::checked_add(Position::FreeOnScreen(i32::MAX, 0), 1, 0), None);
    assert_eq!(
        Position::checked_add(Position::AnchoredRightBottom(i32::MAX, 0), 1, -1),
        Some(Position::AnchoredRightBottom(i32::MAX - 1, 1))
    );
}

#[test]
fn tool_menu_has_a_button_for_each_tool() {
    let images = [(300, 100), (300, 100), (300, 100), (300, 100), (300, 100), (300, 100)];
    let mut m = setup_tool_menu(&images).unwrap();
    assert_eq!(m.position(), Position::AnchoredRightTop(200, 100));
    assert_eq!(m.padding(), (20, 20));
    assert_eq!(m.buttons().len(), 6);
    for (i, b) in m.buttons().iter().enumerate() {
        assert_eq!(b.position(), Position::AnchoredRightTop(180, 120 + 120 * i as i32));
        assert_eq!((b.width(), b.height()), (100, 100));
        assert_eq!(b.state(), ButtonState::Off);
    }
    // a click on each button selects its tool
    let tools = [
        ToolType::Move,
        ToolType::Text,
        ToolType::Line,
        ToolType::Bullet,
        ToolType::Math,
        ToolType::Code,
    ];
    for (i, tool) in tools.iter().enumerate() {
        let (x, y) = (800 - 180 + 5, 120 + 120 * i as i32 + 5);
        m.handle_button_events(&down(x, y), SCREEN).unwrap();
        let actions = m.handle_button_events(&up(x, y), SCREEN).unwrap();
        assert_eq!(actions[i], Action::SelectTool(*tool));
        assert_eq!(actions.iter().filter(|a| **a != Action::Nothing).count(), 1);
    }
    match &m.draw()[0] {
        DrawCommand::Fill { position, size, color } => {
            assert_eq!(*position, Position::AnchoredRightTop(203, 97));
            assert_eq!(*size, (146, 746));
            assert_eq!(*color, Color::gray());
        }
        _ => panic!("not a fill"),
    }
}

#[test]
fn tool_menu_with_buttons_of_different_heights() {
    let images = [(30, 10), (30, 20), (30, 30), (30, 40), (30, 50), (30, 60)];
    let m = setup_tool_menu(&images).unwrap();
    let places: Vec<i32> = m.buttons().iter().map(|b| b.position().y()).collect();
    assert_eq!(places, vec![120, 150, 190, 240, 300, 370]);
}

#[test]
fn tool_menu_that_the_coordinates_do_not_hold() {
    let tall = (300, 500_000_000);
    assert_eq!(
        setup_tool_menu(&[tall, tall, tall, tall, tall, tall]).map(|_| ()),
        Err("Menu out of range.".to_string())
    );
    // the place of the last button decides, not its height
    let short = (300, 100);
    assert!(setup_tool_menu(&[short, short, short, short, short, (300, u32::MAX)]).is_ok());
    assert!(setup_tool_menu(&[tall, tall, tall, tall, short, short]).is_ok());
    assert!(setup_tool_menu(&[tall, tall, tall, tall, tall, short]).is_err());
}

#[test]
fn bottom_menu_has_the_style_buttons() {
    let mut m = setup_bottom_menu(800, (120, 30), (90, 30));
    assert_eq!(m.position(), Position::AnchoredLeftBottom(0, 30));
    assert_eq!(m.padding(), (30, 0));
    let places: Vec<Position> = m.buttons().iter().map(|b| b.position()).collect();
    assert_eq!(
        places,
        vec![Position::AnchoredLeftBottom(30, 30), Position::AnchoredLeftBottom(100, 30)]
    );
    // the first button is at (30, 570) on the screen, forty wide
    m.handle_button_events(&down(35, 575), SCREEN).unwrap();
    assert_eq!(
        m.handle_button_events(&up(35, 575), SCREEN),
        Ok(vec![Action::SwitchPaper, Action::Nothing])
    );
    m.handle_button_events(&down(105, 575), SCREEN).unwrap();
    assert_eq!(
        m.handle_button_events(&up(105, 575), SCREEN),
        Ok(vec![Action::Nothing, Action::SwitchGrid])
    );
    match &m.draw()[..2] {
        [DrawCommand::Fill { position: border, size: outer, .. }, DrawCommand::Fill { size, .. }] => {
            assert_eq!(*border, Position::AnchoredLeftBottom(-1, 31));
            assert_eq!(*outer, (802, 32));
            assert_eq!(*size, (800, 30));
        }
        _ => panic!("not two fills"),
    }
    let wide = setup_bottom_menu(u32::MAX, (u32::MAX, u32::MAX), (u32::MAX, u32::MAX));
    assert_eq!(wide.buttons()[1].position(), Position::AnchoredLeftBottom(1431655825, 30));
}

#[test]
fn page_buttons() {
    let mut add = add_page_button((300, 100));
    let mut remove = remove_page_button((300, 90));
    assert_eq!(add.position(), Position::AnchoredRightBottom(220, 140));
    assert_eq!(remove.position(), Position::AnchoredRightBottom(120, 140));
    assert_eq!((add.width(), add.height()), (100, 100));
    assert_eq!((remove.width(), remove.height()), (100, 90));
    add.handle_event(&down(600, 500), SCREEN).unwrap();
    assert_eq!(add.handle_event(&up(600, 500), SCREEN), Ok(Action::AddPage));
    remove.handle_event(&down(700, 500), SCREEN).unwrap();
    assert_eq!(remove.handle_event(&up(700, 500), SCREEN), Ok(Action::RemovePage));
}
