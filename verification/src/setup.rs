//! The two menus of the application, laid out for the images of their
//! buttons.
use vstd::prelude::*;
use vstd::string::StringExecFns;
use crate::button::{Action, Button, ButtonState, ButtonView};
use crate::editor::ToolType;
use crate::menu::{Menu, MenuAlignment, MenuView};
use crate::position::Position;
use crate::rect::Color;

verus! {

/// The tool that the button in slot `i` of the tool menu selects.
pub open spec fn tool_at(i: int) -> ToolType {
    if i == 0 {
        ToolType::Move
    } else if i == 1 {
        ToolType::Text
    } else if i == 2 {
        ToolType::Line
    } else if i == 3 {
        ToolType::Bullet
    } else if i == 4 {
        ToolType::Math
    } else {
        ToolType::Code
    }
}

/// The message of the error for a menu whose buttons the coordinates do
/// not hold.
pub open spec fn out_of_range_message() -> Seq<char> {
    "Menu out of range."@
}

/// `b` is a button for an image of size `image` and the action `on_click`
/// that has not met the pointer: a third of the image wide, and off.
pub open spec fn is_menu_button(b: ButtonView, image: (u32, u32), on_click: Action) -> bool {
    &&& b.size == (image.0 / 3, image.1)
    &&& b.state == ButtonState::Off
    &&& b.on_click == on_click
}

/// The room down the tool menu that the first `n` buttons take, each with
/// the padding of twenty pixels behind it.
pub open spec fn tool_length(images: Seq<(u32, u32)>, n: int) -> int
    decreases n,
{
    if n <= 0 {
        0
    } else {
        tool_length(images, n - 1) + images[n - 1].1 + 20
    }
}

/// `m` is the menu of the tools for button images of the sizes `images`:
/// a column at the window's right edge with one button for each tool, in
/// the order of the tools.
pub open spec fn is_tool_menu(m: MenuView, images: Seq<(u32, u32)>) -> bool {
    &&& m.position == Position::AnchoredRightTop(200, 100)
    &&& m.size == (140u32, 740u32)
    &&& m.alignment == MenuAlignment::Vertical
    &&& m.border_thickness == 3
    &&& m.color == Color::white_spec()
    &&& m.border_color == Color::gray_spec()
    &&& m.padding == (20i32, 20i32)
    &&& m.buttons.len() == 6
    &&& m.laid_out()
    &&& forall|i: int|
        0 <= i < 6 ==> is_menu_button(
            (#[trigger] m.buttons[i])@,
            images[i],
            Action::SelectTool(tool_at(i)),
        )
}

/// `m` is the menu along the bottom edge of a window `window_width` wide,
/// for button images of the sizes `paper_image` and `grid_image`: a row
/// with the button that switches the paper and the button that switches
/// the grid.
pub open spec fn is_bottom_menu(
    m: MenuView,
    window_width: u32,
    paper_image: (u32, u32),
    grid_image: (u32, u32),
) -> bool {
    &&& m.position == Position::AnchoredLeftBottom(0, 30)
    &&& m.size == (window_width, 30u32)
    &&& m.alignment == MenuAlignment::Horizontal
    &&& m.border_thickness == 1
    &&& m.color == Color::white_spec()
    &&& m.border_color == Color::gray_spec()
    &&& m.padding == (30i32, 0i32)
    &&& m.buttons.len() == 2
    &&& m.laid_out()
    &&& is_menu_button(m.buttons[0]@, paper_image, Action::SwitchPaper)
    &&& is_menu_button(m.buttons[1]@, grid_image, Action::SwitchGrid)
}

/// Puts a button for an image of size `image` and the action `on_click`
/// behind the buttons of `menu`, if the coordinates hold its place.
fn place(menu: &mut Menu, image: (u32, u32), on_click: Action) -> (added: bool)
    ensures
        added == old(menu)@.has_room(),
        final(menu).id_spec() == old(menu).id_spec(),
        final(menu)@ == (MenuView { buttons: final(menu)@.buttons, ..old(menu)@ }),
        !added ==> final(menu)@ == old(menu)@,
        added ==> {
            &&& final(menu)@.buttons.len() == old(menu)@.buttons.len() + 1
            &&& forall|j: int|
                0 <= j < old(menu)@.buttons.len() ==> final(menu)@.buttons[j] == old(
                    menu,
                )@.buttons[j]
            &&& is_menu_button(final(menu)@.buttons.last()@, image, on_click)
            &&& old(menu)@.laid_out() ==> final(menu)@.laid_out()
        },
{
    if !menu.can_add_button() {
        return false;
    }
    let mut button = Button::new(Position::FreeOnScreen(0, 0), image);
    button.set_on_click(on_click);
    menu.add_button(button);
    true
}

/// The menu along the bottom edge of a window `window_width` wide, with
/// the buttons for the page's style.
pub fn setup_bottom_menu(window_width: u32, paper_image: (u32, u32), grid_image: (u32, u32)) -> (m:
    Menu)
    ensures
        is_bottom_menu(m@, window_width, paper_image, grid_image),
{
    let mut bottom_menu = Menu::new(
        Position::AnchoredLeftBottom(0, 30),
        (window_width, 30),
        MenuAlignment::Horizontal,
    );
    bottom_menu.set_border_thickness(1);
    bottom_menu.set_padding((30, 0));
    assert(bottom_menu@.length(0) == 0);
    let placed = place(&mut bottom_menu, paper_image, Action::SwitchPaper);
    assert(placed);
    assert(bottom_menu@.length(1) == bottom_menu@.length(0) + paper_image.0 / 3 + 30);
    let placed = place(&mut bottom_menu, grid_image, Action::SwitchGrid);
    assert(placed);
    bottom_menu
}

/// The button that adds a page, for an image of size `image`: near the
/// window's bottom-right corner.
pub fn add_page_button(image: (u32, u32)) -> (b: Button)
    ensures
        b@.position == Position::AnchoredRightBottom(220, 140),
        is_menu_button(b@, image, Action::AddPage),
{
    let mut button = Button::new(Position::AnchoredRightBottom(220, 140), image);
    button.set_on_click(Action::AddPage);
    button
}

/// The button that removes a page, for an image of size `image`: to the
/// right of the button that adds one.
pub fn remove_page_button(image: (u32, u32)) -> (b: Button)
    ensures
        b@.position == Position::AnchoredRightBottom(120, 140),
        is_menu_button(b@, image, Action::RemovePage),
{
    let mut button = Button::new(Position::AnchoredRightBottom(120, 140), image);
    button.set_on_click(Action::RemovePage);
    button
}

fn tool_for(i: usize) -> (t: ToolType)
    ensures
        t == tool_at(i as int),
{
    if i == 0 {
        ToolType::Move
    } else if i == 1 {
        ToolType::Text
    } else if i == 2 {
        ToolType::Line
    } else if i == 3 {
        ToolType::Bullet
    } else if i == 4 {
        ToolType::Math
    } else {
        ToolType::Code
    }
}

/// The menu of the tools for button images of the sizes `images`, which
/// come in the order of the tools. It fails where the coordinates do not
/// hold the column of buttons.
pub fn setup_tool_menu(images: &[(u32, u32); 6]) -> (r: Result<Menu, String>)
    ensures
        r is Ok <==> 120 + tool_length(images@, 5) <= i32::MAX,
        r matches Ok(m) ==> is_tool_menu(m@, images@),
        r matches Err(e) ==> e@ == out_of_range_message(),
{
    let mut tool_menu = Menu::new(
        Position::AnchoredRightTop(200, 100),
        (140, 740),
        MenuAlignment::Vertical,
    );
    tool_menu.set_border_thickness(3);
    tool_menu.set_padding((20, 20));
    let mut i: usize = 0;
    while i < 6
        invariant
            i <= 6,
            tool_menu@ == (MenuView {
                position: Position::AnchoredRightTop(200, 100),
                size: (140u32, 740u32),
                alignment: MenuAlignment::Vertical,
                border_thickness: 3,
                color: Color::white_spec(),
                border_color: Color::gray_spec(),
                padding: (20i32, 20i32),
                buttons: tool_menu@.buttons,
            }),
            tool_menu@.buttons.len() == i,
            tool_menu@.laid_out(),
            tool_menu@.length(i as int) == tool_length(images@, i as int),
            i >= 1 ==> 120 + tool_length(images@, i - 1) <= i32::MAX,
            forall|j: int|
                0 <= j < i ==> is_menu_button(
                    (#[trigger] tool_menu@.buttons[j])@,
                    images@[j],
                    Action::SelectTool(tool_at(j)),
                ),
        decreases 6 - i,
    {
        let ghost before = tool_menu@;
        proof {
            lemma_tool_length_grows(images@, i as int, 5);
        }
        if !place(&mut tool_menu, images[i], Action::SelectTool(tool_for(i))) {
            return Err(String::from_str("Menu out of range."));
        }
        proof {
            crate::menu::lemma_length_of_prefix(before, tool_menu@, i as int);
        }
        i += 1;
    }
    Ok(tool_menu)
}

/// More buttons take no less room.
proof fn lemma_tool_length_grows(images: Seq<(u32, u32)>, m: int, n: int)
    requires
        0 <= m <= n,
    ensures
        0 <= tool_length(images, m) <= tool_length(images, n),
    decreases n,
{
    if m < n {
        lemma_tool_length_grows(images, m, n - 1);
    } else if n > 0 {
        lemma_tool_length_grows(images, m - 1, n - 1);
    }
}

} // verus!
