//! A menu: a panel with a border and a row or a column of buttons.
use vstd::prelude::*;
use uuid::Uuid;
use crate::button::{pointer_of, Action, Button, ButtonView};
use crate::ident::fresh_id;
use crate::platform::{DrawCommand, Event};
use crate::position::{fits_i32, Position};
use crate::rect::Color;

verus! {

/// The direction in which a menu lays out its buttons.
#[derive(Clone, Copy, Debug, PartialEq, Eq, Structural)]
pub enum MenuAlignment {
    Vertical,
    Horizontal,
}

/// The side of a button of the tool menu, in pixels.
pub const TOOL_BUTTON_SIZE: i32 = 100;

/// What a menu is.
pub struct MenuView {
    pub position: Position,
    pub size: (u32, u32),
    pub alignment: MenuAlignment,
    pub border_thickness: u32,
    pub color: Color,
    pub border_color: Color,
    pub padding: (i32, i32),
    pub buttons: Seq<Button>,
}

impl MenuView {
    /// The room along the menu that the first `n` buttons take, each with
    /// the padding behind it.
    pub open spec fn length(self, n: int) -> int
        decreases n,
    {
        if n <= 0 {
            0
        } else {
            self.length(n - 1) + match self.alignment {
                MenuAlignment::Horizontal => self.buttons[n - 1]@.size.0 + self.padding.0,
                MenuAlignment::Vertical => self.buttons[n - 1]@.size.1 + self.padding.1,
            }
        }
    }

    /// How far right of the menu's corner button `i` goes.
    pub open spec fn dx_of(self, i: int) -> int {
        self.padding.0 + match self.alignment {
            MenuAlignment::Horizontal => self.length(i),
            MenuAlignment::Vertical => 0,
        }
    }

    /// How far below the menu's corner button `i` goes.
    pub open spec fn dy_of(self, i: int) -> int {
        self.padding.1 + match self.alignment {
            MenuAlignment::Horizontal => 0,
            MenuAlignment::Vertical => self.length(i),
        }
    }

    /// Every button lies where the menu puts it: the first one padding
    /// inside the menu's corner, and each next one behind the one before
    /// it, one padding apart.
    pub open spec fn laid_out(self) -> bool {
        forall|i: int|
            0 <= i < self.buttons.len() ==> (#[trigger] self.buttons[i])@.position
                == self.position.moved(self.dx_of(i), self.dy_of(i))
    }

    /// How far right of the menu's corner the next button goes.
    pub open spec fn next_dx(self) -> int {
        self.dx_of(self.buttons.len() as int)
    }

    /// How far below the menu's corner the next button goes.
    pub open spec fn next_dy(self) -> int {
        self.dy_of(self.buttons.len() as int)
    }

    /// The coordinates hold the place of the next button.
    pub open spec fn has_room(self) -> bool {
        &&& fits_i32(self.position.moved_x(self.next_dx()))
        &&& fits_i32(self.position.moved_y(self.next_dy()))
    }

    /// The coordinates hold the border.
    pub open spec fn border_fits(self) -> bool {
        &&& fits_i32(self.position.moved_x(-(self.border_thickness as int)))
        &&& fits_i32(self.position.moved_y(-(self.border_thickness as int)))
        &&& self.size.0 + 2 * self.border_thickness <= u32::MAX
        &&& self.size.1 + 2 * self.border_thickness <= u32::MAX
    }

    /// How far right of the menu's corner the frame around a slot of the
    /// tool menu starts.
    pub open spec fn frame_dx(self) -> int {
        self.padding.0 - 1
    }

    /// How far below the menu's corner the frame around slot `slot` of the
    /// tool menu starts.
    pub open spec fn frame_dy(self, slot: int) -> int {
        self.padding.1 * (slot + 1) + TOOL_BUTTON_SIZE * slot - 1
    }
}

/// The room that the first `n` buttons take is the same in two menus of the
/// same direction and padding whose first `n` buttons are the same.
pub proof fn lemma_length_of_prefix(a: MenuView, b: MenuView, n: int)
    requires
        a.alignment == b.alignment,
        a.padding == b.padding,
        n <= a.buttons.len(),
        n <= b.buttons.len(),
        forall|j: int| 0 <= j < n ==> a.buttons[j] == b.buttons[j],
    ensures
        a.length(n) == b.length(n),
    decreases n,
{
    if n > 0 {
        lemma_length_of_prefix(a, b, n - 1);
    }
}

/// `after` is what a round of `event` that failed at button `k` makes of
/// the buttons `before`: button `k` is placed in the world, the buttons
/// ahead of it have taken the event, and it and the buttons behind it are
/// as they were.
pub open spec fn stopped_at(
    before: Seq<Button>,
    after: Seq<Button>,
    k: int,
    event: Event,
    screen_dimensions: (u32, u32),
) -> bool {
    &&& 0 <= k < before.len()
    &&& before[k]@.position is FreeOnWorld
    &&& forall|j: int|
        0 <= j < k ==> (#[trigger] before[j]).took(event, screen_dimensions, after[j])
    &&& forall|j: int| k <= j < before.len() ==> after[j] == before[j]
}

/// A menu.
pub struct Menu {
    id: Uuid,
    position: Position,
    size: (u32, u32),
    alignment: MenuAlignment,
    border_thickness: u32,
    color: Color,
    border_color: Color,
    padding: (i32, i32),
    buttons: Vec<Button>,
}

impl View for Menu {
    type V = MenuView;

    closed spec fn view(&self) -> MenuView {
        MenuView {
            position: self.position,
            size: self.size,
            alignment: self.alignment,
            border_thickness: self.border_thickness,
            color: self.color,
            border_color: self.border_color,
            padding: self.padding,
            buttons: self.buttons@,
        }
    }
}

impl Menu {
    pub closed spec fn id_spec(&self) -> Uuid {
        self.id
    }

    /// A button of the menu is placed in the world, where it has no place
    /// on the screen.
    pub open spec fn in_world(&self) -> bool {
        exists|k: int|
            0 <= k < self@.buttons.len() && (#[trigger] self@.buttons[k])@.position is FreeOnWorld
    }

    /// Every button of the menu that is placed on the screen has screen
    /// coordinates that are values of `i32`.
    pub open spec fn placed(&self, screen_dimensions: (u32, u32)) -> bool {
        forall|j: int|
            0 <= j < self@.buttons.len() ==> (#[trigger] self@.buttons[j])@.placed(screen_dimensions)
    }

    /// `next` and `actions` are what a round of `event` that succeeds
    /// makes of `self`: every button has taken the event, and `actions`
    /// says what each asks of the editor.
    pub open spec fn handled(
        &self,
        event: Event,
        screen_dimensions: (u32, u32),
        next: Menu,
        actions: Seq<Action>,
    ) -> bool {
        &&& next.id_spec() == self.id_spec()
        &&& next@ == (MenuView { buttons: next@.buttons, ..self@ })
        &&& next@.buttons.len() == self@.buttons.len()
        &&& actions.len() == self@.buttons.len()
        &&& forall|j: int|
            0 <= j < self@.buttons.len() ==> (#[trigger] self@.buttons[j]).handled(
                event,
                screen_dimensions,
                next@.buttons[j],
                actions[j],
            )
    }

    /// What draws the menu: the border, the panel over it, and the buttons,
    /// first to last.
    pub open spec fn draw_spec(&self) -> Seq<DrawCommand> {
        seq![
            DrawCommand::Fill {
                position: self@.position.moved(
                    -(self@.border_thickness as int),
                    -(self@.border_thickness as int),
                ),
                size: (
                    (self@.size.0 + 2 * self@.border_thickness) as u32,
                    (self@.size.1 + 2 * self@.border_thickness) as u32,
                ),
                color: self@.border_color,
            },
            DrawCommand::Fill { position: self@.position, size: self@.size, color: self@.color },
        ] + Seq::new(self@.buttons.len(), |j: int| self@.buttons[j].draw_spec())
    }

    /// A white menu without buttons or padding, with a gray border three
    /// pixels thick.
    pub fn new(position: Position, size: (u32, u32), alignment: MenuAlignment) -> (m: Menu)
        ensures
            m@ == (MenuView {
                position,
                size,
                alignment,
                border_thickness: 3,
                color: Color::white_spec(),
                border_color: Color::gray_spec(),
                padding: (0, 0),
                buttons: Seq::<Button>::empty(),
            }),
    {
        Menu {
            id: fresh_id(),
            alignment,
            position,
            size,
            border_thickness: 3,
            color: Color::white(),
            border_color: Color::gray(),
            padding: (0, 0),
            buttons: Vec::new(),
        }
    }

    #[verifier::when_used_as_spec(id_spec)]
    pub fn id(&self) -> (id: Uuid)
        ensures
            id == self.id_spec(),
    {
        self.id
    }

    pub fn position(&self) -> (p: Position)
        ensures
            p == self@.position,
    {
        self.position
    }

    pub fn padding(&self) -> (p: (i32, i32))
        ensures
            p == self@.padding,
    {
        self.padding
    }

    /// The buttons, to read.
    pub fn buttons(&self) -> (b: &Vec<Button>)
        ensures
            b@ == self@.buttons,
    {
        &self.buttons
    }

    pub fn set_position(&mut self, position: Position)
        ensures
            final(self)@ == (MenuView { position, ..old(self)@ }),
            final(self).id_spec() == old(self).id_spec(),
    {
        self.position = position
    }

    pub fn set_size(&mut self, size: (u32, u32))
        ensures
            final(self)@ == (MenuView { size, ..old(self)@ }),
            final(self).id_spec() == old(self).id_spec(),
    {
        self.size = size
    }

    pub fn set_border_thickness(&mut self, border_thickness: u32)
        ensures
            final(self)@ == (MenuView { border_thickness, ..old(self)@ }),
            final(self).id_spec() == old(self).id_spec(),
    {
        self.border_thickness = border_thickness
    }

    pub fn set_color(&mut self, color: Color)
        ensures
            final(self)@ == (MenuView { color, ..old(self)@ }),
            final(self).id_spec() == old(self).id_spec(),
    {
        self.color = color
    }

    pub fn set_border_color(&mut self, color: Color)
        ensures
            final(self)@ == (MenuView { border_color: color, ..old(self)@ }),
            final(self).id_spec() == old(self).id_spec(),
    {
        self.border_color = color
    }

    pub fn set_padding(&mut self, padding: (i32, i32))
        ensures
            final(self)@ == (MenuView { padding, ..old(self)@ }),
            final(self).id_spec() == old(self).id_spec(),
    {
        self.padding = padding
    }

    /// The room along the menu that the buttons take.
    fn length(&self) -> (total: i128)
        ensures
            total == self@.length(self@.buttons.len() as int),
            -0x2_0000_0000 * self@.buttons.len() <= total <= 0x2_0000_0000 * self@.buttons.len(),
    {
        let mut total: i128 = 0;
        let mut i: usize = 0;
        while i < self.buttons.len()
            invariant
                i <= self.buttons.len(),
                total == self@.length(i as int),
                -0x2_0000_0000 * i <= total <= 0x2_0000_0000 * i,
            decreases self.buttons.len() - i,
        {
            let step: i128 = match self.alignment {
                MenuAlignment::Horizontal => self.buttons[i].width() as i128 + self.padding.0 as i128,
                MenuAlignment::Vertical => self.buttons[i].height() as i128 + self.padding.1 as i128,
            };
            total = total + step;
            i += 1;
        }
        total
    }

    /// Decides [`Menu::placed`].
    pub fn is_placed(&self, screen_dimensions: (u32, u32)) -> (ok: bool)
        ensures
            ok == self.placed(screen_dimensions),
    {
        let mut i: usize = 0;
        while i < self.buttons.len()
            invariant
                i <= self.buttons.len(),
                forall|j: int|
                    0 <= j < i ==> (#[trigger] self@.buttons[j])@.placed(screen_dimensions),
            decreases self.buttons.len() - i,
        {
            if !self.buttons[i].is_placed(screen_dimensions) {
                assert(!self@.buttons[i as int]@.placed(screen_dimensions));
                return false;
            }
            i += 1;
        }
        true
    }

    /// Decides [`MenuView::has_room`].
    pub fn can_add_button(&self) -> (ok: bool)
        ensures
            ok == self@.has_room(),
    {
        let length = self.length();
        let count = self.buttons.len();
        assert(-0x2_0000_0000 * usize::MAX <= length <= 0x2_0000_0000 * usize::MAX) by {
            assert(count <= usize::MAX);
        }
        let (dx, dy): (i128, i128) = match self.alignment {
            MenuAlignment::Horizontal => (self.padding.0 as i128 + length, self.padding.1 as i128),
            MenuAlignment::Vertical => (self.padding.0 as i128, self.padding.1 as i128 + length),
        };
        let far: i128 = 0x1_0000_0000;
        if dx < -far || dx > far || dy < -far || dy > far {
            return false;
        }
        Position::checked_add(self.position, dx as i64, dy as i64).is_some()
    }

    /// Decides [`MenuView::border_fits`].
    pub fn can_draw(&self) -> (ok: bool)
        ensures
            ok == self@.border_fits(),
    {
        let t: i64 = self.border_thickness as i64;
        let limit: u64 = 0xffff_ffff;
        Position::checked_add(self.position, -t, -t).is_some() && self.size.0 as u64 + 2
            * self.border_thickness as u64 <= limit && self.size.1 as u64 + 2
            * self.border_thickness as u64 <= limit
    }

    /// Decides [`Menu::frame_fits`].
    pub fn can_frame(&self, slot: i32) -> (ok: bool)
        ensures
            ok == self.frame_fits(slot as int),
    {
        let dx: i64 = self.padding.0 as i64 - 1;
        let dy = self.frame_offset(slot);
        let far: i64 = 0x1_0000_0000;
        if dy < -far || dy > far {
            return false;
        }
        Position::checked_add(self.position, dx, dy).is_some()
    }

    /// How far below the menu's corner the frame around slot `slot` starts.
    fn frame_offset(&self, slot: i32) -> (dy: i64)
        ensures
            dy == self@.frame_dy(slot as int),
    {
        let pad: i64 = self.padding.1 as i64;
        let next: i64 = slot as i64 + 1;
        assert(-0x8000_0000 * 0x8000_0000 <= pad * next <= 0x8000_0000 * 0x8000_0000 && pad * next
            == self@.padding.1 * (slot + 1)) by (nonlinear_arith)
            requires
                -0x8000_0000 <= pad <= 0x7fff_ffff,
                -0x8000_0000 <= next <= 0x8000_0000,
                pad == self@.padding.1,
                next == slot + 1,
        ;
        let side: i64 = TOOL_BUTTON_SIZE as i64;
        assert(-0x8000_0000 * 100 <= side * slot <= 0x8000_0000 * 100) by (nonlinear_arith)
            requires
                side == 100,
                -0x8000_0000 <= slot <= 0x7fff_ffff,
        ;
        pad * next + side * slot as i64 - 1
    }

    /// Puts `new_button` behind the last button, in the menu's direction:
    /// the first button lies one padding inside the menu's corner, and each
    /// next one lies behind the one before it, one padding apart. The place
    /// that `new_button` had is lost.
    pub fn add_button(&mut self, new_button: Button)
        requires
            old(self)@.has_room(),
        ensures
            final(self).id_spec() == old(self).id_spec(),
            final(self)@ == (MenuView { buttons: final(self)@.buttons, ..old(self)@ }),
            final(self)@.buttons.len() == old(self)@.buttons.len() + 1,
            forall|j: int|
                0 <= j < old(self)@.buttons.len() ==> final(self)@.buttons[j] == old(
                    self,
                )@.buttons[j],
            final(self)@.buttons.last()@ == (ButtonView {
                position: old(self)@.position.moved(old(self)@.next_dx(), old(self)@.next_dy()),
                ..new_button@
            }),
            final(self)@.buttons.last().id_spec() == new_button.id_spec(),
            old(self)@.laid_out() ==> final(self)@.laid_out(),
    {
        let length = self.length();
        let (dx, dy): (i128, i128) = match self.alignment {
            MenuAlignment::Horizontal => (self.padding.0 as i128 + length, self.padding.1 as i128),
            MenuAlignment::Vertical => (self.padding.0 as i128, self.padding.1 as i128 + length),
        };
        let mut new_button = new_button;
        match Position::checked_add(self.position, dx as i64, dy as i64) {
            Some(position) => {
                new_button.set_position(position);
            },
            None => {},
        }
        self.buttons.push(new_button);
        proof {
            let before = old(self)@;
            let after = self@;
            assert forall|i: int| 0 <= i <= before.buttons.len() implies after.length(i) == before.length(
                i,
            ) by {
                lemma_length_of_prefix(before, after, i);
            }
        }
    }

    /// Hands `event` to the buttons, first to last, and says what each
    /// asks of the editor. A button that fails ends the round: the buttons
    /// behind it have not seen the event.
    pub fn handle_button_events(&mut self, event: &Event, screen_dimensions: (u32, u32)) -> (r:
        Result<Vec<Action>, String>)
        requires
            old(self).placed(screen_dimensions),
        ensures
            final(self).id_spec() == old(self).id_spec(),
            final(self)@ == (MenuView { buttons: final(self)@.buttons, ..old(self)@ }),
            final(self)@.buttons.len() == old(self)@.buttons.len(),
            r is Err <==> pointer_of(*event) is Some && old(self).in_world(),
            r matches Ok(actions) ==> old(self).handled(
                *event,
                screen_dimensions,
                *final(self),
                actions@,
            ),
            r matches Err(m) ==> {
                &&& m@ == crate::position::missing_camera_message()
                &&& exists|k: int|
                    stopped_at(
                        old(self)@.buttons,
                        final(self)@.buttons,
                        k,
                        *event,
                        screen_dimensions,
                    )
            },
    {
        let mut actions: Vec<Action> = Vec::new();
        let mut i: usize = 0;
        while i < self.buttons.len()
            invariant
                i <= self.buttons.len(),
                self.id_spec() == old(self).id_spec(),
                self@ == (MenuView { buttons: self@.buttons, ..old(self)@ }),
                self@.buttons.len() == old(self)@.buttons.len(),
                actions@.len() == i,
                forall|j: int|
                    0 <= j < old(self)@.buttons.len() ==> (#[trigger] old(self)@.buttons[j])@.placed(
                        screen_dimensions,
                    ),
                forall|j: int|
                    0 <= j < i ==> (#[trigger] old(self)@.buttons[j]).handled(
                        *event,
                        screen_dimensions,
                        self@.buttons[j],
                        actions@[j],
                    ),
                forall|j: int|
                    0 <= j < i ==> !(pointer_of(*event) is Some && (#[trigger] old(
                        self,
                    )@.buttons[j])@.position is FreeOnWorld),
                forall|j: int|
                    i <= j < old(self)@.buttons.len() ==> self@.buttons[j] == old(self)@.buttons[j],
            decreases self.buttons.len() - i,
        {
            let ghost before = self@.buttons;
            assert(before[i as int] == old(self)@.buttons[i as int]);
            assert(old(self)@.buttons[i as int]@.placed(screen_dimensions));
            match self.buttons[i].handle_event(event, screen_dimensions) {
                Ok(action) => {
                    actions.push(action);
                },
                Err(e) => {
                    assert(self@.buttons =~= before);
                    assert forall|j: int| 0 <= j < i implies (#[trigger] old(self)@.buttons[j]).took(
                        *event,
                        screen_dimensions,
                        self@.buttons[j],
                    ) by {
                        assert(self@.buttons[j] == before[j]);
                        assert(old(self)@.buttons[j].handled(
                            *event,
                            screen_dimensions,
                            self@.buttons[j],
                            actions@[j],
                        ));
                    }
                    assert forall|j: int| i <= j < old(self)@.buttons.len() implies self@.buttons[j]
                        == old(self)@.buttons[j] by {
                        assert(self@.buttons[j] == before[j]);
                    }
                    assert(stopped_at(
                        old(self)@.buttons,
                        self@.buttons,
                        i as int,
                        *event,
                        screen_dimensions,
                    ));
                    return Err(e);
                },
            }
            i += 1;
        }
        Ok(actions)
    }

    /// What draws the menu: the border, the panel over it, and the buttons,
    /// first to last.
    pub fn draw(&self) -> (cmds: Vec<DrawCommand>)
        requires
            self@.border_fits(),
        ensures
            cmds@ == self.draw_spec(),
    {
        let mut cmds: Vec<DrawCommand> = Vec::new();
        let t: i64 = self.border_thickness as i64;
        let corner = match Position::checked_add(self.position, -t, -t) {
            Some(p) => p,
            None => self.position,
        };
        cmds.push(
            DrawCommand::Fill {
                position: corner,
                size: (
                    self.size.0 + 2 * self.border_thickness,
                    self.size.1 + 2 * self.border_thickness,
                ),
                color: self.border_color,
            },
        );
        cmds.push(DrawCommand::Fill { position: self.position, size: self.size, color: self.color });
        let mut i: usize = 0;
        while i < self.buttons.len()
            invariant
                i <= self.buttons.len(),
                cmds@.len() == 2 + i,
                cmds@[0] == (DrawCommand::Fill {
                    position: self@.position.moved(
                        -(self@.border_thickness as int),
                        -(self@.border_thickness as int),
                    ),
                    size: (
                        (self@.size.0 + 2 * self@.border_thickness) as u32,
                        (self@.size.1 + 2 * self@.border_thickness) as u32,
                    ),
                    color: self@.border_color,
                }),
                cmds@[1] == (DrawCommand::Fill {
                    position: self@.position,
                    size: self@.size,
                    color: self@.color,
                }),
                forall|j: int| 0 <= j < i ==> cmds@[2 + j] == self@.buttons[j].draw_spec(),
            decreases self.buttons.len() - i,
        {
            cmds.push(self.buttons[i].draw());
            i += 1;
        }
        assert(cmds@ =~= self.draw_spec());
        cmds
    }

    /// The coordinates hold the frame around slot `slot` of the tool menu.
    pub open spec fn frame_fits(&self, slot: int) -> bool {
        &&& fits_i32(self@.position.moved_x(self@.frame_dx()))
        &&& fits_i32(self@.position.moved_y(self@.frame_dy(slot)))
    }

    /// The frame that marks slot `slot` of the tool menu, counted from `0`
    /// at the top: a black outline three pixels thick, one pixel outside a
    /// button of [`TOOL_BUTTON_SIZE`].
    pub open spec fn frame_spec(&self, slot: int) -> DrawCommand {
        DrawCommand::Outline {
            position: self@.position.moved(self@.frame_dx(), self@.frame_dy(slot)),
            thickness: 3,
            size: (102, 102),
            color: Color::black_spec(),
        }
    }

    pub fn selection_frame(&self, slot: i32) -> (cmd: DrawCommand)
        requires
            self.frame_fits(slot as int),
        ensures
            cmd == self.frame_spec(slot as int),
    {
        let dx: i64 = self.padding.0 as i64 - 1;
        let dy = self.frame_offset(slot);
        let position = match Position::checked_add(self.position, dx, dy) {
            Some(p) => p,
            None => self.position,
        };
        DrawCommand::Outline { position, thickness: 3, size: (102, 102), color: Color::black() }
    }
}

} // verus!
