//! A button: where it is, how it looks under the pointer, and what a click
//! on it asks for.
use vstd::prelude::*;
use uuid::Uuid;
use crate::editor::ToolType;
use crate::ident::fresh_id;
use crate::platform::{DrawCommand, Event};
use crate::position::Position;

verus! {

/// How a button looks.
#[derive(Clone, Copy, Debug, PartialEq, Eq, Structural)]
pub enum ButtonState {
    Off,
    Hover,
    Clicked,
}

impl ButtonState {
    /// The place of the state's image among the button's textures.
    pub open spec fn index_spec(self) -> int {
        match self {
            ButtonState::Off => 0,
            ButtonState::Hover => 1,
            ButtonState::Clicked => 2,
        }
    }

    pub fn index(self) -> (i: usize)
        ensures
            i == self.index_spec(),
    {
        match self {
            ButtonState::Off => 0,
            ButtonState::Hover => 1,
            ButtonState::Clicked => 2,
        }
    }
}

/// What a click on a button asks of the editor.
#[derive(Clone, Copy, Debug, PartialEq, Eq, Structural)]
pub enum Action {
    /// Nothing.
    Nothing,
    AddPage,
    RemovePage,
    /// White paper for beige and beige for white.
    SwitchPaper,
    /// Squared paper for plain and plain for squared.
    SwitchGrid,
    SelectTool(ToolType),
}

/// What a button is.
pub struct ButtonView {
    pub position: Position,
    pub size: (u32, u32),
    pub state: ButtonState,
    pub on_click: Action,
}

impl ButtonView {
    /// The point `(x, y)` of a screen of `screen_dimensions` lies on the
    /// button.
    pub open spec fn covers(self, x: int, y: int, screen_dimensions: (u32, u32)) -> bool {
        let (left, top) = self.position.on_screen(Some(screen_dimensions), None);
        &&& left <= x < left + self.size.0
        &&& top <= y < top + self.size.1
    }

    /// The button after a pointer event at a point that lies on it or not,
    /// as `inside` says: under the pointer the button hovers, a button
    /// going down on it clicks it, and a button coming up leaves it
    /// hovering if it was clicked under the pointer, and off otherwise.
    /// While clicked, the button does not follow the pointer.
    pub open spec fn after(self, event: Event, inside: bool) -> ButtonState {
        match event {
            Event::MouseMotion { .. } => if self.state is Clicked {
                ButtonState::Clicked
            } else if inside {
                ButtonState::Hover
            } else {
                ButtonState::Off
            },
            Event::MouseButtonDown { .. } => if inside {
                ButtonState::Clicked
            } else {
                self.state
            },
            Event::MouseButtonUp { .. } => if inside && self.state is Clicked {
                ButtonState::Hover
            } else {
                ButtonState::Off
            },
            _ => self.state,
        }
    }

    /// A button placed on the screen has screen coordinates that are
    /// values of `i32`.
    pub open spec fn placed(self, screen_dimensions: (u32, u32)) -> bool {
        !(self.position is FreeOnWorld) ==> self.position.screen_fits(
            Some(screen_dimensions),
            None,
        )
    }

    /// The event completes a click on the button: a button comes up over
    /// it while it is clicked.
    pub open spec fn fires(self, event: Event, inside: bool) -> bool {
        event is MouseButtonUp && inside && self.state is Clicked
    }
}

/// The point of a pointer event, if the event is one.
pub open spec fn pointer_of(event: Event) -> Option<(i32, i32)> {
    match event {
        Event::MouseMotion { x, y } => Some((x, y)),
        Event::MouseButtonDown { x, y } => Some((x, y)),
        Event::MouseButtonUp { x, y } => Some((x, y)),
        _ => None,
    }
}

/// A button.
pub struct Button {
    id: Uuid,
    position: Position,
    size: (u32, u32),
    state: ButtonState,
    on_click: Action,
}

impl View for Button {
    type V = ButtonView;

    closed spec fn view(&self) -> ButtonView {
        ButtonView {
            position: self.position,
            size: self.size,
            state: self.state,
            on_click: self.on_click,
        }
    }
}

impl Button {
    /// The identifier under which the platform keeps the three textures.
    pub closed spec fn id_spec(&self) -> Uuid {
        self.id
    }

    /// A button at `position` for an image of `image_size`, which shows the
    /// three states side by side: the button is a third of it wide. The
    /// button is off, and a click on it asks for nothing.
    pub fn new(position: Position, image_size: (u32, u32)) -> (b: Button)
        ensures
            b@ == (ButtonView {
                position,
                size: (image_size.0 / 3, image_size.1),
                state: ButtonState::Off,
                on_click: Action::Nothing,
            }),
    {
        Button {
            id: fresh_id(),
            position,
            size: (image_size.0 / 3, image_size.1),
            state: ButtonState::Off,
            on_click: Action::Nothing,
        }
    }

    #[verifier::when_used_as_spec(id_spec)]
    pub fn id(&self) -> (id: Uuid)
        ensures
            id == self.id_spec(),
    {
        self.id
    }

    pub fn width(&self) -> (w: u32)
        ensures
            w == self@.size.0,
    {
        self.size.0
    }

    pub fn height(&self) -> (h: u32)
        ensures
            h == self@.size.1,
    {
        self.size.1
    }

    pub fn position(&self) -> (p: Position)
        ensures
            p == self@.position,
    {
        self.position
    }

    pub fn state(&self) -> (s: ButtonState)
        ensures
            s == self@.state,
    {
        self.state
    }

    pub fn set_on_click(&mut self, on_click: Action)
        ensures
            final(self)@ == (ButtonView { on_click, ..old(self)@ }),
            final(self).id_spec() == old(self).id_spec(),
    {
        self.on_click = on_click;
    }

    pub fn set_position(&mut self, position: Position)
        ensures
            final(self)@ == (ButtonView { position, ..old(self)@ }),
            final(self).id_spec() == old(self).id_spec(),
    {
        self.position = position
    }

    /// `next` and `action` are what [`Button::handle_event`] makes of
    /// `self` and of `event`, where it succeeds.
    pub open spec fn handled(
        &self,
        event: Event,
        screen_dimensions: (u32, u32),
        next: Button,
        action: Action,
    ) -> bool {
        &&& next.id_spec() == self.id_spec()
        &&& match pointer_of(event) {
            Some((x, y)) => {
                let inside = self@.covers(x as int, y as int, screen_dimensions);
                &&& !(self@.position is FreeOnWorld)
                &&& next@ == (ButtonView { state: self@.after(event, inside), ..self@ })
                &&& action == if self@.fires(event, inside) {
                    self@.on_click
                } else {
                    Action::Nothing
                }
            },
            None => next@ == self@ && action == Action::Nothing,
        }
    }

    /// `next` is what [`Button::handle_event`] makes of `self` where it
    /// succeeds, whatever it asks of the editor.
    pub open spec fn took(&self, event: Event, screen_dimensions: (u32, u32), next: Button) -> bool {
        exists|a: Action| self.handled(event, screen_dimensions, next, a)
    }

    /// Decides [`ButtonView::placed`].
    pub fn is_placed(&self, screen_dimensions: (u32, u32)) -> (ok: bool)
        ensures
            ok == self@.placed(screen_dimensions),
    {
        match self.position {
            Position::FreeOnWorld(_, _) => true,
            _ => self.position.fits_on_screen(Some(screen_dimensions), None),
        }
    }

    /// Whether the point `(x, y)` of the screen lies on the button. A
    /// button placed in the world has no place on the screen: that is an
    /// error.
    pub fn contains_point(&self, x: i32, y: i32, screen_dimensions: (u32, u32)) -> (r: Result<
        bool,
        String,
    >)
        requires
            self@.placed(screen_dimensions),
        ensures
            r is Err <==> self@.position is FreeOnWorld,
            r matches Ok(inside) ==> inside == self@.covers(x as int, y as int, screen_dimensions),
            r matches Err(e) ==> e@ == crate::position::missing_camera_message(),
    {
        let position = match self.position.to_free_on_screen(Some(screen_dimensions), None) {
            Ok(p) => p,
            Err(e) => {
                return Err(e);
            },
        };
        let left: i64 = position.x() as i64;
        let top: i64 = position.y() as i64;
        if x as i64 >= left && (x as i64) < left + self.size.0 as i64 {
            if y as i64 >= top && (y as i64) < top + self.size.1 as i64 {
                return Ok(true);
            }
        }
        Ok(false)
    }

    /// Takes an input event on a screen of `screen_dimensions`, and says
    /// what it asks of the editor: the button's action where the event
    /// completes a click on it, and nothing otherwise. An event of the
    /// pointer on a button placed in the world is an error, and leaves the
    /// button as it is.
    pub fn handle_event(&mut self, e: &Event, screen_dimensions: (u32, u32)) -> (r: Result<
        Action,
        String,
    >)
        requires
            old(self)@.placed(screen_dimensions),
        ensures
            final(self).id_spec() == old(self).id_spec(),
            r is Err <==> pointer_of(*e) is Some && old(self)@.position is FreeOnWorld,
            r is Err ==> *final(self) == *old(self),
            r matches Err(m) ==> m@ == crate::position::missing_camera_message(),
            r matches Ok(action) ==> old(self).handled(
                *e,
                screen_dimensions,
                *final(self),
                action,
            ),
    {
        match e {
            Event::MouseMotion { x, y } => {
                let inside = self.contains_point(*x, *y, screen_dimensions)?;
                match self.state {
                    ButtonState::Clicked => {},
                    _ => {
                        if inside {
                            self.state = ButtonState::Hover;
                        } else {
                            self.state = ButtonState::Off;
                        }
                    },
                }
                Ok(Action::Nothing)
            },
            Event::MouseButtonDown { x, y } => {
                if self.contains_point(*x, *y, screen_dimensions)? {
                    self.state = ButtonState::Clicked;
                }
                Ok(Action::Nothing)
            },
            Event::MouseButtonUp { x, y } => {
                let inside = self.contains_point(*x, *y, screen_dimensions)?;
                let clicked = match self.state {
                    ButtonState::Clicked => true,
                    _ => false,
                };
                if inside && clicked {
                    self.state = ButtonState::Hover;
                    Ok(self.on_click)
                } else {
                    self.state = ButtonState::Off;
                    Ok(Action::Nothing)
                }
            },
            _ => Ok(Action::Nothing),
        }
    }

    /// What draws the button.
    pub open spec fn draw_spec(&self) -> DrawCommand {
        DrawCommand::Texture {
            id: self.id_spec(),
            index: self@.state.index_spec() as usize,
            position: self@.position,
            size: self@.size,
        }
    }

    /// What draws the button: the texture of its state.
    pub fn draw(&self) -> (cmd: DrawCommand)
        ensures
            cmd == self.draw_spec(),
    {
        DrawCommand::Texture {
            id: self.id,
            index: self.state.index(),
            position: self.position,
            size: self.size,
        }
    }
}

} // verus!
