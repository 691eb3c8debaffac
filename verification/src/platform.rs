//! What the library asks of the platform, and what the platform answers.
//!
//! The platform owns the window, the fonts, the clipboard and the capture of
//! composed text. An operation that needs one of them returns a
//! [`Request`]; the caller carries it out and hands the outcome back as a
//! [`Reply`].
use vstd::prelude::*;
use uuid::Uuid;
use crate::position::Position;
use crate::rect::Color;

verus! {

/// The style of a font face.
#[derive(Clone, Copy, Debug, PartialEq, Eq, Structural)]
pub struct FontStyle {
    pub bold: bool,
    pub italic: bool,
    pub underline: bool,
    pub strikethrough: bool,
}

impl FontStyle {
    pub open spec fn normal_spec() -> FontStyle {
        FontStyle { bold: false, italic: false, underline: false, strikethrough: false }
    }

    /// The upright face of regular weight.
    #[verifier::when_used_as_spec(normal_spec)]
    pub fn normal() -> (s: FontStyle)
        ensures
            s == FontStyle::normal_spec(),
    {
        FontStyle { bold: false, italic: false, underline: false, strikethrough: false }
    }
}

/// A line of text to be measured against a width.
#[derive(Debug)]
pub struct MeasureRequest {
    pub text: String,
    pub font_name: String,
    pub font_style: FontStyle,
    pub point: u16,
    pub max_width: u32,
}

/// A line of text to be rendered into texture `index` of object `id`.
#[derive(Debug)]
pub struct RenderRequest {
    pub id: Uuid,
    pub index: usize,
    pub text: String,
    pub font_name: String,
    pub font_style: FontStyle,
    pub point: u16,
    pub color: Color,
}

/// The keys that the editor tells apart.
#[derive(Clone, Copy, Debug, PartialEq, Eq, Structural)]
pub enum Keycode {
    V,
    Backspace,
    Return,
    Other,
}

/// The modifier keys that the editor reads: the two control keys.
#[derive(Clone, Copy, Debug, PartialEq, Eq, Structural)]
pub struct Mod {
    pub lctrl: bool,
    pub rctrl: bool,
}

/// An input event, as far as the library reads it.
#[derive(Debug)]
pub enum Event {
    Quit,
    /// The window has a new size.
    Resized { width: u32, height: u32 },
    /// The wheel has turned `y` notches.
    MouseWheel { y: i32 },
    /// The pointer has moved to `(x, y)` on the screen.
    MouseMotion { x: i32, y: i32 },
    MouseButtonDown { x: i32, y: i32 },
    MouseButtonUp { x: i32, y: i32 },
    KeyDown { keycode: Option<Keycode>, keymod: Mod },
    /// The platform has composed `text`.
    TextInput { text: String },
    Other,
}

impl Event {
    /// The event is the shortcut for pasting: the key `V` with a control
    /// key held, the left, the right or both.
    pub open spec fn is_paste_spec(&self) -> bool {
        self matches Event::KeyDown { keycode: Some(Keycode::V), keymod } && (keymod.lctrl
            || keymod.rctrl)
    }

    #[verifier::when_used_as_spec(is_paste_spec)]
    pub fn is_paste(&self) -> (b: bool)
        ensures
            b == self.is_paste_spec(),
    {
        match self {
            Event::KeyDown { keycode: Some(Keycode::V), keymod } => keymod.lctrl || keymod.rctrl,
            _ => false,
        }
    }
}

/// What the library asks of the platform.
#[derive(Debug)]
pub enum Request {
    /// Nothing is asked.
    Nothing,
    /// Start the capture of composed text.
    StartTextInput,
    /// Stop the capture of composed text.
    StopTextInput,
    /// Read the text on the clipboard; answer with [`Reply::Clipboard`].
    ReadClipboard,
    /// Say whether the text is wider than `max_width`; answer with
    /// [`Reply::Overflow`].
    Measure(MeasureRequest),
    /// Render the text; answer with [`Reply::Rendered`].
    Render(RenderRequest),
}

/// A [`Request`] with its strings as sequences of characters.
pub enum RequestView {
    Nothing,
    StartTextInput,
    StopTextInput,
    ReadClipboard,
    Measure { text: Seq<char>, font_name: Seq<char>, font_style: FontStyle, point: u16, max_width: u32 },
    Render {
        id: Uuid,
        index: int,
        text: Seq<char>,
        font_name: Seq<char>,
        font_style: FontStyle,
        point: u16,
        color: Color,
    },
}

impl View for Request {
    type V = RequestView;

    open spec fn view(&self) -> RequestView {
        match self {
            Request::Nothing => RequestView::Nothing,
            Request::StartTextInput => RequestView::StartTextInput,
            Request::StopTextInput => RequestView::StopTextInput,
            Request::ReadClipboard => RequestView::ReadClipboard,
            Request::Measure(m) => RequestView::Measure {
                text: m.text@,
                font_name: m.font_name@,
                font_style: m.font_style,
                point: m.point,
                max_width: m.max_width,
            },
            Request::Render(r) => RequestView::Render {
                id: r.id,
                index: r.index as int,
                text: r.text@,
                font_name: r.font_name@,
                font_style: r.font_style,
                point: r.point,
                color: r.color,
            },
        }
    }
}

/// The requests `requests`, each with its strings as sequences of
/// characters.
pub open spec fn views(requests: Seq<Request>) -> Seq<RequestView> {
    Seq::new(requests.len(), |k: int| requests[k]@)
}

/// What the platform answers.
#[derive(Debug)]
pub enum Reply {
    /// The text that was on the clipboard.
    Clipboard(String),
    /// Whether the measured text is wider than allowed.
    Overflow(bool),
    /// The width and height in pixels of the rendered text.
    Rendered(u32, u32),
    /// The platform could not do what was asked, for the reason given.
    Failed(String),
}

/// One step of drawing, for the platform to carry out.
#[derive(Debug)]
pub enum DrawCommand {
    /// Texture `index` of object `id`, stretched over `size` at `position`.
    Texture { id: Uuid, index: usize, position: Position, size: (u32, u32) },
    /// A filled rectangle.
    Fill { position: Position, size: (u32, u32), color: Color },
    /// The outline of a rectangle, `thickness` pixels thick, grown outward.
    Outline { position: Position, thickness: i32, size: (u32, u32), color: Color },
}

} // verus!
