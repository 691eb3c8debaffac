//! What the user has placed on the pages.
pub mod textbox;

use vstd::prelude::*;
use crate::platform::DrawCommand;
use crate::position::PageSquare;
use self::textbox::TextBox;

verus! {

/// Something placed on a cell of the pages.
pub enum Mark {
    TextBox(TextBox),
}

impl Mark {
    /// The text box that the mark is.
    pub open spec fn text_box(&self) -> TextBox {
        match self {
            Mark::TextBox(t) => *t,
        }
    }

    /// The cell the mark is anchored to.
    pub open spec fn anchor(&self) -> PageSquare {
        self.text_box().anchor()
    }

    /// What holds of every mark that the editor keeps.
    pub open spec fn wf(&self) -> bool {
        self.text_box()@.wf()
    }

    /// What draws the mark.
    pub open spec fn draw_spec(&self) -> Seq<DrawCommand> {
        self.text_box().draw_spec(self.text_box()@.lines.len() as int)
    }

    pub fn draw(&self) -> (cmds: Vec<DrawCommand>)
        requires
            self.wf(),
        ensures
            cmds@ == self.draw_spec(),
    {
        match self {
            Mark::TextBox(t) => t.draw(),
        }
    }

    #[verifier::when_used_as_spec(anchor)]
    pub fn page_square(&self) -> (p: PageSquare)
        ensures
            p == self.anchor(),
    {
        match self {
            Mark::TextBox(t) => t.page_square(),
        }
    }
}

/// What draws the first `n` of `marks`: the marks one after the other.
pub open spec fn draw_all(marks: Seq<Mark>, n: int) -> Seq<DrawCommand>
    decreases n,
{
    if n <= 0 {
        Seq::empty()
    } else {
        draw_all(marks, n - 1) + marks[n - 1].draw_spec()
    }
}

} // verus!
