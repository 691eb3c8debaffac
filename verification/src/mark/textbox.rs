//! A box of text anchored to a cell: its lines and the size of each line as
//! rendered.
use vstd::prelude::*;
use vstd::string::StringExecFns;
use uuid::Uuid;
use crate::ident::fresh_id;
use crate::pages::SQUARE_SIZE;
use crate::platform::{
    DrawCommand, FontStyle, MeasureRequest, RenderRequest, Request, RequestView,
};
use crate::position::{fits_i32, PageSquare, Position};
use crate::rect::Color;

verus! {

/// What a text box holds: its lines, first to last, and beside each line
/// the size in pixels of its rendering, `(0, 0)` while there is none.
pub struct TextBoxView {
    pub lines: Seq<Seq<char>>,
    pub sizes: Seq<(u32, u32)>,
}

impl TextBoxView {
    /// Every line has its size.
    pub open spec fn wf(self) -> bool {
        self.lines.len() == self.sizes.len()
    }

    /// The box with an empty first line, where it had no line.
    pub open spec fn opened(self) -> TextBoxView {
        if self.lines.len() == 0 {
            TextBoxView { lines: seq![Seq::<char>::empty()], sizes: seq![(0u32, 0u32)] }
        } else {
            self
        }
    }

    /// The last line with `fragment` behind it: the text whose width decides
    /// whether `fragment` is wrapped.
    pub open spec fn candidate(self, fragment: Seq<char>) -> Seq<char> {
        self.opened().lines.last() + fragment
    }

    /// The box after `fragment` is typed: behind the last line, or, where
    /// that overflows, as a new last line.
    pub open spec fn pushed(self, fragment: Seq<char>, overflow: bool) -> TextBoxView {
        let base = self.opened();
        if overflow {
            TextBoxView { lines: base.lines.push(fragment), sizes: base.sizes.push((0u32, 0u32)) }
        } else {
            TextBoxView {
                lines: base.lines.update(base.lines.len() - 1, base.lines.last() + fragment),
                sizes: base.sizes,
            }
        }
    }

    /// The box after one character is deleted at its end: a last line that
    /// is empty then leaves the box together with its size.
    pub open spec fn popped(self) -> TextBoxView {
        if self.lines.len() == 0 {
            self
        } else if self.lines.last().len() <= 1 {
            TextBoxView { lines: self.lines.drop_last(), sizes: self.sizes.drop_last() }
        } else {
            TextBoxView {
                lines: self.lines.update(self.lines.len() - 1, self.lines.last().drop_last()),
                sizes: self.sizes,
            }
        }
    }

    /// The box with an empty line behind its last.
    pub open spec fn broken(self) -> TextBoxView {
        TextBoxView {
            lines: self.lines.push(Seq::<char>::empty()),
            sizes: self.sizes.push((0u32, 0u32)),
        }
    }

    /// The box with `size` recorded for its last line, where it has one.
    pub open spec fn sized(self, size: (u32, u32)) -> TextBoxView {
        if self.lines.len() == 0 {
            self
        } else {
            TextBoxView { lines: self.lines, sizes: self.sizes.update(self.sizes.len() - 1, size) }
        }
    }
}

/// Opening a box keeps its lines and sizes and leaves it with a line, and
/// makes no difference to what is typed or measured afterwards.
pub proof fn lemma_open_keeps_lines(v: TextBoxView, fragment: Seq<char>, overflow: bool)
    requires
        v.wf(),
    ensures
        v.opened().wf(),
        v.opened().lines.len() >= 1,
        v.opened().lines.len() >= v.lines.len(),
        forall|i: int| 0 <= i < v.lines.len() ==> v.opened().lines[i] == v.lines[i],
        forall|i: int| 0 <= i < v.sizes.len() ==> v.opened().sizes[i] == v.sizes[i],
        v.opened().opened() == v.opened(),
        v.opened().candidate(fragment) == v.candidate(fragment),
        v.opened().pushed(fragment, overflow) == v.pushed(fragment, overflow),
{
}

/// Typing keeps every line but the last as it is, and every size; a
/// fragment that overflows keeps the last line too and stands alone on the
/// new one, with no size yet.
pub proof fn lemma_push_keeps_earlier_lines(v: TextBoxView, fragment: Seq<char>, overflow: bool)
    requires
        v.wf(),
    ensures
        v.pushed(fragment, overflow).wf(),
        v.pushed(fragment, overflow).lines.len() == v.opened().lines.len() + if overflow {
            1int
        } else {
            0int
        },
        forall|i: int|
            0 <= i < v.opened().lines.len() - 1 ==> v.pushed(fragment, overflow).lines[i]
                == v.opened().lines[i],
        forall|i: int|
            0 <= i < v.opened().sizes.len() ==> v.pushed(fragment, overflow).sizes[i]
                == v.opened().sizes[i],
        overflow ==> {
            &&& v.pushed(fragment, overflow).lines.last() == fragment
            &&& v.pushed(fragment, overflow).sizes.last() == (0u32, 0u32)
            &&& v.pushed(fragment, overflow).lines[v.opened().lines.len() - 1]
                == v.opened().lines.last()
        },
        !overflow ==> v.pushed(fragment, overflow).lines.last() == v.opened().lines.last()
            + fragment,
{
}

/// Deleting undoes the typing of one character: behind a last line that is
/// not empty, the box is as it was; on a line of its own, the line is gone
/// with its size.
pub proof fn lemma_pop_undoes_push(v: TextBoxView, c: char, overflow: bool)
    requires
        v.wf(),
        v.lines.len() > 0,
        overflow || v.lines.last().len() > 0,
    ensures
        v.pushed(seq![c], overflow).popped() == v,
{
    let p = v.pushed(seq![c], overflow);
    if overflow {
        assert(p.popped().lines =~= v.lines);
        assert(p.popped().sizes =~= v.sizes);
    } else {
        assert((v.lines.last() + seq![c]).drop_last() =~= v.lines.last());
        assert(p.popped().lines =~= v.lines);
        assert(p.popped().sizes =~= v.sizes);
    }
}

/// Calls `String::pop`, which removes the last character of the string and
/// returns it, or returns `None` and leaves the string alone where it is
/// empty.
#[verifier::external_body]
fn string_pop(s: &mut String) -> (c: Option<char>)
    ensures
        old(s)@.len() == 0 ==> c is None && final(s)@ == old(s)@,
        old(s)@.len() > 0 ==> c == Some(old(s)@.last()) && final(s)@ == old(s)@.drop_last(),
{
    s.pop()
}

/// A box of text on the pages.
pub struct TextBox {
    id: Uuid,
    page_square: PageSquare,
    lines: Vec<String>,
    line_sizes: Vec<(u32, u32)>,
    font_name: String,
    font_style: FontStyle,
    point: u16,
    color: Color,
    max_width: u32,
}

impl View for TextBox {
    type V = TextBoxView;

    closed spec fn view(&self) -> TextBoxView {
        TextBoxView {
            lines: Seq::new(self.lines@.len(), |i: int| self.lines@[i]@),
            sizes: self.line_sizes@,
        }
    }
}

impl TextBox {
    /// The cell the box is anchored to.
    pub closed spec fn anchor(&self) -> PageSquare {
        self.page_square
    }

    pub closed spec fn id_spec(&self) -> Uuid {
        self.id
    }

    pub closed spec fn font_name_spec(&self) -> Seq<char> {
        self.font_name@
    }

    pub closed spec fn font_style_spec(&self) -> FontStyle {
        self.font_style
    }

    pub closed spec fn point_spec(&self) -> u16 {
        self.point
    }

    pub closed spec fn color_spec(&self) -> Color {
        self.color
    }

    /// The width in pixels beyond which a line overflows.
    pub closed spec fn max_width_spec(&self) -> u32 {
        self.max_width
    }

    /// The request that [`TextBox::measure_request`] makes for `fragment`.
    pub open spec fn measure_spec(&self, fragment: Seq<char>) -> RequestView {
        RequestView::Measure {
            text: self@.candidate(fragment),
            font_name: self.font_name_spec(),
            font_style: self.font_style_spec(),
            point: self.point_spec(),
            max_width: self.max_width_spec(),
        }
    }

    /// The request that [`TextBox::render_request`] makes: for the last
    /// line, if there is one.
    pub open spec fn render_spec(&self) -> RequestView {
        if self@.lines.len() == 0 {
            RequestView::Nothing
        } else {
            RequestView::Render {
                id: self.id_spec(),
                index: self@.lines.len() - 1,
                text: self@.lines.last(),
                font_name: self.font_name_spec(),
                font_style: self.font_style_spec(),
                point: self.point_spec(),
                color: self.color_spec(),
            }
        }
    }

    /// Line `i` is drawn: it has a rendering, and the coordinates hold its
    /// place.
    pub open spec fn line_shown(&self, i: int) -> bool {
        &&& self@.sizes[i] != (0u32, 0u32)
        &&& fits_i32(self.anchor().position.moved_y(i * SQUARE_SIZE))
    }

    /// What draws line `i`: its texture, as large as its rendering, `i`
    /// cells below the anchor.
    pub open spec fn line_command(&self, i: int) -> DrawCommand {
        DrawCommand::Texture {
            id: self.id_spec(),
            index: i as usize,
            position: self.anchor().position.moved(0, i * SQUARE_SIZE),
            size: self@.sizes[i],
        }
    }

    /// What draws the first `n` lines: each line that is drawn, first to
    /// last.
    pub open spec fn draw_spec(&self, n: int) -> Seq<DrawCommand>
        decreases n,
    {
        if n <= 0 {
            Seq::empty()
        } else if self.line_shown(n - 1) {
            self.draw_spec(n - 1).push(self.line_command(n - 1))
        } else {
            self.draw_spec(n - 1)
        }
    }

    /// `self` and `other` differ at most in their lines and sizes.
    pub open spec fn same_setting(&self, other: &TextBox) -> bool {
        &&& self.anchor() == other.anchor()
        &&& self.id_spec() == other.id_spec()
        &&& self.font_name_spec() == other.font_name_spec()
        &&& self.font_style_spec() == other.font_style_spec()
        &&& self.point_spec() == other.point_spec()
        &&& self.color_spec() == other.color_spec()
        &&& self.max_width_spec() == other.max_width_spec()
    }

    /// A box without lines at `page_square`, under a fresh identifier.
    pub fn new(
        page_square: PageSquare,
        font_name: String,
        font_style: FontStyle,
        point: u16,
        color: Color,
        max_width: u32,
    ) -> (t: TextBox)
        ensures
            t@.lines.len() == 0,
            t@.sizes.len() == 0,
            t.anchor() == page_square,
            t.font_name_spec() == font_name@,
            t.font_style_spec() == font_style,
            t.point_spec() == point,
            t.color_spec() == color,
            t.max_width_spec() == max_width,
    {
        TextBox {
            id: fresh_id(),
            page_square,
            line_sizes: Vec::new(),
            lines: Vec::new(),
            font_name,
            font_style,
            point,
            color,
            max_width,
        }
    }

    /// Gives a box without lines an empty first line, with no size yet. A
    /// box that has a line stays as it is.
    pub fn open(&mut self)
        requires
            old(self)@.wf(),
        ensures
            final(self)@ == old(self)@.opened(),
            final(self)@.wf(),
            final(self)@.lines.len() >= 1,
            final(self).same_setting(old(self)),
    {
        if self.lines.len() == 0 {
            self.lines.push(String::new());
            self.line_sizes.push((0, 0));
        }
        assert(self@.lines =~= old(self)@.opened().lines);
        assert(self@.sizes =~= old(self)@.opened().sizes);
    }

    /// Types `string` at the end of the box. `overflow` says whether the
    /// last line with `string` behind it is wider than the box allows: then
    /// `string` starts a new line.
    pub fn push_str(&mut self, string: &str, overflow: bool)
        requires
            old(self)@.wf(),
        ensures
            final(self)@ == old(self)@.pushed(string@, overflow),
            final(self)@.wf(),
            final(self)@.lines.len() >= 1,
            final(self).same_setting(old(self)),
    {
        self.open();
        if overflow {
            self.lines.push(String::from_str(string));
            self.line_sizes.push((0, 0));
        } else {
            let last_line = self.lines.len() - 1;
            let mut line = self.lines[last_line].clone();
            line.append(string);
            self.lines[last_line] = line;
        }
        assert(self@.lines =~= old(self)@.pushed(string@, overflow).lines);
        assert(self@.sizes =~= old(self)@.pushed(string@, overflow).sizes);
    }

    /// Deletes the last character of the box. A last line that is empty
    /// then, or was empty before, leaves the box.
    pub fn pop(&mut self)
        requires
            old(self)@.wf(),
        ensures
            final(self)@ == old(self)@.popped(),
            final(self)@.wf(),
            final(self).same_setting(old(self)),
    {
        if self.lines.len() == 0 {
            return ;
        }
        let last_line = self.lines.len() - 1;
        string_pop(&mut self.lines[last_line]);
        if self.lines[last_line].as_str().is_empty() {
            self.lines.pop();
            self.line_sizes.pop();
        }
        assert(self@.lines =~= old(self)@.popped().lines);
        assert(self@.sizes =~= old(self)@.popped().sizes);
    }

    /// Starts an empty line behind the last.
    pub fn new_line(&mut self)
        requires
            old(self)@.wf(),
        ensures
            final(self)@ == old(self)@.broken(),
            final(self)@.wf(),
            final(self).same_setting(old(self)),
    {
        self.lines.push(String::new());
        self.line_sizes.push((0, 0));
        assert(self@.lines =~= old(self)@.broken().lines);
        assert(self@.sizes =~= old(self)@.broken().sizes);
    }

    /// Records `size` as the size of the last line's rendering.
    pub fn update(&mut self, size: (u32, u32))
        requires
            old(self)@.wf(),
        ensures
            final(self)@ == old(self)@.sized(size),
            final(self)@.wf(),
            final(self).same_setting(old(self)),
    {
        if self.lines.len() == 0 {
            return ;
        }
        let last_line = self.line_sizes.len() - 1;
        self.line_sizes[last_line] = size;
        assert(self@.lines =~= old(self)@.sized(size).lines);
        assert(self@.sizes =~= old(self)@.sized(size).sizes);
    }

    /// The measurement that decides whether `string`, typed at the end of
    /// the box, is wrapped: that of the last line with `string` behind it,
    /// against the width of the box.
    pub fn measure_request(&self, string: &str) -> (r: Request)
        ensures
            r@ == self.measure_spec(string@),
    {
        let mut text = if self.lines.len() == 0 {
            String::new()
        } else {
            self.lines[self.lines.len() - 1].clone()
        };
        text.append(string);
        assert(text@ =~= self@.candidate(string@));
        Request::Measure(
            MeasureRequest {
                text,
                font_name: self.font_name.clone(),
                font_style: self.font_style,
                point: self.point,
                max_width: self.max_width,
            },
        )
    }

    /// The rendering of the last line, if the box has a line: the one whose
    /// size [`TextBox::update`] records.
    pub fn render_request(&self) -> (r: Request)
        requires
            self@.wf(),
        ensures
            r@ == self.render_spec(),
    {
        if self.lines.len() == 0 {
            return Request::Nothing;
        }
        let last_line = self.line_sizes.len() - 1;
        Request::Render(
            RenderRequest {
                id: self.id,
                index: last_line,
                text: self.lines[last_line].clone(),
                font_name: self.font_name.clone(),
                font_style: self.font_style,
                point: self.point,
                color: self.color,
            },
        )
    }

    /// What draws the box.
    pub fn draw(&self) -> (cmds: Vec<DrawCommand>)
        requires
            self@.wf(),
        ensures
            cmds@ == self.draw_spec(self@.lines.len() as int),
    {
        let mut cmds: Vec<DrawCommand> = Vec::new();
        let mut i: usize = 0;
        while i < self.line_sizes.len()
            invariant
                self@.wf(),
                i <= self.line_sizes.len(),
                cmds@ == self.draw_spec(i as int),
            decreases self.line_sizes.len() - i,
        {
            let size = self.line_sizes[i];
            let offset: u128 = i as u128 * SQUARE_SIZE as u128;
            if (size.0 != 0 || size.1 != 0) && offset <= 0xffff_ffff {
                match Position::checked_add(self.page_square.position, 0, offset as i64) {
                    Some(position) => {
                        cmds.push(DrawCommand::Texture { id: self.id, index: i, position, size });
                    },
                    None => {},
                }
            }
            i += 1;
        }
        cmds
    }

    #[verifier::when_used_as_spec(anchor)]
    pub fn page_square(&self) -> (p: PageSquare)
        ensures
            p == self.anchor(),
    {
        self.page_square
    }

    #[verifier::when_used_as_spec(id_spec)]
    pub fn id(&self) -> (id: Uuid)
        ensures
            id == self.id_spec(),
    {
        self.id
    }

    #[verifier::when_used_as_spec(max_width_spec)]
    pub fn max_width(&self) -> (w: u32)
        ensures
            w == self.max_width_spec(),
    {
        self.max_width
    }

    /// The lines, first to last.
    pub fn lines(&self) -> (l: &Vec<String>)
        ensures
            l@.len() == self@.lines.len(),
            forall|i: int| 0 <= i < l@.len() ==> (#[trigger] l@[i])@ == self@.lines[i],
    {
        &self.lines
    }

    /// The size of each line's rendering, first to last.
    pub fn line_sizes(&self) -> (l: &Vec<(u32, u32)>)
        ensures
            l@ == self@.sizes,
    {
        &self.line_sizes
    }
}

} // verus!
