//! The editor: the one owner of the document, through which every change
//! to it goes.
pub mod text_tool;

use vstd::prelude::*;
use vstd::string::StringExecFns;
use crate::button::Action;
use crate::mark::{draw_all, Mark};
use crate::mark::textbox::TextBox;
use crate::pages::{PageStyle, Pages, PagesView};
use crate::platform::{DrawCommand, Event, FontStyle, Reply, Request, RequestView};
use crate::position::PageSquare;
use crate::rect::Color;
use self::text_tool::{PendingView, TextTool, TextToolView};

verus! {

/// The tool that decides what a click and a key do.
#[derive(Clone, Copy, Debug, PartialEq, Eq, Structural)]
pub enum ToolType {
    Move,
    Text,
    Line,
    Bullet,
    Math,
    Code,
}

impl ToolType {
    /// The place of the tool in the tool menu, from the top.
    pub open spec fn index_spec(self) -> int {
        match self {
            ToolType::Move => 0,
            ToolType::Text => 1,
            ToolType::Line => 2,
            ToolType::Bullet => 3,
            ToolType::Math => 4,
            ToolType::Code => 5,
        }
    }

    pub fn index(self) -> (i: i32)
        ensures
            i == self.index_spec(),
    {
        match self {
            ToolType::Move => 0,
            ToolType::Text => 1,
            ToolType::Line => 2,
            ToolType::Bullet => 3,
            ToolType::Math => 4,
            ToolType::Code => 5,
        }
    }
}

/// The name of the font of a new text box.
pub open spec fn default_font_name() -> Seq<char> {
    "NotoSerif"@
}

/// The size in points of the font of a new text box.
pub const DEFAULT_POINT: u16 = 30;

/// What the editor is: the pages, the tool, the marks in the order in which
/// their cells were first clicked, the text tool, and whether the editor
/// waits for the clipboard.
///
/// The marks are a map from cells to marks, held as a sequence in which no
/// cell occurs twice: a click on a cell that has a mark puts the new mark in
/// its place, and a click on any other cell puts it behind the last.
pub struct EditorView {
    pub pages: Pages,
    pub tool: ToolType,
    pub marks: Seq<Mark>,
    pub text_tool: TextToolView,
    pub awaiting_clipboard: bool,
}

impl EditorView {
    /// No two marks are anchored to the same cell.
    pub open spec fn cells_distinct(self) -> bool {
        forall|i: int, j: int|
            0 <= i < j < self.marks.len() ==> !(#[trigger] self.marks[i]).anchor().same_cell(
                (#[trigger] self.marks[j]).anchor(),
            )
    }

    pub open spec fn wf(self) -> bool {
        &&& self.pages.wf()
        &&& self.text_tool.wf(self.marks)
        &&& forall|i: int| 0 <= i < self.marks.len() ==> (#[trigger] self.marks[i]).wf()
        &&& self.cells_distinct()
        &&& self.awaiting_clipboard ==> {
            &&& self.tool is Text
            &&& self.text_tool.session is Some
            &&& self.text_tool.pending is Idle
        }
    }

    /// The answer `reply` is a failure of the request that stands open.
    pub open spec fn fails(self, reply: Reply) -> bool {
        reply is Failed && (self.awaiting_clipboard || !(self.text_tool.pending is Idle))
    }

    /// The request that stands open.
    pub open spec fn outstanding(self) -> RequestView {
        if self.awaiting_clipboard {
            RequestView::ReadClipboard
        } else {
            self.text_tool.outstanding(self.marks)
        }
    }

    /// `next` is what a click on the cell `ps` makes of `self`.
    ///
    /// With the text tool selected, an empty text box in the default font
    /// lies on the cell, in place of the mark that was there if there was
    /// one, and a session is open on it. With any other tool nothing has
    /// changed.
    pub open spec fn after_click(self, ps: PageSquare, next: EditorView) -> bool {
        if self.tool is Text {
            let k = self.place_of(ps);
            &&& next.pages == self.pages
            &&& next.tool == self.tool
            &&& !next.awaiting_clipboard
            &&& next.text_tool == (TextToolView { session: Some(k), pending: PendingView::Idle })
            &&& next.marks.len() == if k < self.marks.len() {
                self.marks.len()
            } else {
                self.marks.len() + 1
            }
            &&& forall|j: int| 0 <= j < self.marks.len() && j != k ==> next.marks[j] == self.marks[j]
            &&& self.is_fresh_box(next.marks[k].text_box(), ps)
        } else {
            next == self
        }
    }

    /// `next` is what `action` makes of `self`. A page is added only
    /// where the coordinates hold one more.
    pub open spec fn after_action(self, action: Action, next: EditorView) -> bool {
        match action {
            Action::Nothing => next == self,
            Action::AddPage => {
                &&& next == (EditorView { pages: next.pages, ..self })
                &&& next.pages.id_spec() == self.pages.id_spec()
                &&& next.pages@ == (PagesView {
                    count: if self.pages@.holds(self.pages@.count + 1 as int) {
                        self.pages@.count + 1
                    } else {
                        self.pages@.count
                    },
                    ..self.pages@
                })
            },
            Action::RemovePage => {
                &&& next == (EditorView { pages: next.pages, ..self })
                &&& next.pages.id_spec() == self.pages.id_spec()
                &&& next.pages@ == (PagesView {
                    count: if self.pages@.count > 1 {
                        (self.pages@.count - 1) as nat
                    } else {
                        1
                    },
                    ..self.pages@
                })
            },
            Action::SwitchPaper => {
                &&& next == (EditorView { pages: next.pages, ..self })
                &&& next.pages.id_spec() == self.pages.id_spec()
                &&& next.pages@ == (PagesView {
                    style: self.pages@.style.other_paper_spec(),
                    ..self.pages@
                })
            },
            Action::SwitchGrid => {
                &&& next == (EditorView { pages: next.pages, ..self })
                &&& next.pages.id_spec() == self.pages.id_spec()
                &&& next.pages@ == (PagesView {
                    style: self.pages@.style.other_grid_spec(),
                    ..self.pages@
                })
            },
            Action::SelectTool(tool) => {
                &&& next.tool == tool
                &&& next.pages == self.pages
                &&& next.marks == self.marks
                &&& if self.tool is Text {
                    &&& next.text_tool == (TextToolView {
                        session: None,
                        pending: PendingView::Idle,
                    })
                    &&& !next.awaiting_clipboard
                } else {
                    &&& next.text_tool == self.text_tool
                    &&& next.awaiting_clipboard == self.awaiting_clipboard
                }
            },
        }
    }

    /// `next` is what `event` makes of `self`: whatever the editor waited
    /// for is given up; the paste shortcut, with the text tool selected and
    /// a session open, has the editor wait for the clipboard; every other
    /// event, and the paste shortcut otherwise, goes to the text tool.
    pub open spec fn after_event(self, event: Event, next: EditorView) -> bool {
        &&& next.pages == self.pages
        &&& next.tool == self.tool
        &&& if self.asks_clipboard(event) {
            next == (EditorView {
                awaiting_clipboard: true,
                text_tool: TextToolView { pending: PendingView::Idle, ..self.text_tool },
                ..self
            })
        } else {
            &&& !next.awaiting_clipboard
            &&& self.text_tool.after_event(self.marks, event, next.text_tool, next.marks)
        }
    }

    /// What `action` asks of the platform where the editor is `self`: that
    /// the capture of composed text stop where it leaves the text tool, and
    /// nothing otherwise.
    pub open spec fn request_of(self, action: Action) -> RequestView {
        if action is SelectTool && self.tool is Text {
            RequestView::StopTextInput
        } else {
            RequestView::Nothing
        }
    }

    /// `next` is what the actions `actions`, done one after the other, make
    /// of `self`, and `requests` is what each asks of the platform.
    pub open spec fn performed(
        self,
        actions: Seq<Action>,
        next: EditorView,
        requests: Seq<RequestView>,
    ) -> bool
        decreases actions.len(),
    {
        if actions.len() == 0 {
            next == self && requests.len() == 0
        } else {
            &&& requests.len() == actions.len()
            &&& exists|mid: EditorView|
                {
                    &&& self.performed(actions.drop_last(), mid, requests.drop_last())
                    &&& #[trigger] mid.after_action(actions.last(), next)
                    &&& requests.last() == mid.request_of(actions.last())
                }
        }
    }

    /// `event` is the paste shortcut, the text tool is selected and a
    /// session is open: the editor asks for the clipboard.
    pub open spec fn asks_clipboard(self, event: Event) -> bool {
        event.is_paste_spec() && self.tool is Text && self.text_tool.session is Some
    }

    /// The place among the marks of the one anchored to the cell of `ps`:
    /// that of the mark there is, or else the place behind the last mark.
    pub open spec fn place_of(self, ps: PageSquare) -> int {
        if exists|i: int| 0 <= i < self.marks.len() && self.marks[i].anchor().same_cell(ps) {
            choose|i: int| 0 <= i < self.marks.len() && self.marks[i].anchor().same_cell(ps)
        } else {
            self.marks.len() as int
        }
    }

    /// The width left for text that starts at the cell of `ps`: from the
    /// cell's left edge to the right edge of the page.
    pub open spec fn width_right_of(self, ps: PageSquare) -> int {
        self.pages@.page_width() - (ps.position.x_spec() - self.pages@.page_x())
    }

    /// `t` is the text box that a click on `ps` makes.
    pub open spec fn is_fresh_box(self, t: TextBox, ps: PageSquare) -> bool {
        &&& t.anchor() == ps
        &&& t@.lines.len() == 0
        &&& t@.sizes.len() == 0
        &&& t.font_name_spec() == default_font_name()
        &&& t.font_style_spec() == FontStyle::normal_spec()
        &&& t.point_spec() == DEFAULT_POINT
        &&& t.color_spec() == Color::black_spec()
        &&& t.max_width_spec() == self.width_right_of(ps)
    }
}

/// The document and the state of its editing.
pub struct Editor {
    pages: Pages,
    tool_selected: ToolType,
    text_tool: TextTool,
    marks: Vec<Mark>,
    awaiting_clipboard: bool,
}

impl View for Editor {
    type V = EditorView;

    closed spec fn view(&self) -> EditorView {
        EditorView {
            pages: self.pages,
            tool: self.tool_selected,
            marks: self.marks@,
            text_tool: self.text_tool@,
            awaiting_clipboard: self.awaiting_clipboard,
        }
    }
}

impl Editor {
    /// The editor of a document of `pages` without marks, with the move
    /// tool selected.
    pub fn new(pages: Pages) -> (e: Editor)
        requires
            pages.wf(),
        ensures
            e@.wf(),
            e@ == (EditorView {
                pages,
                tool: ToolType::Move,
                marks: Seq::<Mark>::empty(),
                text_tool: TextToolView { session: None, pending: PendingView::Idle },
                awaiting_clipboard: false,
            }),
    {
        Editor {
            pages,
            tool_selected: ToolType::Move,
            text_tool: TextTool::new(),
            marks: Vec::new(),
            awaiting_clipboard: false,
        }
    }

    /// The pages, to read.
    pub fn get_pages(&self) -> (p: &Pages)
        ensures
            *p == self@.pages,
    {
        &self.pages
    }

    pub fn get_tool(&self) -> (t: ToolType)
        ensures
            t == self@.tool,
    {
        self.tool_selected
    }

    /// The marks, to read.
    pub fn marks(&self) -> (m: &Vec<Mark>)
        ensures
            m@ == self@.marks,
    {
        &self.marks
    }

    /// Selects `tool`. Where the text tool was selected, its session is
    /// closed first, and the capture of composed text is asked to stop;
    /// from any other tool nothing is asked.
    pub fn set_tool(&mut self, tool: ToolType) -> (r: Request)
        requires
            old(self)@.wf(),
        ensures
            final(self)@.wf(),
            final(self)@.tool == tool,
            final(self)@.pages == old(self)@.pages,
            final(self)@.marks == old(self)@.marks,
            old(self)@.tool is Text ==> {
                &&& r@ == RequestView::StopTextInput
                &&& final(self)@.text_tool == (TextToolView {
                    session: None,
                    pending: PendingView::Idle,
                })
                &&& !final(self)@.awaiting_clipboard
            },
            !(old(self)@.tool is Text) ==> {
                &&& r@ == RequestView::Nothing
                &&& final(self)@.text_tool == old(self)@.text_tool
                &&& final(self)@.awaiting_clipboard == old(self)@.awaiting_clipboard
            },
    {
        let r = match self.tool_selected {
            ToolType::Text => {
                self.awaiting_clipboard = false;
                self.text_tool.stop_input()
            },
            _ => Request::Nothing,
        };
        self.tool_selected = tool;
        r
    }

    pub fn set_pages_style(&mut self, style: PageStyle)
        requires
            old(self)@.wf(),
        ensures
            final(self)@.wf(),
            final(self)@.pages@ == (PagesView { style, ..old(self)@.pages@ }),
            final(self)@ == (EditorView { pages: final(self)@.pages, ..old(self)@ }),
            final(self)@.pages.id_spec() == old(self)@.pages.id_spec(),
    {
        self.pages.set_style(style)
    }

    /// The coordinates hold one page more.
    pub fn can_add_page(&self) -> (ok: bool)
        requires
            self@.wf(),
        ensures
            ok == self@.pages@.holds(self@.pages@.count + 1 as int),
    {
        self.pages.can_add_page()
    }

    pub fn add_page(&mut self)
        requires
            old(self)@.wf(),
            old(self)@.pages@.holds(old(self)@.pages@.count + 1 as int),
        ensures
            final(self)@.wf(),
            final(self)@.pages@ == (PagesView {
                count: old(self)@.pages@.count + 1,
                ..old(self)@.pages@
            }),
            final(self)@ == (EditorView { pages: final(self)@.pages, ..old(self)@ }),
            final(self)@.pages.id_spec() == old(self)@.pages.id_spec(),
    {
        self.pages.add_page()
    }

    pub fn remove_page(&mut self)
        requires
            old(self)@.wf(),
        ensures
            final(self)@.wf(),
            final(self)@.pages@ == (PagesView {
                count: if old(self)@.pages@.count > 1 {
                    (old(self)@.pages@.count - 1) as nat
                } else {
                    1
                },
                ..old(self)@.pages@
            }),
            final(self)@ == (EditorView { pages: final(self)@.pages, ..old(self)@ }),
            final(self)@.pages.id_spec() == old(self)@.pages.id_spec(),
    {
        self.pages.remove_page()
    }

    /// Does what a click on a button asks for. Only leaving the text tool
    /// asks something of the platform: that the capture of composed text
    /// stop.
    pub fn perform(&mut self, action: Action) -> (r: Request)
        requires
            old(self)@.wf(),
        ensures
            final(self)@.wf(),
            old(self)@.after_action(action, final(self)@),
            r@ == old(self)@.request_of(action),
    {
        match action {
            Action::Nothing => Request::Nothing,
            Action::AddPage => {
                if self.can_add_page() {
                    self.add_page();
                }
                Request::Nothing
            },
            Action::RemovePage => {
                self.remove_page();
                Request::Nothing
            },
            Action::SwitchPaper => {
                let style = self.pages.style().other_paper();
                self.set_pages_style(style);
                Request::Nothing
            },
            Action::SwitchGrid => {
                let style = self.pages.style().other_grid();
                self.set_pages_style(style);
                Request::Nothing
            },
            Action::SelectTool(tool) => self.set_tool(tool),
        }
    }

    /// Does what the clicks on buttons ask for, one after the other, and
    /// says what each asks of the platform.
    pub fn perform_all(&mut self, actions: &Vec<Action>) -> (requests: Vec<Request>)
        requires
            old(self)@.wf(),
        ensures
            final(self)@.wf(),
            old(self)@.performed(actions@, final(self)@, crate::platform::views(requests@)),
    {
        let mut requests: Vec<Request> = Vec::new();
        let mut i: usize = 0;
        while i < actions.len()
            invariant
                i <= actions.len(),
                self@.wf(),
                old(self)@.performed(
                    actions@.take(i as int),
                    self@,
                    crate::platform::views(requests@),
                ),
            decreases actions.len() - i,
        {
            let ghost mid = self@;
            let ghost before = crate::platform::views(requests@);
            let r = self.perform(actions[i]);
            requests.push(r);
            proof {
                let done = actions@.take(i + 1);
                let asked = crate::platform::views(requests@);
                assert(done.drop_last() =~= actions@.take(i as int));
                assert(asked.drop_last() =~= before);
                assert(done.last() == actions@[i as int]);
                assert(mid.after_action(done.last(), self@));
            }
            i += 1;
        }
        assert(actions@.take(actions@.len() as int) =~= actions@);
        requests
    }

    /// What draws the marks, in the order in which their cells were first
    /// clicked.
    pub fn draw_marks(&self) -> (cmds: Vec<DrawCommand>)
        requires
            self@.wf(),
        ensures
            cmds@ == draw_all(self@.marks, self@.marks.len() as int),
    {
        let mut cmds: Vec<DrawCommand> = Vec::new();
        let mut i: usize = 0;
        while i < self.marks.len()
            invariant
                self@.wf(),
                i <= self.marks.len(),
                cmds@ == draw_all(self@.marks, i as int),
            decreases self.marks.len() - i,
        {
            let mut part = self.marks[i].draw();
            cmds.append(&mut part);
            i += 1;
        }
        cmds
    }

    /// The place among the marks of the one anchored to the cell of
    /// `page_square`, if there is one.
    pub fn find_mark(&self, page_square: PageSquare) -> (r: Option<usize>)
        ensures
            match r {
                Some(i) => i < self@.marks.len() && self@.marks[i as int].anchor().same_cell(
                    page_square,
                ),
                None => forall|j: int|
                    0 <= j < self@.marks.len() ==> !(#[trigger] self@.marks[j]).anchor().same_cell(
                        page_square,
                    ),
            },
    {
        let mut i: usize = 0;
        while i < self.marks.len()
            invariant
                i <= self.marks.len(),
                forall|j: int|
                    0 <= j < i ==> !(#[trigger] self.marks@[j]).anchor().same_cell(page_square),
            decreases self.marks.len() - i,
        {
            if self.marks[i].page_square() == page_square {
                return Some(i);
            }
            i += 1;
        }
        None
    }

    /// Takes a click on the cell `page_square`.
    ///
    /// With the text tool selected, an empty text box in the default font
    /// is put on the cell, in place of the mark that was there if there was
    /// one; it may be as wide as the page reaches to the right of the cell.
    /// A session is opened on it and the capture of composed text is asked
    /// to start. With any other tool nothing happens.
    pub fn handle_click(&mut self, page_square: PageSquare) -> (r: Request)
        requires
            old(self)@.wf(),
            page_square.placed_on(&old(self)@.pages),
        ensures
            final(self)@.wf(),
            old(self)@.after_click(page_square, final(self)@),
            r@ == if old(self)@.tool is Text {
                RequestView::StartTextInput
            } else {
                RequestView::Nothing
            },
    {
        match self.tool_selected {
            ToolType::Text => {
                proof {
                    lemma_cell_on_page(&self.pages, page_square);
                }
                let offset: i32 = page_square.position.x() - self.pages.position().x();
                let max_width: u32 = self.pages.page_width() - offset as u32;
                let text_box = TextBox::new(
                    page_square,
                    String::from_str("NotoSerif"),
                    FontStyle::normal(),
                    DEFAULT_POINT,
                    Color::black(),
                    max_width,
                );
                let found = self.find_mark(page_square);
                let k = match found {
                    Some(i) => {
                        self.marks[i] = Mark::TextBox(text_box);
                        i
                    },
                    None => {
                        self.marks.push(Mark::TextBox(text_box));
                        self.marks.len() - 1
                    },
                };
                assert(k == old(self)@.place_of(page_square));
                self.awaiting_clipboard = false;
                self.text_tool.start_input(k)
            },
            _ => Request::Nothing,
        }
    }

    /// Asks for the text on the clipboard, to type it into the open text
    /// box. Unless the text tool is selected and a session is open, nothing
    /// happens.
    pub fn paste(&mut self) -> (r: Request)
        requires
            old(self)@.wf(),
        ensures
            final(self)@.wf(),
            r@ == final(self)@.outstanding(),
            old(self)@.tool is Text && old(self)@.text_tool.session is Some ==> final(self)@ == (
            EditorView {
                awaiting_clipboard: true,
                text_tool: TextToolView { pending: PendingView::Idle, ..old(self)@.text_tool },
                ..old(self)@
            }),
            !(old(self)@.tool is Text && old(self)@.text_tool.session is Some) ==> final(self)@
                == old(self)@,
    {
        match self.tool_selected {
            ToolType::Text => {
                if self.text_tool.is_active() {
                    self.text_tool.cancel();
                    self.awaiting_clipboard = true;
                    return Request::ReadClipboard;
                }
            },
            _ => {},
        }
        self.outstanding()
    }

    /// The request that stands open, made anew.
    pub fn outstanding(&self) -> (r: Request)
        requires
            self@.wf(),
        ensures
            r@ == self@.outstanding(),
    {
        if self.awaiting_clipboard {
            Request::ReadClipboard
        } else {
            self.text_tool.outstanding(&self.marks)
        }
    }

    /// Takes an input event. Whatever the editor waited for is given up.
    ///
    /// The paste shortcut, with the text tool selected and a session open,
    /// asks for the clipboard. Every other event, and the paste shortcut
    /// otherwise, goes to the text tool.
    pub fn handle_event(&mut self, event: &Event) -> (r: Request)
        requires
            old(self)@.wf(),
        ensures
            final(self)@.wf(),
            old(self)@.after_event(*event, final(self)@),
            r@ == final(self)@.outstanding(),
    {
        self.awaiting_clipboard = false;
        if event.is_paste() {
            let r = self.paste();
            if let Request::ReadClipboard = r {
                return r;
            }
        }
        let ghost before = self@.marks;
        let r = self.text_tool.handle_event(event, &mut self.marks);
        proof {
            lemma_step_keeps_cells(before, self@.marks);
        }
        r
    }

    /// Takes the platform's answer to the request that stands open.
    ///
    /// The text of the clipboard, where the editor waits for it, is typed
    /// into the open text box as one fragment, as composed text is. Every
    /// other answer goes to the text tool. A failure of the request that
    /// stands open gives the request up and is returned as an error with
    /// the platform's reason. An answer that was not asked for changes
    /// nothing.
    pub fn reply(&mut self, reply: Reply) -> (r: Result<Request, String>)
        requires
            old(self)@.wf(),
        ensures
            final(self)@.wf(),
            final(self)@.pages == old(self)@.pages,
            final(self)@.tool == old(self)@.tool,
            r is Err <==> old(self)@.fails(reply),
            r matches Err(reason) ==> reply matches Reply::Failed(given) && reason@ == given@,
            r matches Ok(request) ==> request@ == final(self)@.outstanding(),
            old(self)@.awaiting_clipboard ==> match reply {
                Reply::Clipboard(text) => {
                    &&& !final(self)@.awaiting_clipboard
                    &&& old(self)@.text_tool.after_typing(
                        old(self)@.marks,
                        text@,
                        final(self)@.text_tool,
                        final(self)@.marks,
                    )
                },
                Reply::Failed(_) => final(self)@ == (EditorView {
                    awaiting_clipboard: false,
                    ..old(self)@
                }),
                _ => final(self)@ == old(self)@,
            },
            !old(self)@.awaiting_clipboard ==> {
                &&& !final(self)@.awaiting_clipboard
                &&& old(self)@.text_tool.after_reply(
                    old(self)@.marks,
                    reply,
                    final(self)@.text_tool,
                    final(self)@.marks,
                )
            },
    {
        if self.awaiting_clipboard {
            match reply {
                Reply::Clipboard(text) => {
                    self.awaiting_clipboard = false;
                    let ghost before = self@.marks;
                    let r = self.text_tool.paste(text, &mut self.marks);
                    proof {
                        lemma_step_keeps_cells(before, self@.marks);
                    }
                    Ok(r)
                },
                Reply::Failed(reason) => {
                    self.awaiting_clipboard = false;
                    Err(reason)
                },
                _ => Ok(Request::ReadClipboard),
            }
        } else {
            let ghost before = self@.marks;
            let r = self.text_tool.reply(reply, &mut self.marks);
            proof {
                lemma_step_keeps_cells(before, self@.marks);
            }
            r
        }
    }
}

/// A cell placed on the pages starts no further right than the page ends.
proof fn lemma_cell_on_page(pages: &Pages, ps: PageSquare)
    requires
        pages.wf(),
        ps.placed_on(pages),
    ensures
        0 <= ps.position.x_spec() - pages@.page_x() <= pages@.page_width(),
        pages@.page_x() == 0,
{
    let i = ps.square.0 as int;
    let n = pages@.cols as int;
    let c = pages@.cell as int;
    assert(0 <= i * c <= n * (c + 1) - 1) by (nonlinear_arith)
        requires
            0 <= i < n,
            0 <= c,
    ;
}

/// Marks with the anchors, one by one, of marks on distinct cells lie on
/// distinct cells.
proof fn lemma_step_keeps_cells(before: Seq<Mark>, after: Seq<Mark>)
    requires
        after.len() == before.len(),
        forall|j: int| 0 <= j < before.len() ==> (#[trigger] after[j]).anchor() == before[j].anchor(),
        forall|i: int, j: int|
            0 <= i < j < before.len() ==> !(#[trigger] before[i]).anchor().same_cell(
                (#[trigger] before[j]).anchor(),
            ),
    ensures
        forall|i: int, j: int|
            0 <= i < j < after.len() ==> !(#[trigger] after[i]).anchor().same_cell(
                (#[trigger] after[j]).anchor(),
            ),
{
    assert forall|i: int, j: int| 0 <= i < j < after.len() implies !(#[trigger] after[i]).anchor().same_cell(
        (#[trigger] after[j]).anchor(),
    ) by {
        assert(after[i].anchor() == before[i].anchor());
        assert(after[j].anchor() == before[j].anchor());
    }
}

} // verus!
