//! The pointer: where it is, the cell under it, and the click gesture.
use vstd::prelude::*;
use crate::editor::{Editor, EditorView};
use crate::pages::Pages;
use crate::pages::PAGE_PADDING;
use crate::platform::{DrawCommand, Event, Request, RequestView};
use crate::position::{PageSquare, Position};
use crate::rect::{Color, Rect};

verus! {

/// What the cursor is: the pointer's place on the screen, the cell under
/// it when it last moved, and the cell on which the button went down.
pub struct CursorView {
    pub position: Position,
    pub page_square: Option<PageSquare>,
    pub click_square: Option<PageSquare>,
}

impl CursorView {
    /// `next`, `next_editor` and `request` are what `event` makes of `self`
    /// and `editor` under the view of `camera`, and what it asks of the
    /// platform.
    ///
    /// A move of the pointer sets the cursor's place and the cell under
    /// it. A button going down latches the cell under the pointer. A
    /// button coming up releases the latch, and where it comes up over the
    /// latched cell, the editor takes a click on that cell. Any other
    /// event changes nothing.
    pub open spec fn after_event(
        self,
        editor: EditorView,
        event: Event,
        camera: Rect,
        next: CursorView,
        next_editor: EditorView,
        request: RequestView,
    ) -> bool {
        match event {
            Event::MouseMotion { x, y } => {
                &&& next == (CursorView {
                    position: Position::FreeOnScreen(x, y),
                    page_square: editor.pages.square_at_spec(Position::FreeOnScreen(x, y), camera),
                    click_square: self.click_square,
                })
                &&& next_editor == editor
                &&& request == RequestView::Nothing
            },
            Event::MouseButtonDown { x, y } => {
                &&& next == (CursorView {
                    click_square: editor.pages.square_at_spec(Position::FreeOnScreen(x, y), camera),
                    ..self
                })
                &&& next_editor == editor
                &&& request == RequestView::Nothing
            },
            Event::MouseButtonUp { x, y } => {
                let up = editor.pages.square_at_spec(Position::FreeOnScreen(x, y), camera);
                &&& next == (CursorView { click_square: None, ..self })
                &&& if self.completes_click(up) {
                    &&& editor.after_click(up->0, next_editor)
                    &&& request == if editor.tool is Text {
                        RequestView::StartTextInput
                    } else {
                        RequestView::Nothing
                    }
                } else {
                    &&& next_editor == editor
                    &&& request == RequestView::Nothing
                }
            },
            _ => {
                &&& next == self
                &&& next_editor == editor
                &&& request == RequestView::Nothing
            },
        }
    }

    /// A button released over the cell `up` completes a click: the button
    /// went down on a cell, it comes up over a cell, and the two are the
    /// same.
    pub open spec fn completes_click(self, up: Option<PageSquare>) -> bool {
        self.click_square matches Some(down) && up matches Some(u) && down.same_cell(u)
    }
}

/// The colour that dims the row and the column of the pointer's cell.
pub open spec fn shade() -> Color {
    Color { r: 0, g: 0, b: 0, a: 50 }
}

/// What marks the cell in column `col` and row `row` of page `i`: a black
/// outline two pixels thick around the cell, then a shade over the column
/// above it, over the row to its left, over the column below it and over
/// the row to its right. A shade is one pixel narrower than the cell. The
/// shades below and to the right are left out where they would start
/// beyond the page.
pub open spec fn highlight(pages: &Pages, i: int, col: int, row: int) -> Seq<DrawCommand> {
    let sq = pages@.cell as int;
    let x0 = pages@.page_x();
    let y0 = pages@.page_y(i);
    let sx = x0 + col * sq;
    let sy = y0 + row * sq;
    let below = pages@.page_height() - row * sq - (sq - 1);
    let right = pages@.page_width() - col * sq - (sq - 1);
    seq![
        DrawCommand::Outline {
            position: Position::FreeOnWorld(sx as i32, sy as i32),
            thickness: 2,
            size: (sq as u32, sq as u32),
            color: Color::black_spec(),
        },
        DrawCommand::Fill {
            position: Position::FreeOnWorld(sx as i32, y0 as i32),
            size: ((sq - 1) as u32, (row * sq) as u32),
            color: shade(),
        },
        DrawCommand::Fill {
            position: Position::FreeOnWorld(x0 as i32, sy as i32),
            size: ((col * sq) as u32, (sq - 1) as u32),
            color: shade(),
        },
    ] + if below >= 0 {
        seq![
            DrawCommand::Fill {
                position: Position::FreeOnWorld(sx as i32, (sy + sq) as i32),
                size: ((sq - 1) as u32, below as u32),
                color: shade(),
            },
        ]
    } else {
        Seq::empty()
    } + if right >= 0 {
        seq![
            DrawCommand::Fill {
                position: Position::FreeOnWorld((sx + sq) as i32, sy as i32),
                size: (right as u32, (sq - 1) as u32),
                color: shade(),
            },
        ]
    } else {
        Seq::empty()
    }
}

/// The pointer.
pub struct Cursor {
    position: Position,
    page_square: Option<PageSquare>,
    click_square: Option<PageSquare>,
}

impl View for Cursor {
    type V = CursorView;

    closed spec fn view(&self) -> CursorView {
        CursorView {
            position: self.position,
            page_square: self.page_square,
            click_square: self.click_square,
        }
    }
}

impl Cursor {
    /// A cursor in the window's corner, over no cell.
    pub fn new() -> (c: Cursor)
        ensures
            c@ == (CursorView {
                position: Position::FreeOnScreen(0, 0),
                page_square: None,
                click_square: None,
            }),
    {
        Cursor { position: Position::FreeOnScreen(0, 0), page_square: None, click_square: None }
    }

    /// Takes an input event under the view of `camera`.
    ///
    /// A move of the pointer sets the cursor's place and the cell under
    /// it. A button going down latches the cell under the pointer. A
    /// button coming up releases the latch, and where it comes up over the
    /// latched cell, the editor takes a click on that cell. Any other
    /// event changes nothing.
    pub fn handle_event(&mut self, e: &Event, camera: Rect, editor: &mut Editor) -> (r: Request)
        requires
            old(editor)@.wf(),
        ensures
            final(editor)@.wf(),
            old(self)@.after_event(old(editor)@, *e, camera, final(self)@, final(editor)@, r@),
    {
        match e {
            Event::MouseMotion { x, y } => {
                self.position = Position::FreeOnScreen(*x, *y);
                self.page_square = editor.get_pages().square_at(self.position, camera);
                Request::Nothing
            },
            Event::MouseButtonDown { x, y } => {
                self.click_square = editor.get_pages().square_at(
                    Position::FreeOnScreen(*x, *y),
                    camera,
                );
                Request::Nothing
            },
            Event::MouseButtonUp { x, y } => {
                let up = editor.get_pages().square_at(Position::FreeOnScreen(*x, *y), camera);
                let down = self.click_square;
                self.click_square = None;
                match (down, up) {
                    (Some(d), Some(u)) => {
                        if d == u {
                            editor.handle_click(u)
                        } else {
                            Request::Nothing
                        }
                    },
                    _ => Request::Nothing,
                }
            },
            _ => Request::Nothing,
        }
    }

    /// What draws the cursor over `pages` under the view of `camera`: the
    /// highlight of the cell under the pointer, if the pointer is over a
    /// page. The positions are in the world frame.
    pub open spec fn draw_spec(&self, pages: &Pages, camera: Rect) -> Seq<DrawCommand> {
        match pages.cell_under_spec(self@.position, camera) {
            Some((i, col, row)) => highlight(pages, i, col, row),
            None => Seq::empty(),
        }
    }

    pub fn draw(&self, pages: &Pages, camera: Rect) -> (cmds: Vec<DrawCommand>)
        requires
            pages.wf(),
        ensures
            cmds@ == self.draw_spec(pages, camera),
    {
        let mut cmds: Vec<DrawCommand> = Vec::new();
        let (i, col, row) = match pages.cell_under(self.position, camera) {
            Some(c) => c,
            None => {
                return cmds;
            },
        };
        proof {
            crate::pages::lemma_holds_fewer(pages@, i + 1, pages@.count as int);
            crate::pages::lemma_page_bounds(pages@, i as int);
        }
        let sq = pages.square_size();
        let width = pages.page_width();
        let height = pages.page_height();
        let pitch: i32 = height as i32 + PAGE_PADDING;
        assert(pitch * (i as i32) == pages@.pitch() * i) by (nonlinear_arith)
            requires
                pitch == pages@.pitch(),
                0 <= i <= i32::MAX,
        ;
        let y0: i32 = PAGE_PADDING + pitch * i as i32;
        let across: u32 = col * sq;
        let down: u32 = row * sq;
        let sx: i32 = across as i32;
        let sy: i32 = y0 + down as i32;
        let dim = Color::rgba(0, 0, 0, 50);
        cmds.push(
            DrawCommand::Outline {
                position: Position::FreeOnWorld(sx, sy),
                thickness: 2,
                size: (sq, sq),
                color: Color::black(),
            },
        );
        cmds.push(
            DrawCommand::Fill {
                position: Position::FreeOnWorld(sx, y0),
                size: (sq - 1, down),
                color: dim,
            },
        );
        cmds.push(
            DrawCommand::Fill {
                position: Position::FreeOnWorld(0, sy),
                size: (across, sq - 1),
                color: dim,
            },
        );
        if height - down >= sq - 1 {
            cmds.push(
                DrawCommand::Fill {
                    position: Position::FreeOnWorld(sx, sy + sq as i32),
                    size: (sq - 1, height - down - (sq - 1)),
                    color: dim,
                },
            );
        }
        if width - across >= sq - 1 {
            cmds.push(
                DrawCommand::Fill {
                    position: Position::FreeOnWorld(sx + sq as i32, sy),
                    size: (width - across - (sq - 1), sq - 1),
                    color: dim,
                },
            );
        }
        assert(cmds@ =~= highlight(pages, i as int, col as int, row as int));
        cmds
    }

    /// The pointer's place on the screen.
    pub fn position(&self) -> (p: Position)
        ensures
            p == self@.position,
    {
        self.position
    }

    /// The cell under the pointer when it last moved.
    pub fn page_square(&self) -> (s: Option<PageSquare>)
        ensures
            s == self@.page_square,
    {
        self.page_square
    }

    /// The cell on which the button went down, until it comes up.
    pub fn click_square(&self) -> (s: Option<PageSquare>)
        ensures
            s == self@.click_square,
    {
        self.click_square
    }
}

} // verus!
