//! The parts of the application together: how one input event goes through
//! them, and what draws a frame.
use vstd::prelude::*;
use crate::button::{pointer_of, Action, Button};
use crate::cursor::{Cursor, CursorView};
use crate::editor::{Editor, EditorView};
use crate::mark::draw_all;
use crate::menu::Menu;
use crate::platform::{views, DrawCommand, Event, Request, RequestView};
use crate::position::Position;
use crate::rect::Rect;
use crate::renderer::{Renderer, RendererView};

verus! {

/// The editor, the cursor, the two menus and the two buttons that are no
/// menu's.
pub struct AppComponents {
    pub editor: Editor,
    pub cursor: Cursor,
    pub bottom_menu: Menu,
    pub tool_menu: Menu,
    pub add_page_button: Button,
    pub remove_page_button: Button,
}

/// What the buttons ask of the editor after one event, in the order in
/// which the editor does it: first the bottom menu's, then the tool menu's,
/// then the two buttons'.
pub open spec fn in_order(
    bottom: Seq<Action>,
    tool: Seq<Action>,
    add_page: Action,
    remove_page: Action,
) -> Seq<Action> {
    bottom + tool + seq![add_page, remove_page]
}

impl AppComponents {
    /// Every button that is placed on the screen has screen coordinates
    /// that are values of `i32`.
    pub open spec fn placed(&self, screen_dimensions: (u32, u32)) -> bool {
        &&& self.bottom_menu.placed(screen_dimensions)
        &&& self.tool_menu.placed(screen_dimensions)
        &&& self.add_page_button@.placed(screen_dimensions)
        &&& self.remove_page_button@.placed(screen_dimensions)
    }

    /// Decides [`AppComponents::placed`].
    pub fn is_placed(&self, screen_dimensions: (u32, u32)) -> (ok: bool)
        ensures
            ok == self.placed(screen_dimensions),
    {
        self.bottom_menu.is_placed(screen_dimensions) && self.tool_menu.is_placed(screen_dimensions)
            && self.add_page_button.is_placed(screen_dimensions)
            && self.remove_page_button.is_placed(screen_dimensions)
    }

    /// A button is placed in the world, where it has no place on the
    /// screen.
    pub open spec fn in_world(&self) -> bool {
        ||| self.bottom_menu.in_world()
        ||| self.tool_menu.in_world()
        ||| self.add_page_button@.position is FreeOnWorld
        ||| self.remove_page_button@.position is FreeOnWorld
    }

    /// The parts of an application whose editor is `editor`, with a cursor
    /// in the window's corner.
    pub fn new(
        editor: Editor,
        bottom_menu: Menu,
        tool_menu: Menu,
        add_page_button: Button,
        remove_page_button: Button,
    ) -> (c: AppComponents)
        ensures
            c.editor == editor,
            c.cursor@ == (CursorView {
                position: Position::FreeOnScreen(0, 0),
                page_square: None,
                click_square: None,
            }),
            c.bottom_menu == bottom_menu,
            c.tool_menu == tool_menu,
            c.add_page_button == add_page_button,
            c.remove_page_button == remove_page_button,
    {
        AppComponents {
            editor,
            cursor: Cursor::new(),
            bottom_menu,
            tool_menu,
            add_page_button,
            remove_page_button,
        }
    }

    /// The coordinates hold the borders of the menus and the frame around
    /// the selected tool.
    pub open spec fn drawable(&self) -> bool {
        &&& self.bottom_menu@.border_fits()
        &&& self.tool_menu@.border_fits()
        &&& self.tool_menu.frame_fits(self.editor@.tool.index_spec())
    }

    /// Decides [`AppComponents::drawable`].
    pub fn can_draw(&self) -> (ok: bool)
        ensures
            ok == self.drawable(),
    {
        self.bottom_menu.can_draw() && self.tool_menu.can_draw() && self.tool_menu.can_frame(
            self.editor.get_tool().index(),
        )
    }

    /// What draws a frame under the view of `camera`, bottom to top: the
    /// pages, the marks, the cursor, the bottom menu, the tool menu, the
    /// two buttons, and the frame around the selected tool.
    pub open spec fn draw_spec(&self, camera: Rect) -> Seq<DrawCommand> {
        self.editor@.pages.draw_spec() + draw_all(
            self.editor@.marks,
            self.editor@.marks.len() as int,
        ) + self.cursor.draw_spec(&self.editor@.pages, camera) + self.bottom_menu.draw_spec()
            + self.tool_menu.draw_spec() + seq![
            self.add_page_button.draw_spec(),
            self.remove_page_button.draw_spec(),
            self.tool_menu.frame_spec(self.editor@.tool.index_spec()),
        ]
    }

    /// Draws a frame through `view`: sets the scrolling range of `view` to
    /// what the pages allow in its window now, and says what draws the
    /// frame under its camera.
    pub fn draw(&self, view: &mut Renderer) -> (cmds: Vec<DrawCommand>)
        requires
            self.editor@.wf(),
            self.drawable(),
        ensures
            final(view)@ == (RendererView { scroll_max: final(view)@.scroll_max, ..old(view)@ }),
            final(view)@.scroll_max == self.editor@.pages@.scroll_max(
                old(view)@.dimensions.1 as int,
            ),
            final(view)@.scroll_max >= 0,
            cmds@ == self.draw_spec(old(view)@.camera),
    {
        let pages = self.editor.get_pages();
        let mut cmds = pages.draw(view);
        let camera = view.camera();
        let mut marks = self.editor.draw_marks();
        cmds.append(&mut marks);
        let mut cursor = self.cursor.draw(pages, camera);
        cmds.append(&mut cursor);
        let mut bottom = self.bottom_menu.draw();
        cmds.append(&mut bottom);
        let mut tool = self.tool_menu.draw();
        cmds.append(&mut tool);
        cmds.push(self.add_page_button.draw());
        cmds.push(self.remove_page_button.draw());
        cmds.push(self.tool_menu.selection_frame(self.editor.get_tool().index()));
        assert(cmds@ =~= self.draw_spec(camera));
        cmds
    }

    /// `next` and `requests` are what `event` makes of `self` and asks of
    /// the platform, where the editor is `clicked` after the cursor has
    /// taken the event and `typed` after the editor has, and the buttons
    /// ask for `bottom`, `tool`, `add_page` and `remove_page`.
    ///
    /// The cursor takes the event first and hands a click to the editor,
    /// then the editor takes the event, then every button does, and last
    /// the editor does what the buttons ask for. The first request is the
    /// cursor's, the second the editor's, and one follows for each button.
    pub open spec fn dispatched(
        &self,
        event: Event,
        camera: Rect,
        screen_dimensions: (u32, u32),
        next: AppComponents,
        requests: Seq<RequestView>,
        clicked: EditorView,
        typed: EditorView,
        bottom: Seq<Action>,
        tool: Seq<Action>,
        add_page: Action,
        remove_page: Action,
    ) -> bool {
        &&& requests.len() >= 2
        &&& self.cursor@.after_event(
            self.editor@,
            event,
            camera,
            next.cursor@,
            clicked,
            requests[0],
        )
        &&& clicked.after_event(event, typed)
        &&& requests[1] == typed.outstanding()
        &&& self.bottom_menu.handled(event, screen_dimensions, next.bottom_menu, bottom)
        &&& self.tool_menu.handled(event, screen_dimensions, next.tool_menu, tool)
        &&& self.add_page_button.handled(
            event,
            screen_dimensions,
            next.add_page_button,
            add_page,
        )
        &&& self.remove_page_button.handled(
            event,
            screen_dimensions,
            next.remove_page_button,
            remove_page,
        )
        &&& typed.performed(
            in_order(bottom, tool, add_page, remove_page),
            next.editor@,
            requests.skip(2),
        )
    }

    /// Takes an input event under the view of `camera` on a screen of
    /// `screen_dimensions`, and says what it asks of the platform, in the
    /// order in which the platform is to do it.
    ///
    /// An event of the pointer fails where a button is placed in the
    /// world. The request that the editor is left with is the second, and
    /// no other asks for an answer.
    pub fn handle_event(&mut self, event: &Event, camera: Rect, screen_dimensions: (u32, u32)) -> (r:
        Result<Vec<Request>, String>)
        requires
            old(self).editor@.wf(),
            old(self).placed(screen_dimensions),
        ensures
            final(self).editor@.wf(),
            r is Err <==> pointer_of(*event) is Some && old(self).in_world(),
            r matches Err(e) ==> e@ == crate::position::missing_camera_message(),
            r matches Ok(requests) ==> {
                &&& exists|
                    clicked: EditorView,
                    typed: EditorView,
                    bottom: Seq<Action>,
                    tool: Seq<Action>,
                    add_page: Action,
                    remove_page: Action,
                |
                    #[trigger] old(self).dispatched(
                        *event,
                        camera,
                        screen_dimensions,
                        *final(self),
                        views(requests@),
                        clicked,
                        typed,
                        bottom,
                        tool,
                        add_page,
                        remove_page,
                    )
                &&& requests@.len() >= 2
                &&& requests@[1]@ == final(self).editor@.outstanding()
            },
    {
        let first = self.cursor.handle_event(event, camera, &mut self.editor);
        let ghost clicked = self.editor@;
        let second = self.editor.handle_event(event);
        let ghost typed = self.editor@;
        let mut actions = self.bottom_menu.handle_button_events(event, screen_dimensions)?;
        let ghost bottom = actions@;
        let mut tool_actions = self.tool_menu.handle_button_events(event, screen_dimensions)?;
        let ghost tool = tool_actions@;
        let add_page = self.add_page_button.handle_event(event, screen_dimensions)?;
        let remove_page = self.remove_page_button.handle_event(event, screen_dimensions)?;
        actions.append(&mut tool_actions);
        actions.push(add_page);
        actions.push(remove_page);
        assert(actions@ =~= in_order(bottom, tool, add_page, remove_page));
        let mut asked = self.editor.perform_all(&actions);
        let ghost behind = views(asked@);
        let mut requests: Vec<Request> = Vec::new();
        requests.push(first);
        requests.push(second);
        requests.append(&mut asked);
        proof {
            assert(views(requests@).skip(2) =~= behind);
            assert(old(self).dispatched(
                *event,
                camera,
                screen_dimensions,
                *self,
                views(requests@),
                clicked,
                typed,
                bottom,
                tool,
                add_page,
                remove_page,
            ));
            if pointer_of(*event) is Some {
                lemma_performed_keeps_quiet(typed, actions@, self.editor@, behind);
            } else {
                assert forall|k: int| 0 <= k < actions@.len() implies actions@[k]
                    == Action::Nothing by {
                    if k < bottom.len() {
                        assert(old(self).bottom_menu@.buttons[k].handled(
                            *event,
                            screen_dimensions,
                            self.bottom_menu@.buttons[k],
                            bottom[k],
                        ));
                    } else if k < bottom.len() + tool.len() {
                        let j = k - bottom.len();
                        assert(old(self).tool_menu@.buttons[j].handled(
                            *event,
                            screen_dimensions,
                            self.tool_menu@.buttons[j],
                            tool[j],
                        ));
                    }
                }
                lemma_performed_nothing(typed, actions@, self.editor@, behind);
            }
        }
        Ok(requests)
    }
}

/// An editor that waits for nothing waits for nothing after it has done
/// what buttons ask for.
pub proof fn lemma_performed_keeps_quiet(
    e: EditorView,
    actions: Seq<Action>,
    next: EditorView,
    requests: Seq<RequestView>,
)
    requires
        e.performed(actions, next, requests),
        e.text_tool.pending is Idle,
        !e.awaiting_clipboard,
    ensures
        next.text_tool.pending is Idle,
        !next.awaiting_clipboard,
        next.outstanding() == RequestView::Nothing,
    decreases actions.len(),
{
    if actions.len() > 0 {
        let mid = choose|mid: EditorView|
            {
                &&& e.performed(actions.drop_last(), mid, requests.drop_last())
                &&& #[trigger] mid.after_action(actions.last(), next)
                &&& requests.last() == mid.request_of(actions.last())
            };
        lemma_performed_keeps_quiet(e, actions.drop_last(), mid, requests.drop_last());
    }
}

/// Buttons that ask for nothing leave the editor as it is and ask nothing
/// of the platform.
pub proof fn lemma_performed_nothing(
    e: EditorView,
    actions: Seq<Action>,
    next: EditorView,
    requests: Seq<RequestView>,
)
    requires
        e.performed(actions, next, requests),
        forall|k: int| 0 <= k < actions.len() ==> actions[k] == Action::Nothing,
    ensures
        next == e,
        forall|k: int| 0 <= k < requests.len() ==> requests[k] == RequestView::Nothing,
    decreases actions.len(),
{
    if actions.len() > 0 {
        let mid = choose|mid: EditorView|
            {
                &&& e.performed(actions.drop_last(), mid, requests.drop_last())
                &&& #[trigger] mid.after_action(actions.last(), next)
                &&& requests.last() == mid.request_of(actions.last())
            };
        lemma_performed_nothing(e, actions.drop_last(), mid, requests.drop_last());
        assert forall|k: int| 0 <= k < requests.len() implies requests[k]
            == RequestView::Nothing by {
            if k < requests.len() - 1 {
                assert(requests.drop_last()[k] == requests[k]);
            }
        }
    }
}

} // verus!
