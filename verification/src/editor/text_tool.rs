//! The text tool: which text box is being typed into, and what the tool
//! waits for from the platform.
use vstd::prelude::*;
use crate::mark::Mark;
use crate::mark::textbox::TextBoxView;
use crate::platform::{Event, Keycode, Reply, Request, RequestView};

verus! {

/// What the text tool waits for.
pub enum Pending {
    /// Nothing.
    Idle,
    /// Whether the fragment overflows the last line.
    Overflow(String),
    /// The size of the last line's rendering.
    Render,
}

/// A [`Pending`] with its fragment as a sequence of characters.
pub enum PendingView {
    Idle,
    Overflow(Seq<char>),
    Render,
}

impl View for Pending {
    type V = PendingView;

    open spec fn view(&self) -> PendingView {
        match self {
            Pending::Idle => PendingView::Idle,
            Pending::Overflow(fragment) => PendingView::Overflow(fragment@),
            Pending::Render => PendingView::Render,
        }
    }
}

/// What the text tool is: the place among the marks of the text box that
/// is open for input, if one is, and what the tool waits for.
pub struct TextToolView {
    pub session: Option<int>,
    pub pending: PendingView,
}

impl TextToolView {
    /// An open session names one of `marks`, and the tool waits only while
    /// a session is open on a text box that has a line.
    pub open spec fn wf(self, marks: Seq<Mark>) -> bool {
        &&& self.session matches Some(i) ==> 0 <= i < marks.len()
        &&& self.pending !is Idle ==> self.session is Some
        &&& self.pending !is Idle ==> marks[self.session->0].text_box()@.lines.len() > 0
    }

    /// `next` and `next_marks` are what the typing of `fragment` makes of
    /// `self` and `marks` before the platform has measured it: with a
    /// session open, the text box has a line, an empty one if it had none,
    /// and the tool waits for the measurement that decides the wrapping of
    /// `fragment`; without one, nothing is waited for.
    pub open spec fn after_typing(
        self,
        marks: Seq<Mark>,
        fragment: Seq<char>,
        next: TextToolView,
        next_marks: Seq<Mark>,
    ) -> bool {
        &&& next.session == self.session
        &&& match self.session {
            None => next_marks == marks && next.pending is Idle,
            Some(i) => {
                &&& edited(marks, next_marks, i, marks[i].text_box()@.opened())
                &&& next.pending == PendingView::Overflow(fragment)
            },
        }
    }

    /// `next` and `next_marks` are what `event` makes of `self` and
    /// `marks`: whatever the tool waited for is given up; with a session
    /// open, composed text is typed and waits for its measurement,
    /// backspace deletes a character and has the last line rendered if one
    /// is left, and return starts a line.
    pub open spec fn after_event(
        self,
        marks: Seq<Mark>,
        event: Event,
        next: TextToolView,
        next_marks: Seq<Mark>,
    ) -> bool {
        &&& next.session == self.session
        &&& match self.session {
            None => next_marks == marks && next.pending is Idle,
            Some(i) => match event {
                Event::TextInput { text } => self.after_typing(marks, text@, next, next_marks),
                Event::KeyDown { keycode: Some(Keycode::Backspace), .. } => {
                    &&& edited(marks, next_marks, i, marks[i].text_box()@.popped())
                    &&& next.pending == if next_marks[i].text_box()@.lines.len() > 0 {
                        PendingView::Render
                    } else {
                        PendingView::Idle
                    }
                },
                Event::KeyDown { keycode: Some(Keycode::Return), .. } => {
                    &&& edited(marks, next_marks, i, marks[i].text_box()@.broken())
                    &&& next.pending is Idle
                },
                _ => next_marks == marks && next.pending is Idle,
            },
        }
    }

    /// `next` and `next_marks` are what the answer `reply` makes of `self`
    /// and `marks`: the answer to a measurement types the fragment, wrapped
    /// or not as the answer says, and has the last line rendered; the
    /// answer to a rendering records the size of the last line; a failure
    /// gives up what the tool waited for; any other answer changes
    /// nothing.
    pub open spec fn after_reply(
        self,
        marks: Seq<Mark>,
        reply: Reply,
        next: TextToolView,
        next_marks: Seq<Mark>,
    ) -> bool {
        &&& next.session == self.session
        &&& match (self.pending, reply) {
            (PendingView::Overflow(fragment), Reply::Overflow(overflow)) => {
                &&& edited(
                    marks,
                    next_marks,
                    self.session->0,
                    marks[self.session->0].text_box()@.pushed(fragment, overflow),
                )
                &&& next.pending is Render
            },
            (PendingView::Render, Reply::Rendered(w, h)) => {
                &&& edited(
                    marks,
                    next_marks,
                    self.session->0,
                    marks[self.session->0].text_box()@.sized((w, h)),
                )
                &&& next.pending is Idle
            },
            (_, Reply::Failed(_)) => next_marks == marks && next.pending is Idle,
            _ => next_marks == marks && next.pending == self.pending,
        }
    }

    /// The answer `reply` is a failure of the request that stands open.
    pub open spec fn fails(self, reply: Reply) -> bool {
        reply is Failed && !(self.pending is Idle)
    }

    /// The request that stands open.
    pub open spec fn outstanding(self, marks: Seq<Mark>) -> RequestView {
        match self.pending {
            PendingView::Idle => RequestView::Nothing,
            PendingView::Overflow(fragment) => marks[self.session->0].text_box().measure_spec(
                fragment,
            ),
            PendingView::Render => marks[self.session->0].text_box().render_spec(),
        }
    }
}

/// `after` is `before` with the text box at `i` holding `content`; its
/// setting and every other mark are as they were.
pub open spec fn edited(before: Seq<Mark>, after: Seq<Mark>, i: int, content: TextBoxView) -> bool {
    &&& after.len() == before.len()
    &&& forall|j: int| 0 <= j < before.len() && j != i ==> after[j] == before[j]
    &&& after[i].text_box()@ == content
    &&& after[i].text_box().same_setting(&before[i].text_box())
}

/// The state of the text tool.
pub struct TextTool {
    text_box: Option<usize>,
    pending: Pending,
}

impl View for TextTool {
    type V = TextToolView;

    closed spec fn view(&self) -> TextToolView {
        TextToolView {
            session: match self.text_box {
                Some(i) => Some(i as int),
                None => None,
            },
            pending: self.pending@,
        }
    }
}

impl TextTool {
    /// A tool without a session.
    pub fn new() -> (t: TextTool)
        ensures
            t@ == (TextToolView { session: None, pending: PendingView::Idle }),
    {
        TextTool { text_box: None, pending: Pending::Idle }
    }

    /// Opens a session on the text box at `text_box` among the marks, and
    /// asks for the capture of composed text to start.
    pub fn start_input(&mut self, text_box: usize) -> (r: Request)
        ensures
            final(self)@ == (TextToolView {
                session: Some(text_box as int),
                pending: PendingView::Idle,
            }),
            r@ == RequestView::StartTextInput,
    {
        self.text_box = Some(text_box);
        self.pending = Pending::Idle;
        Request::StartTextInput
    }

    /// Closes the session, if one is open, and asks for the capture of
    /// composed text to stop.
    pub fn stop_input(&mut self) -> (r: Request)
        ensures
            final(self)@ == (TextToolView { session: None, pending: PendingView::Idle }),
            r@ == RequestView::StopTextInput,
    {
        self.text_box = None;
        self.pending = Pending::Idle;
        Request::StopTextInput
    }

    /// Gives up whatever the tool waits for.
    pub fn cancel(&mut self)
        ensures
            final(self)@ == (TextToolView { pending: PendingView::Idle, ..old(self)@ }),
    {
        self.pending = Pending::Idle;
    }

    /// A session is open.
    pub fn is_active(&self) -> (b: bool)
        ensures
            b == self@.session is Some,
    {
        self.text_box.is_some()
    }

    /// Takes an input event. Whatever the tool waited for is given up.
    /// Without a session nothing else happens. With one, composed text
    /// opens the text box if it has no line and is put to the measurement
    /// that decides its wrapping, backspace deletes a character and has
    /// the last line rendered, and return starts a line.
    pub fn handle_event(&mut self, event: &Event, marks: &mut Vec<Mark>) -> (r: Request)
        requires
            old(self)@.wf(old(marks)@),
            forall|j: int| 0 <= j < old(marks)@.len() ==> (#[trigger] old(marks)@[j]).wf(),
        ensures
            final(self)@.wf(final(marks)@),
            forall|j: int| 0 <= j < final(marks)@.len() ==> (#[trigger] final(marks)@[j]).wf(),
            r@ == final(self)@.outstanding(final(marks)@),
            old(self)@.after_event(old(marks)@, *event, final(self)@, final(marks)@),
    {
        self.pending = Pending::Idle;
        let i = match self.text_box {
            Some(i) => i,
            None => {
                return Request::Nothing;
            },
        };
        match event {
            Event::TextInput { text } => self.paste(text.clone(), marks),
            Event::KeyDown { keycode: Some(Keycode::Backspace), .. } => {
                match &mut marks[i] {
                    Mark::TextBox(text_box) => {
                        text_box.pop();
                    },
                }
                match &marks[i] {
                    Mark::TextBox(text_box) => {
                        let r = text_box.render_request();
                        if let Request::Render(_) = r {
                            self.pending = Pending::Render;
                        }
                        r
                    },
                }
            },
            Event::KeyDown { keycode: Some(Keycode::Return), .. } => {
                match &mut marks[i] {
                    Mark::TextBox(text_box) => {
                        text_box.new_line();
                    },
                }
                Request::Nothing
            },
            _ => Request::Nothing,
        }
    }

    /// Types `text` into the open text box as one fragment: the box gets
    /// an empty first line if it has no line, and the fragment is put to
    /// the measurement that decides its wrapping. Whatever the tool waited
    /// for is given up. Without a session nothing else happens.
    pub fn paste(&mut self, text: String, marks: &mut Vec<Mark>) -> (r: Request)
        requires
            old(self)@.wf(old(marks)@),
            forall|j: int| 0 <= j < old(marks)@.len() ==> (#[trigger] old(marks)@[j]).wf(),
        ensures
            final(self)@.wf(final(marks)@),
            forall|j: int| 0 <= j < final(marks)@.len() ==> (#[trigger] final(marks)@[j]).wf(),
            r@ == final(self)@.outstanding(final(marks)@),
            old(self)@.after_typing(old(marks)@, text@, final(self)@, final(marks)@),
    {
        self.pending = Pending::Idle;
        let i = match self.text_box {
            Some(i) => i,
            None => {
                return Request::Nothing;
            },
        };
        match &mut marks[i] {
            Mark::TextBox(text_box) => {
                text_box.open();
            },
        }
        let r = match &marks[i] {
            Mark::TextBox(text_box) => text_box.measure_request(text.as_str()),
        };
        self.pending = Pending::Overflow(text);
        r
    }

    /// Takes the platform's answer to the request that stands open.
    ///
    /// The answer to a measurement types the fragment, wrapped or not as
    /// the answer says, and has the last line rendered. The answer to a
    /// rendering records the size of the last line. A failure of the
    /// request that stands open gives the request up and is returned as an
    /// error with the platform's reason. Any other answer changes nothing,
    /// and the request stands.
    pub fn reply(&mut self, reply: Reply, marks: &mut Vec<Mark>) -> (r: Result<Request, String>)
        requires
            old(self)@.wf(old(marks)@),
            forall|j: int| 0 <= j < old(marks)@.len() ==> (#[trigger] old(marks)@[j]).wf(),
        ensures
            final(self)@.wf(final(marks)@),
            forall|j: int| 0 <= j < final(marks)@.len() ==> (#[trigger] final(marks)@[j]).wf(),
            old(self)@.after_reply(old(marks)@, reply, final(self)@, final(marks)@),
            r is Err <==> old(self)@.fails(reply),
            r matches Err(reason) ==> reply matches Reply::Failed(given) && reason@ == given@,
            r matches Ok(request) ==> request@ == final(self)@.outstanding(final(marks)@),
    {
        let i = match self.text_box {
            Some(i) => i,
            None => {
                return Ok(Request::Nothing);
            },
        };
        match (&self.pending, reply) {
            (Pending::Idle, Reply::Failed(_)) => {},
            (_, Reply::Failed(reason)) => {
                self.pending = Pending::Idle;
                return Err(reason);
            },
            (Pending::Overflow(fragment), Reply::Overflow(overflow)) => {
                match &mut marks[i] {
                    Mark::TextBox(text_box) => {
                        text_box.push_str(fragment.as_str(), overflow);
                    },
                }
                self.pending = Pending::Render;
            },
            (Pending::Render, Reply::Rendered(w, h)) => {
                match &mut marks[i] {
                    Mark::TextBox(text_box) => {
                        text_box.update((w, h));
                    },
                }
                self.pending = Pending::Idle;
            },
            _ => {},
        }
        Ok(self.outstanding(marks))
    }

    /// The request that stands open, made anew.
    pub fn outstanding(&self, marks: &Vec<Mark>) -> (r: Request)
        requires
            self@.wf(marks@),
            forall|j: int| 0 <= j < marks@.len() ==> (#[trigger] marks@[j]).wf(),
        ensures
            r@ == self@.outstanding(marks@),
    {
        match (&self.pending, self.text_box) {
            (Pending::Overflow(fragment), Some(i)) => match &marks[i] {
                Mark::TextBox(text_box) => text_box.measure_request(fragment.as_str()),
            },
            (Pending::Render, Some(i)) => match &marks[i] {
                Mark::TextBox(text_box) => text_box.render_request(),
            },
            _ => Request::Nothing,
        }
    }
}

} // verus!
