//! The view onto the world: the camera, its scrolling range and the window
//! it fills.
use vstd::prelude::*;
use crate::pages::Pages;
use crate::platform::Event;
use crate::position::Position;
use crate::rect::Rect;

verus! {

/// `v`, raised to `0` where it is below, then lowered to `max` where it is
/// above.
pub open spec fn clamp_scroll(v: int, max: int) -> int {
    let raised = if v < 0 {
        0
    } else {
        v
    };
    if raised > max {
        max
    } else {
        raised
    }
}

/// Half of `d`, rounded toward zero.
pub open spec fn half_toward_zero(d: int) -> int {
    if d >= 0 {
        d / 2
    } else {
        -((-d) / 2)
    }
}

/// What the renderer is: the window's size, the rectangle of the world that
/// the window shows, how far down that rectangle may move, and the side of
/// a cell of the pages, by which one notch of the wheel moves it.
pub struct RendererView {
    pub dimensions: (u32, u32),
    pub camera: Rect,
    pub scroll_max: i32,
    pub cell_size: u32,
}

impl RendererView {
    /// The ordinate of the camera after the wheel has turned `dy` notches:
    /// a positive turn scrolls up, a negative one scrolls down, one cell for
    /// each notch, and the camera stays between `0` and the scrolling
    /// range.
    pub open spec fn scrolled_y(self, dy: int) -> int {
        clamp_scroll(self.camera.y - dy * self.cell_size, self.scroll_max as int)
    }

    /// The abscissa of a camera that shows pages of width `page_width` in
    /// the middle of a window of width `width`.
    pub open spec fn centered_x(page_width: int, width: int) -> int {
        half_toward_zero(page_width - width)
    }
}

/// The camera and the window.
pub struct Renderer {
    camera: Rect,
    scroll_max: i32,
    cell_size: u32,
    dimensions: (u32, u32),
}

impl View for Renderer {
    type V = RendererView;

    closed spec fn view(&self) -> RendererView {
        RendererView {
            dimensions: self.dimensions,
            camera: self.camera,
            scroll_max: self.scroll_max,
            cell_size: self.cell_size,
        }
    }
}

impl Renderer {
    /// The renderer of a window of size `dimensions` onto pages with cells
    /// of side `cell_size`: the camera at the origin of the world, as large
    /// as the window, with nowhere to scroll.
    pub fn new(dimensions: (u32, u32), cell_size: u32) -> (r: Renderer)
        ensures
            r@ == (RendererView {
                dimensions,
                camera: Rect { x: 0, y: 0, w: dimensions.0, h: dimensions.1 },
                scroll_max: 0,
                cell_size,
            }),
    {
        Renderer {
            camera: Rect::new(0, 0, dimensions.0, dimensions.1),
            scroll_max: 0,
            cell_size,
            dimensions,
        }
    }

    /// The size of the window.
    pub fn dimensions(&self) -> (d: (u32, u32))
        ensures
            d == self@.dimensions,
    {
        self.dimensions
    }

    pub fn camera(&self) -> (c: Rect)
        ensures
            c == self@.camera,
    {
        self.camera
    }

    pub fn set_camera(&mut self, rect: Rect)
        ensures
            final(self)@ == (RendererView { camera: rect, ..old(self)@ }),
    {
        self.camera = rect
    }

    pub fn scroll_max(&self) -> (m: i32)
        ensures
            m == self@.scroll_max,
    {
        self.scroll_max
    }

    pub fn set_scroll_max(&mut self, new_max: i32)
        ensures
            final(self)@ == (RendererView { scroll_max: new_max, ..old(self)@ }),
    {
        self.scroll_max = new_max
    }

    /// Sets the scrolling range to what `pages` have now: their height
    /// with the padding above and below, less the window's height.
    pub fn fit_scroll_max(&mut self, pages: &Pages)
        requires
            pages.wf(),
        ensures
            final(self)@ == (RendererView {
                scroll_max: final(self)@.scroll_max,
                ..old(self)@
            }),
            final(self)@.scroll_max == pages@.scroll_max(old(self)@.dimensions.1 as int),
            final(self)@.scroll_max >= 0,
    {
        self.scroll_max = pages.scroll_max(self.dimensions.1)
    }

    /// Moves the camera by `dy` notches of the wheel, within the scrolling
    /// range.
    pub fn scroll(&mut self, dy: i32)
        ensures
            final(self)@ == (RendererView {
                camera: Rect { y: final(self)@.camera.y, ..old(self)@.camera },
                ..old(self)@
            }),
            final(self)@.camera.y == old(self)@.scrolled_y(dy as int),
            old(self)@.scroll_max >= 0 ==> 0 <= final(self)@.camera.y <= old(self)@.scroll_max,
    {
        proof {
            lemma_notches_bounded(dy as int, self.cell_size as int);
        }
        let target: i128 = self.camera.y as i128 - dy as i128 * self.cell_size as i128;
        let raised: i128 = if target < 0 {
            0
        } else {
            target
        };
        let new_y: i128 = if raised > self.scroll_max as i128 {
            self.scroll_max as i128
        } else {
            raised
        };
        self.camera = Rect::new(self.camera.x, new_y as i32, self.camera.w, self.camera.h)
    }

    /// Fits the camera to a window resized to `width` by `height`, over
    /// pages of width `page_width`: the camera takes the window's size and
    /// moves sideways so that the pages stay in the middle; its ordinate
    /// stays.
    pub fn on_resize(&mut self, width: u32, height: u32, page_width: u32)
        ensures
            final(self)@ == (RendererView {
                dimensions: (width, height),
                camera: Rect {
                    x: final(self)@.camera.x,
                    y: old(self)@.camera.y,
                    w: width,
                    h: height,
                },
                ..old(self)@
            }),
            final(self)@.camera.x == RendererView::centered_x(page_width as int, width as int),
    {
        let d: i64 = page_width as i64 - width as i64;
        let x: i64 = d / 2;
        self.dimensions = (width, height);
        self.camera = Rect::new(x as i32, self.camera.y, width, height)
    }
}

impl Renderer {
    /// Takes an input event over pages of width `page_width`, and says
    /// whether the event was the renderer's: a resize of the window fits
    /// the camera to it, a turn of the wheel scrolls, and any other event
    /// is left to the cursor and the editor.
    pub fn handle_event(&mut self, event: &Event, page_width: u32) -> (taken: bool)
        ensures
            match *event {
                Event::Resized { width, height } => {
                    &&& taken
                    &&& final(self)@ == (RendererView {
                        dimensions: (width, height),
                        camera: Rect {
                            x: final(self)@.camera.x,
                            y: old(self)@.camera.y,
                            w: width,
                            h: height,
                        },
                        ..old(self)@
                    })
                    &&& final(self)@.camera.x == RendererView::centered_x(
                        page_width as int,
                        width as int,
                    )
                },
                Event::MouseWheel { y } => {
                    &&& taken
                    &&& final(self)@ == (RendererView {
                        camera: Rect { y: final(self)@.camera.y, ..old(self)@.camera },
                        ..old(self)@
                    })
                    &&& final(self)@.camera.y == old(self)@.scrolled_y(y as int)
                },
                _ => !taken && final(self)@ == old(self)@,
            },
    {
        match event {
            Event::Resized { width, height } => {
                self.on_resize(*width, *height, page_width);
                true
            },
            Event::MouseWheel { y } => {
                self.scroll(*y);
                true
            },
            _ => false,
        }
    }

    /// Whether text rendered `width` pixels wide overflows a line that may
    /// be `max_width` pixels wide.
    pub fn text_overflow(width: u32, max_width: u32) -> (overflow: bool)
        ensures
            overflow == (width > max_width),
    {
        width > max_width
    }

    /// The screen coordinates of `position` in this window under this
    /// camera are values of `i32`.
    pub fn can_place(&self, position: Position) -> (ok: bool)
        ensures
            ok == position.screen_fits(Some(self@.dimensions), Some(self@.camera)),
    {
        position.fits_on_screen(Some(self.dimensions), Some(self.camera))
    }

    /// The coordinates hold an outline `thickness` pixels thick around
    /// something of `size` at `position`.
    pub open spec fn outline_fits(self, position: Position, thickness: i32, size: (u32, u32)) -> bool {
        &&& position.screen_fits(Some(self@.dimensions), Some(self@.camera))
        &&& thickness > 0 ==> {
            &&& position.on_screen(Some(self@.dimensions), Some(self@.camera)).0 - thickness
                >= i32::MIN
            &&& position.on_screen(Some(self@.dimensions), Some(self@.camera)).1 - thickness
                >= i32::MIN
            &&& size.0 + 2 * thickness <= u32::MAX
            &&& size.1 + 2 * thickness <= u32::MAX
        }
    }

    /// Decides [`Renderer::outline_fits`].
    pub fn can_outline(&self, position: Position, thickness: i32, size: (u32, u32)) -> (ok: bool)
        ensures
            ok == self.outline_fits(position, thickness, size),
    {
        if !self.can_place(position) {
            return false;
        }
        if thickness <= 0 {
            return true;
        }
        let p = self.to_screen(position);
        let t: i64 = thickness as i64;
        let low: i64 = -0x8000_0000;
        let high: i64 = 0xffff_ffff;
        p.x() as i64 - t >= low && p.y() as i64 - t >= low && size.0 as i64 + 2 * t <= high
            && size.1 as i64 + 2 * t <= high
    }

    /// The screen position of `position` in this window under this camera.
    pub fn to_screen(&self, position: Position) -> (p: Position)
        requires
            position.screen_fits(Some(self@.dimensions), Some(self@.camera)),
        ensures
            p is FreeOnScreen,
            p.x_spec() == position.on_screen(Some(self@.dimensions), Some(self@.camera)).0,
            p.y_spec() == position.on_screen(Some(self@.dimensions), Some(self@.camera)).1,
    {
        match position.to_free_on_screen(Some(self.dimensions), Some(self.camera)) {
            Ok(p) => p,
            Err(_) => position,
        }
    }

    /// The rectangle of the screen that something of `size` at `position`
    /// fills.
    pub fn screen_rect(&self, position: Position, size: (u32, u32)) -> (r: Rect)
        requires
            position.screen_fits(Some(self@.dimensions), Some(self@.camera)),
        ensures
            r.x == position.on_screen(Some(self@.dimensions), Some(self@.camera)).0,
            r.y == position.on_screen(Some(self@.dimensions), Some(self@.camera)).1,
            r.w == size.0,
            r.h == size.1,
    {
        let p = self.to_screen(position);
        Rect::new(p.x(), p.y(), size.0, size.1)
    }

    /// The rectangles that make an outline `thickness` pixels thick around
    /// something of `size` at `position`: the innermost is the thing's own
    /// edge, and each next one lies one pixel further out on every side.
    pub fn outline(&self, position: Position, thickness: i32, size: (u32, u32)) -> (rings: Vec<Rect>)
        requires
            self.outline_fits(position, thickness, size),
        ensures
            rings@.len() == if thickness > 0 {
                thickness as int
            } else {
                0
            },
            forall|k: int|
                0 <= k < rings@.len() ==> {
                    &&& (#[trigger] rings@[k]).x == position.on_screen(
                        Some(self@.dimensions),
                        Some(self@.camera),
                    ).0 - k
                    &&& rings@[k].y == position.on_screen(
                        Some(self@.dimensions),
                        Some(self@.camera),
                    ).1 - k
                    &&& rings@[k].w == size.0 + 2 * k
                    &&& rings@[k].h == size.1 + 2 * k
                },
    {
        let start = self.to_screen(position);
        let mut rings: Vec<Rect> = Vec::new();
        let mut k: i32 = 0;
        while k < thickness
            invariant
                0 <= k,
                k <= thickness || k == 0,
                rings@.len() == k,
                start.x_spec() - thickness >= i32::MIN,
                start.y_spec() - thickness >= i32::MIN,
                size.0 + 2 * thickness <= u32::MAX,
                size.1 + 2 * thickness <= u32::MAX,
                forall|j: int|
                    0 <= j < k ==> {
                        &&& (#[trigger] rings@[j]).x == start.x_spec() - j
                        &&& rings@[j].y == start.y_spec() - j
                        &&& rings@[j].w == size.0 + 2 * j
                        &&& rings@[j].h == size.1 + 2 * j
                    },
            decreases thickness - k,
        {
            rings.push(
                Rect::new(start.x() - k, start.y() - k, size.0 + 2 * k as u32, size.1 + 2 * k as u32),
            );
            k += 1;
        }
        rings
    }
}

/// Scrolling keeps a camera within the scrolling range, whatever the turn
/// of the wheel: a turn up moves a camera that is within the range no
/// further down and not above the top, and a turn down moves it no further
/// up and not below the bottom of the range.
pub proof fn lemma_scroll_stays_in_range(v: RendererView, dy: int)
    requires
        v.scroll_max >= 0,
    ensures
        0 <= v.scrolled_y(dy) <= v.scroll_max,
        dy >= 0 && 0 <= v.camera.y <= v.scroll_max ==> v.scrolled_y(dy) <= v.camera.y,
        dy <= 0 && 0 <= v.camera.y <= v.scroll_max ==> v.scrolled_y(dy) >= v.camera.y,
        dy == 0 && 0 <= v.camera.y <= v.scroll_max ==> v.scrolled_y(dy) == v.camera.y,
{
    let step = v.cell_size as int;
    assert(dy >= 0 ==> dy * step >= 0) by (nonlinear_arith)
        requires
            step >= 0,
    ;
    assert(dy <= 0 ==> dy * step <= 0) by (nonlinear_arith)
        requires
            step >= 0,
    ;
}

proof fn lemma_notches_bounded(dy: int, step: int)
    by (nonlinear_arith)
    requires
        -0x8000_0000 <= dy <= 0x7fff_ffff,
        0 <= step <= 0xffff_ffff,
    ensures
        -0x8000_0000_0000_0000 <= dy * step <= 0x8000_0000_0000_0000,
{
}

} // verus!
