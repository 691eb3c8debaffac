//! Positions in the five coordinate frames, and their conversion to the
//! screen frame.
use vstd::prelude::*;
use vstd::string::StringExecFns;
use crate::pages::Pages;
use crate::rect::Rect;

verus! {

/// A point together with the frame it is measured in.
///
/// The anchored frames measure inward from a window corner; `FreeOnScreen`
/// measures from the window's top-left corner; `FreeOnWorld` measures in the
/// scrollable document space.
#[derive(Clone, Copy, Debug, Hash, PartialEq, Eq, Structural)]
pub enum Position {
    /// Offset from the left and bottom edges of the window.
    AnchoredLeftBottom(i32, i32),
    /// Offset from the right and top edges of the window.
    AnchoredRightTop(i32, i32),
    /// Offset from the right and bottom edges of the window.
    AnchoredRightBottom(i32, i32),
    /// Offset from the left and top edges of the window.
    FreeOnScreen(i32, i32),
    /// Offset from the origin of the document.
    FreeOnWorld(i32, i32),
}

/// The message of the error for an anchored position converted without
/// window dimensions.
pub open spec fn missing_screen_message() -> Seq<char> {
    "Cannot convert anchored on-screen position to free on-screen position, without screen dimensions."@
}

/// The message of the error for a world position converted without a camera.
pub open spec fn missing_camera_message() -> Seq<char> {
    "Cannot convert free on-world position to free on-screen position, without camera."@
}

/// `v` is a value of `i32`.
pub open spec fn fits_i32(v: int) -> bool {
    i32::MIN <= v <= i32::MAX
}

impl Position {
    pub open spec fn x_spec(self) -> int {
        match self {
            Position::AnchoredLeftBottom(x, _) => x as int,
            Position::AnchoredRightTop(x, _) => x as int,
            Position::AnchoredRightBottom(x, _) => x as int,
            Position::FreeOnScreen(x, _) => x as int,
            Position::FreeOnWorld(x, _) => x as int,
        }
    }

    pub open spec fn y_spec(self) -> int {
        match self {
            Position::AnchoredLeftBottom(_, y) => y as int,
            Position::AnchoredRightTop(_, y) => y as int,
            Position::AnchoredRightBottom(_, y) => y as int,
            Position::FreeOnScreen(_, y) => y as int,
            Position::FreeOnWorld(_, y) => y as int,
        }
    }

    /// Both positions are measured in the same frame.
    pub open spec fn same_frame(self, other: Position) -> bool {
        match self {
            Position::AnchoredLeftBottom(_, _) => other is AnchoredLeftBottom,
            Position::AnchoredRightTop(_, _) => other is AnchoredRightTop,
            Position::AnchoredRightBottom(_, _) => other is AnchoredRightBottom,
            Position::FreeOnScreen(_, _) => other is FreeOnScreen,
            Position::FreeOnWorld(_, _) => other is FreeOnWorld,
        }
    }

    /// The frame measures from a window edge other than left and top, so a
    /// conversion to the screen frame needs the window's dimensions.
    pub open spec fn is_anchored(self) -> bool {
        self is AnchoredLeftBottom || self is AnchoredRightTop || self is AnchoredRightBottom
    }

    /// The frame's first coordinate grows to the left.
    pub open spec fn measures_from_right(self) -> bool {
        self is AnchoredRightTop || self is AnchoredRightBottom
    }

    /// The frame's second coordinate grows upward.
    pub open spec fn measures_from_bottom(self) -> bool {
        self is AnchoredLeftBottom || self is AnchoredRightBottom
    }

    /// The first coordinate after a move of `dx` pixels to the right.
    pub open spec fn moved_x(self, dx: int) -> int {
        if self.measures_from_right() {
            self.x_spec() - dx
        } else {
            self.x_spec() + dx
        }
    }

    /// The second coordinate after a move of `dy` pixels down.
    pub open spec fn moved_y(self, dy: int) -> int {
        if self.measures_from_bottom() {
            self.y_spec() - dy
        } else {
            self.y_spec() + dy
        }
    }

    /// The position after a move of `dx` pixels to the right and `dy`
    /// pixels down, in the frame of `self`.
    pub open spec fn moved(self, dx: int, dy: int) -> Position {
        let x = self.moved_x(dx) as i32;
        let y = self.moved_y(dy) as i32;
        match self {
            Position::AnchoredLeftBottom(_, _) => Position::AnchoredLeftBottom(x, y),
            Position::AnchoredRightTop(_, _) => Position::AnchoredRightTop(x, y),
            Position::AnchoredRightBottom(_, _) => Position::AnchoredRightBottom(x, y),
            Position::FreeOnScreen(_, _) => Position::FreeOnScreen(x, y),
            Position::FreeOnWorld(_, _) => Position::FreeOnWorld(x, y),
        }
    }

    /// The horizontal distance of the point from the window's left edge,
    /// given the window's width and the camera's left edge where the frame
    /// calls for them.
    pub open spec fn screen_x(self, screen_w: int, camera_x: int) -> int {
        match self {
            Position::AnchoredLeftBottom(dx, _) => dx as int,
            Position::AnchoredRightTop(dx, _) => screen_w - dx,
            Position::AnchoredRightBottom(dx, _) => screen_w - dx,
            Position::FreeOnScreen(x, _) => x as int,
            Position::FreeOnWorld(x, _) => x - camera_x,
        }
    }

    /// The vertical distance of the point from the window's top edge, given
    /// the window's height and the camera's top edge where the frame calls
    /// for them.
    pub open spec fn screen_y(self, screen_h: int, camera_y: int) -> int {
        match self {
            Position::AnchoredLeftBottom(_, dy) => screen_h - dy,
            Position::AnchoredRightTop(_, dy) => dy as int,
            Position::AnchoredRightBottom(_, dy) => screen_h - dy,
            Position::FreeOnScreen(_, y) => y as int,
            Position::FreeOnWorld(_, y) => y - camera_y,
        }
    }

    /// The conversion to the screen frame has the context that the frame of
    /// `self` calls for.
    pub open spec fn has_context(self, screen_dimensions: Option<(u32, u32)>, camera: Option<Rect>) -> bool {
        &&& self.is_anchored() ==> screen_dimensions is Some
        &&& self is FreeOnWorld ==> camera is Some
    }

    /// The screen coordinates of `self`, with the window's dimensions and
    /// the camera's corner taken from the context where it gives them.
    pub open spec fn on_screen(self, screen_dimensions: Option<(u32, u32)>, camera: Option<Rect>) -> (int, int) {
        let (w, h) = match screen_dimensions {
            Some((w, h)) => (w as int, h as int),
            None => (0, 0),
        };
        let (cx, cy) = match camera {
            Some(rect) => (rect.x as int, rect.y as int),
            None => (0, 0),
        };
        (self.screen_x(w, cx), self.screen_y(h, cy))
    }

    /// The window's dimensions, where the frame of `self` calls for them,
    /// and the screen coordinates of `self` are values of `i32`.
    pub open spec fn screen_fits(self, screen_dimensions: Option<(u32, u32)>, camera: Option<Rect>) -> bool {
        let (sx, sy) = self.on_screen(screen_dimensions, camera);
        &&& fits_i32(sx)
        &&& fits_i32(sy)
        &&& self.is_anchored() ==> (screen_dimensions matches Some((w, h)) ==> fits_i32(w as int)
            && fits_i32(h as int))
    }

    /// Decides [`Position::screen_fits`].
    pub fn fits_on_screen(self, screen_dimensions: Option<(u32, u32)>, camera: Option<Rect>) -> (ok:
        bool)
        ensures
            ok == self.screen_fits(screen_dimensions, camera),
    {
        let (w, h): (i64, i64) = match screen_dimensions {
            Some((w, h)) => (w as i64, h as i64),
            None => (0, 0),
        };
        let (cx, cy): (i64, i64) = match camera {
            Some(rect) => (rect.x as i64, rect.y as i64),
            None => (0, 0),
        };
        let x: i64 = self.x() as i64;
        let y: i64 = self.y() as i64;
        let (sx, sy, anchored): (i64, i64, bool) = match self {
            Position::AnchoredLeftBottom(_, _) => (x, h - y, true),
            Position::AnchoredRightTop(_, _) => (w - x, y, true),
            Position::AnchoredRightBottom(_, _) => (w - x, h - y, true),
            Position::FreeOnScreen(_, _) => (x, y, false),
            Position::FreeOnWorld(_, _) => (x - cx, y - cy, false),
        };
        let low: i64 = -0x8000_0000;
        let high: i64 = 0x7fff_ffff;
        low <= sx && sx <= high && low <= sy && sy <= high && (!anchored || screen_dimensions.is_none()
            || (w <= high && h <= high))
    }

    /// Converts to the screen frame.
    ///
    /// An anchored position needs `screen_dimensions`, a world position
    /// needs `camera`; without it the conversion fails. A screen position
    /// is returned as it is.
    pub fn to_free_on_screen(
        self,
        screen_dimensions: Option<(u32, u32)>,
        camera: Option<Rect>,
    ) -> (r: Result<Position, String>)
        requires
            self.has_context(screen_dimensions, camera) ==> self.screen_fits(
                screen_dimensions,
                camera,
            ),
        ensures
            r is Ok <==> self.has_context(screen_dimensions, camera),
            r matches Ok(p) ==> {
                &&& p is FreeOnScreen
                &&& p.x_spec() == self.on_screen(screen_dimensions, camera).0
                &&& p.y_spec() == self.on_screen(screen_dimensions, camera).1
            },
            r matches Err(e) ==> {
                &&& self.is_anchored() ==> e@ == missing_screen_message()
                &&& self is FreeOnWorld ==> e@ == missing_camera_message()
            },
    {
        match self {
            Position::AnchoredLeftBottom(dx, dy) => match screen_dimensions {
                Some((_, s_h)) => Ok(Position::FreeOnScreen(dx, s_h as i32 - dy)),
                None => Err(missing_screen_error()),
            },
            Position::AnchoredRightTop(dx, dy) => match screen_dimensions {
                Some((s_w, _)) => Ok(Position::FreeOnScreen(s_w as i32 - dx, dy)),
                None => Err(missing_screen_error()),
            },
            Position::AnchoredRightBottom(dx, dy) => match screen_dimensions {
                Some((s_w, s_h)) => Ok(Position::FreeOnScreen(s_w as i32 - dx, s_h as i32 - dy)),
                None => Err(missing_screen_error()),
            },
            Position::FreeOnWorld(x, y) => match camera {
                Some(rect) => Ok(Position::FreeOnScreen(x - rect.x, y - rect.y)),
                None => Err(missing_camera_error()),
            },
            position => Ok(position),
        }
    }

    pub fn x(self) -> (r: i32)
        ensures
            r == self.x_spec(),
    {
        match self {
            Position::AnchoredLeftBottom(x, _) => x,
            Position::AnchoredRightTop(x, _) => x,
            Position::AnchoredRightBottom(x, _) => x,
            Position::FreeOnWorld(x, _) => x,
            Position::FreeOnScreen(x, _) => x,
        }
    }

    pub fn y(self) -> (r: i32)
        ensures
            r == self.y_spec(),
    {
        match self {
            Position::AnchoredLeftBottom(_, y) => y,
            Position::AnchoredRightTop(_, y) => y,
            Position::AnchoredRightBottom(_, y) => y,
            Position::FreeOnWorld(_, y) => y,
            Position::FreeOnScreen(_, y) => y,
        }
    }

    /// Moves `p` by `dx` pixels to the right and `dy` pixels down, whatever
    /// its frame: a frame that measures from the right or the bottom edge
    /// has that coordinate decreased.
    pub fn add(p: Position, dx: i32, dy: i32) -> (r: Position)
        requires
            fits_i32(p.moved_x(dx as int)),
            fits_i32(p.moved_y(dy as int)),
        ensures
            r == p.moved(dx as int, dy as int),
            r.same_frame(p),
            r.x_spec() == p.moved_x(dx as int),
            r.y_spec() == p.moved_y(dy as int),
    {
        match p {
            Position::AnchoredLeftBottom(x, y) => Position::AnchoredLeftBottom(x + dx, y - dy),
            Position::AnchoredRightTop(x, y) => Position::AnchoredRightTop(x - dx, y + dy),
            Position::AnchoredRightBottom(x, y) => Position::AnchoredRightBottom(x - dx, y - dy),
            Position::FreeOnWorld(x, y) => Position::FreeOnWorld(x + dx, y + dy),
            Position::FreeOnScreen(x, y) => Position::FreeOnScreen(x + dx, y + dy),
        }
    }

    /// As [`Position::add`], for any move: `None` where a coordinate of
    /// the moved position is no value of `i32`.
    pub fn checked_add(p: Position, dx: i64, dy: i64) -> (r: Option<Position>)
        ensures
            r is Some <==> fits_i32(p.moved_x(dx as int)) && fits_i32(p.moved_y(dy as int)),
            r matches Some(q) ==> q == p.moved(dx as int, dy as int),
    {
        let x: i128 = p.x() as i128;
        let y: i128 = p.y() as i128;
        let (nx, ny): (i128, i128) = match p {
            Position::AnchoredLeftBottom(_, _) => (x + dx as i128, y - dy as i128),
            Position::AnchoredRightTop(_, _) => (x - dx as i128, y + dy as i128),
            Position::AnchoredRightBottom(_, _) => (x - dx as i128, y - dy as i128),
            Position::FreeOnScreen(_, _) => (x + dx as i128, y + dy as i128),
            Position::FreeOnWorld(_, _) => (x + dx as i128, y + dy as i128),
        };
        if nx < -0x8000_0000 || nx > 0x7fff_ffff || ny < -0x8000_0000 || ny > 0x7fff_ffff {
            return None;
        }
        let (nx, ny): (i32, i32) = (nx as i32, ny as i32);
        Some(
            match p {
                Position::AnchoredLeftBottom(_, _) => Position::AnchoredLeftBottom(nx, ny),
                Position::AnchoredRightTop(_, _) => Position::AnchoredRightTop(nx, ny),
                Position::AnchoredRightBottom(_, _) => Position::AnchoredRightBottom(nx, ny),
                Position::FreeOnScreen(_, _) => Position::FreeOnScreen(nx, ny),
                Position::FreeOnWorld(_, _) => Position::FreeOnWorld(nx, ny),
            },
        )
    }

    /// The two coordinates, without the frame.
    pub fn into_pair(self) -> (r: (i32, i32))
        ensures
            r.0 == self.x_spec(),
            r.1 == self.y_spec(),
    {
        (self.x(), self.y())
    }
}

/// The message of the error for a cell that the page does not have.
pub open spec fn out_of_bounds_message() -> Seq<char> {
    "PageSquare out of bounds."@
}

/// A cell of a page: the page, the cell's column and row, and the world
/// position of the cell's top-left corner.
///
/// Two cells are equal where page, column and row are: the position
/// follows from them.
#[derive(Clone, Copy, Debug, Hash)]
pub struct PageSquare {
    pub page: u32,
    pub square: (u32, u32),
    pub position: Position,
}

impl PageSquare {
    /// Page, column and row agree.
    pub open spec fn same_cell(self, other: PageSquare) -> bool {
        self.page == other.page && self.square == other.square
    }

    /// The position is the one that `pages` gives the cell.
    pub open spec fn placed_on(self, pages: &Pages) -> bool {
        &&& self.square.0 < pages@.cols
        &&& self.square.1 < pages@.rows
        &&& self.position is FreeOnWorld
        &&& self.position.x_spec() == pages@.page_x() + self.square.0 * pages@.cell
        &&& self.position.y_spec() == pages@.page_y(self.page as int) + self.square.1 * pages@.cell
    }

    /// The cell in column `square.0` and row `square.1` of page `page`,
    /// if the pages have such a column and row.
    pub fn new(page: u32, square: (u32, u32), pages: &Pages) -> (r: Result<PageSquare, String>)
        requires
            pages.wf(),
            pages@.holds(page + 1),
        ensures
            r is Ok <==> square.0 < pages@.cols && square.1 < pages@.rows,
            r matches Ok(ps) ==> ps.page == page && ps.square == square && ps.placed_on(pages),
            r matches Err(e) ==> e@ == out_of_bounds_message(),
    {
        let p = pages.get_page_position(page);
        if square.0 >= pages.page_squares().0 || square.1 >= pages.page_squares().1 {
            return Err(String::from_str("PageSquare out of bounds."));
        }
        proof {
            lemma_cell_offset(square.0 as int, pages@.cols as int, pages@.cell as int);
            lemma_cell_offset(square.1 as int, pages@.rows as int, pages@.cell as int);
            crate::pages::lemma_page_bounds(pages@, page as int);
        }
        let position = Position::add(
            p,
            (square.0 * pages.square_size()) as i32,
            (square.1 * pages.square_size()) as i32,
        );
        Ok(PageSquare { page, square, position })
    }
}

impl PartialEq for PageSquare {
    fn eq(&self, other: &PageSquare) -> (r: bool) {
        self.page == other.page && self.square.0 == other.square.0 && self.square.1
            == other.square.1
    }
}

impl Eq for PageSquare {

}

impl vstd::std_specs::cmp::PartialEqSpecImpl for PageSquare {
    open spec fn obeys_eq_spec() -> bool {
        true
    }

    open spec fn eq_spec(&self, other: &PageSquare) -> bool {
        self.page == other.page && self.square.0 == other.square.0 && self.square.1
            == other.square.1
    }
}

/// The offset of cell `i` of `n` cells of side `cell` lies on the page.
proof fn lemma_cell_offset(i: int, n: int, cell: int)
    by (nonlinear_arith)
    requires
        0 <= i < n,
        0 <= cell,
    ensures
        0 <= i * cell <= n * (cell + 1) - 1,
{
}

fn missing_screen_error() -> (e: String)
    ensures
        e@ == missing_screen_message(),
{
    String::from_str(
        "Cannot convert anchored on-screen position to free on-screen position, without screen dimensions.",
    )
}

fn missing_camera_error() -> (e: String)
    ensures
        e@ == missing_camera_message(),
{
    String::from_str(
        "Cannot convert free on-world position to free on-screen position, without camera.",
    )
}

/// A world position `(x, y)` lies at `(x - cx, y - cy)` on the screen of a
/// camera at `(cx, cy)`, whatever the window's dimensions, and a move of
/// that screen position by `(cx, cy)` has the coordinates `(x, y)` again.
pub proof fn lemma_world_screen_round_trip(
    x: i32,
    y: i32,
    screen_dimensions: Option<(u32, u32)>,
    camera: Rect,
)
    requires
        fits_i32(x - camera.x),
        fits_i32(y - camera.y),
    ensures
        Position::FreeOnWorld(x, y).has_context(screen_dimensions, Some(camera)),
        Position::FreeOnWorld(x, y).on_screen(screen_dimensions, Some(camera)) == (
            x - camera.x,
            y - camera.y,
        ),
        Position::FreeOnScreen((x - camera.x) as i32, (y - camera.y) as i32).moved(
            camera.x as int,
            camera.y as int,
        ) == Position::FreeOnScreen(x, y),
{
}

/// A move by `(dx, dy)` moves the point `dx` pixels to the right and `dy`
/// pixels down on the screen, whatever the frame of the position: in a
/// frame that measures from the right or the bottom edge, the coordinate
/// decreases.
pub proof fn lemma_add_moves_screen_point(
    p: Position,
    dx: int,
    dy: int,
    screen_dimensions: Option<(u32, u32)>,
    camera: Option<Rect>,
)
    requires
        fits_i32(p.moved_x(dx)),
        fits_i32(p.moved_y(dy)),
    ensures
        p.moved(dx, dy).same_frame(p),
        p.moved(dx, dy).on_screen(screen_dimensions, camera).0 == p.on_screen(
            screen_dimensions,
            camera,
        ).0 + dx,
        p.moved(dx, dy).on_screen(screen_dimensions, camera).1 == p.on_screen(
            screen_dimensions,
            camera,
        ).1 + dy,
        p.measures_from_right() ==> p.moved(dx, dy).x_spec() == p.x_spec() - dx,
        !p.measures_from_right() ==> p.moved(dx, dy).x_spec() == p.x_spec() + dx,
        p.measures_from_bottom() ==> p.moved(dx, dy).y_spec() == p.y_spec() - dy,
        !p.measures_from_bottom() ==> p.moved(dx, dy).y_spec() == p.y_spec() + dy,
{
}

} // verus!
