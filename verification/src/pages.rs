//! The stack of pages: its geometry in the world frame and hit-testing.
use vstd::prelude::*;
use uuid::Uuid;
use crate::ident::fresh_id;
use crate::platform::DrawCommand;
use crate::position::{PageSquare, Position};
use crate::rect::{Color, Rect};
use crate::renderer::{Renderer, RendererView};

verus! {

/// The side of a grid cell, in pixels, of a stack made by [`Pages::new`].
pub const SQUARE_SIZE: u32 = 30;

/// The gap between two pages, and above the first page, in pixels.
pub const PAGE_PADDING: i32 = 200;

/// The paper a page is drawn on.
#[derive(Clone, Copy, Debug, PartialEq, Eq, Structural)]
pub enum PageStyle {
    WhiteSquared,
    WhitePlain,
    BeigeSquared,
    BeigePlain,
}

impl PageStyle {
    /// The place of the style's image among the assets.
    pub open spec fn path_spec(self) -> Seq<char> {
        match self {
            PageStyle::WhiteSquared => "assets/white_squared.png"@,
            PageStyle::WhitePlain => "assets/white_plain.png"@,
            PageStyle::BeigeSquared => "assets/beige_squared.png"@,
            PageStyle::BeigePlain => "assets/beige_plain.png"@,
        }
    }

    /// The position of the style's texture among the textures of a stack.
    pub open spec fn index_spec(self) -> int {
        match self {
            PageStyle::WhiteSquared => 0,
            PageStyle::WhitePlain => 1,
            PageStyle::BeigeSquared => 2,
            PageStyle::BeigePlain => 3,
        }
    }

    /// The style on the paper of the other colour, with the same grid.
    pub open spec fn other_paper_spec(self) -> PageStyle {
        match self {
            PageStyle::WhiteSquared => PageStyle::BeigeSquared,
            PageStyle::WhitePlain => PageStyle::BeigePlain,
            PageStyle::BeigeSquared => PageStyle::WhiteSquared,
            PageStyle::BeigePlain => PageStyle::WhitePlain,
        }
    }

    /// The style with the grid where there is none and without it where
    /// there is one, on the same paper.
    pub open spec fn other_grid_spec(self) -> PageStyle {
        match self {
            PageStyle::WhiteSquared => PageStyle::WhitePlain,
            PageStyle::WhitePlain => PageStyle::WhiteSquared,
            PageStyle::BeigeSquared => PageStyle::BeigePlain,
            PageStyle::BeigePlain => PageStyle::BeigeSquared,
        }
    }

    #[verifier::when_used_as_spec(other_paper_spec)]
    pub fn other_paper(self) -> (s: PageStyle)
        ensures
            s == self.other_paper_spec(),
    {
        match self {
            PageStyle::WhiteSquared => PageStyle::BeigeSquared,
            PageStyle::WhitePlain => PageStyle::BeigePlain,
            PageStyle::BeigeSquared => PageStyle::WhiteSquared,
            PageStyle::BeigePlain => PageStyle::WhitePlain,
        }
    }

    #[verifier::when_used_as_spec(other_grid_spec)]
    pub fn other_grid(self) -> (s: PageStyle)
        ensures
            s == self.other_grid_spec(),
    {
        match self {
            PageStyle::WhiteSquared => PageStyle::WhitePlain,
            PageStyle::WhitePlain => PageStyle::WhiteSquared,
            PageStyle::BeigeSquared => PageStyle::BeigePlain,
            PageStyle::BeigePlain => PageStyle::BeigeSquared,
        }
    }

    pub fn path(&self) -> (p: &'static str)
        ensures
            p@ == self.path_spec(),
    {
        match *self {
            PageStyle::WhiteSquared => "assets/white_squared.png",
            PageStyle::WhitePlain => "assets/white_plain.png",
            PageStyle::BeigeSquared => "assets/beige_squared.png",
            PageStyle::BeigePlain => "assets/beige_plain.png",
        }
    }

    pub fn index(&self) -> (i: usize)
        ensures
            i == self.index_spec(),
    {
        match *self {
            PageStyle::WhiteSquared => 0,
            PageStyle::WhitePlain => 1,
            PageStyle::BeigeSquared => 2,
            PageStyle::BeigePlain => 3,
        }
    }
}

/// What a stack of pages is: the grid of one page, the side of a cell, the
/// number of pages and the style.
pub struct PagesView {
    pub cols: nat,
    pub rows: nat,
    pub cell: nat,
    pub count: nat,
    pub style: PageStyle,
}

impl PagesView {
    /// The width of a page in pixels: each cell and a line of one pixel
    /// between two cells.
    pub open spec fn page_width(self) -> int {
        self.cols * (self.cell + 1) - 1
    }

    pub open spec fn page_height(self) -> int {
        self.rows * (self.cell + 1) - 1
    }

    /// The distance from the top of a page to the top of the next.
    pub open spec fn pitch(self) -> int {
        self.page_height() + PAGE_PADDING
    }

    /// The world abscissa of the left edge of every page.
    pub open spec fn page_x(self) -> int {
        0
    }

    /// The world ordinate of the top edge of page `i`.
    pub open spec fn page_y(self, i: int) -> int {
        PAGE_PADDING + self.pitch() * i
    }

    /// The height of the stack from the top of the first page to the bottom
    /// of the last.
    pub open spec fn total_height(self) -> int {
        self.count * self.page_height() + PAGE_PADDING * (self.count - 1)
    }

    /// Pages `0` to `n - 1`, with the padding above and below them, lie
    /// within the coordinates that an `i32` holds.
    pub open spec fn holds(self, n: int) -> bool {
        PAGE_PADDING + self.pitch() * n + PAGE_PADDING <= i32::MAX
    }

    /// The grid has a cell, and a page is no wider than an `i32` holds.
    pub open spec fn grid_ok(self) -> bool {
        &&& self.cols >= 1
        &&& self.rows >= 1
        &&& self.page_width() + 6 <= i32::MAX
        &&& self.page_height() + 6 <= i32::MAX
        &&& 1 <= self.cell < i32::MAX
    }

    pub open spec fn wf(self) -> bool {
        &&& self.grid_ok()
        &&& self.count >= 1
        &&& self.holds(self.count as int)
    }

    /// The screen of a camera at `(cx, cy)` shows the point `(px, py)` on
    /// page `i`.
    pub open spec fn page_shows(self, i: int, px: int, py: int, cx: int, cy: int) -> bool {
        &&& self.page_x() - cx <= px < self.page_x() - cx + self.page_width()
        &&& self.page_y(i) - cy <= py < self.page_y(i) - cy + self.page_height()
    }

    /// Page `i` is the first that the screen of a camera at `(cx, cy)`
    /// shows at the point `(px, py)`.
    pub open spec fn is_first_showing(self, i: int, px: int, py: int, cx: int, cy: int) -> bool {
        &&& 0 <= i < self.count
        &&& self.page_shows(i, px, py, cx, cy)
        &&& forall|j: int| 0 <= j < i ==> !#[trigger] self.page_shows(j, px, py, cx, cy)
    }

    /// The column of the cell in which the abscissa `px` of the screen
    /// falls: its distance from the page's left edge in cells, rounded
    /// down.
    pub open spec fn col_at(self, px: int, cx: int) -> int {
        (px - (self.page_x() - cx)) / (self.cell as int)
    }

    /// The row of the cell of page `i` in which the ordinate `py` of the
    /// screen falls.
    pub open spec fn row_at(self, i: int, py: int, cy: int) -> int {
        (py - (self.page_y(i) - cy)) / (self.cell as int)
    }

    /// The furthest that a window of height `viewport_h` scrolls down: the
    /// stack with the padding above and below it, less the window, and `0`
    /// where the window is the taller.
    pub open spec fn scroll_max(self, viewport_h: int) -> int {
        let room = self.total_height() + 2 * PAGE_PADDING - viewport_h;
        if room < 0 {
            0
        } else {
            room
        }
    }
}

proof fn lemma_pitch_monotone(pitch: int, a: int, b: int)
    by (nonlinear_arith)
    requires
        0 <= pitch,
        a <= b,
    ensures
        pitch * a <= pitch * b,
{
}

/// A stack that holds `n` pages holds fewer.
pub(crate) proof fn lemma_holds_fewer(v: PagesView, m: int, n: int)
    requires
        v.grid_ok(),
        m <= n,
        v.holds(n),
    ensures
        v.holds(m),
{
    lemma_pitch_monotone(v.pitch(), m, n);
}

/// No two pages of a stack overlap: a screen shows a point on at most one
/// page, so the first page shown there is the only one.
pub proof fn lemma_pages_do_not_overlap(v: PagesView, i: int, j: int, px: int, py: int, cx: int, cy: int)
    requires
        v.grid_ok(),
        0 <= i,
        0 <= j,
        v.page_shows(i, px, py, cx, cy),
        v.page_shows(j, px, py, cx, cy),
    ensures
        i == j,
{
    let p = v.pitch();
    assert(v.page_height() >= 0) by {
        lemma_page_extent(v.rows as int, v.cell as int);
    }
    if i < j {
        assert(p * j >= p * (i + 1)) by {
            lemma_pitch_monotone(p, i + 1, j);
        }
        assert(p * (i + 1) == p * i + p) by (nonlinear_arith);
    }
    if j < i {
        assert(p * i >= p * (j + 1)) by {
            lemma_pitch_monotone(p, j + 1, i);
        }
        assert(p * (j + 1) == p * j + p) by (nonlinear_arith);
    }
}

/// The number of cells along the side of the image that a page's paper is
/// laid out of.
pub const TILE_CELLS: u32 = 5;

/// How far from the page's edge the tile that starts at cell `i` lies, in
/// pixels: each cell ahead of it, and the line behind each.
pub open spec fn tile_offset(i: int, cell: int) -> int {
    i * (cell + 1)
}

/// How much of the image the tile that starts at cell `i` of `n` takes, in
/// pixels: all of it where [`TILE_CELLS`] cells are left, and else the
/// cells that are left, without the line behind the last.
pub open spec fn tile_extent(i: int, n: int, cell: int) -> int {
    if i + TILE_CELLS <= n {
        TILE_CELLS * (cell + 1)
    } else {
        (n % (TILE_CELLS as int)) * (cell + 1) - 1
    }
}

/// The stack of pages of a document.
pub struct Pages {
    id: Uuid,
    position: Position,
    page_size: (u32, u32),
    pages: u32,
    square_size: u32,
    style: PageStyle,
}

impl View for Pages {
    type V = PagesView;

    closed spec fn view(&self) -> PagesView {
        PagesView {
            cols: self.page_size.0 as nat,
            rows: self.page_size.1 as nat,
            cell: self.square_size as nat,
            count: self.pages as nat,
            style: self.style,
        }
    }
}

impl Pages {
    /// The view is well formed and the stack is anchored where every stack
    /// is: at the left edge of the world, one padding down.
    pub open spec fn wf(&self) -> bool {
        &&& self@.wf()
        &&& self.anchor() == Position::FreeOnWorld(0, PAGE_PADDING)
    }

    /// The world position of the first page's top-left corner.
    pub closed spec fn anchor(&self) -> Position {
        self.position
    }

    /// The identifier under which the platform keeps the textures of the
    /// four styles.
    pub closed spec fn id_spec(&self) -> Uuid {
        self.id
    }

    #[verifier::when_used_as_spec(id_spec)]
    pub fn id(&self) -> (id: Uuid)
        ensures
            id == self.id_spec(),
    {
        self.id
    }

    /// A grid of `page_size` cells of side `square_size` makes a page that
    /// the coordinates hold.
    pub open spec fn geometry_ok(page_size: (u32, u32), square_size: u32) -> bool {
        let v = PagesView {
            cols: page_size.0 as nat,
            rows: page_size.1 as nat,
            cell: square_size as nat,
            count: 1,
            style: PageStyle::WhiteSquared,
        };
        v.wf()
    }

    /// Decides [`Pages::geometry_ok`].
    pub fn check_geometry(page_size: (u32, u32), square_size: u32) -> (ok: bool)
        ensures
            ok == Pages::geometry_ok(page_size, square_size),
    {
        if page_size.0 < 1 || page_size.1 < 1 {
            return false;
        }
        let side: u64 = square_size as u64 + 1;
        let limit: u64 = 0x7fff_ffff;
        proof {
            lemma_product_bounds(page_size.0 as int, side as int, 0xffff_ffff, 0x1_0000_0000);
            lemma_product_bounds(page_size.1 as int, side as int, 0xffff_ffff, 0x1_0000_0000);
        }
        let width: u64 = page_size.0 as u64 * side - 1;
        let height: u64 = page_size.1 as u64 * side - 1;
        square_size >= 1 && width + 6 <= limit && height + 6 <= limit && height + 600 <= limit
            && side <= limit
    }

    /// The tiles that cover `cells` cells of side `square_size` along one
    /// side of a page, first to last: for each, its offset from the page's
    /// edge and its extent.
    pub fn tile_spans(cells: u32, square_size: u32) -> (spans: Vec<(i32, u32)>)
        requires
            cells * (square_size + 1) <= i32::MAX,
        ensures
            spans@.len() == (cells + TILE_CELLS - 1) / (TILE_CELLS as int),
            forall|k: int|
                0 <= k < spans@.len() ==> {
                    &&& (#[trigger] spans@[k]).0 == tile_offset(
                        TILE_CELLS * k,
                        square_size as int,
                    )
                    &&& spans@[k].1 == tile_extent(
                        TILE_CELLS * k,
                        cells as int,
                        square_size as int,
                    )
                },
    {
        let side: u64 = square_size as u64 + 1;
        let mut spans: Vec<(i32, u32)> = Vec::new();
        let mut i: u32 = 0;
        while i < cells
            invariant
                side == square_size + 1,
                cells * (square_size + 1) <= i32::MAX,
                i % TILE_CELLS == 0,
                i < cells + TILE_CELLS,
                spans@.len() == i / TILE_CELLS,
                forall|k: int|
                    0 <= k < spans@.len() ==> {
                        &&& (#[trigger] spans@[k]).0 == tile_offset(
                            TILE_CELLS * k,
                            square_size as int,
                        )
                        &&& spans@[k].1 == tile_extent(
                            TILE_CELLS * k,
                            cells as int,
                            square_size as int,
                        )
                    },
            decreases cells + TILE_CELLS - i,
        {
            proof {
                lemma_tile_bounds(i as int, cells as int, side as int);
            }
            let offset: u64 = i as u64 * side;
            let extent: u64 = if i as u64 + TILE_CELLS as u64 <= cells as u64 {
                TILE_CELLS as u64 * side
            } else {
                (cells % TILE_CELLS) as u64 * side - 1
            };
            assert(offset == tile_offset(TILE_CELLS * (i / TILE_CELLS), square_size as int));
            assert(extent == tile_extent(
                TILE_CELLS * (i / TILE_CELLS),
                cells as int,
                square_size as int,
            ));
            spans.push((offset as i32, extent as u32));
            i += TILE_CELLS;
        }
        spans
    }

    /// A stack of one page of `page_size` cells of side [`SQUARE_SIZE`] on
    /// white squared paper, under a fresh identifier.
    pub fn new(page_size: (u32, u32)) -> (p: Pages)
        requires
            Pages::geometry_ok(page_size, SQUARE_SIZE),
        ensures
            p.wf(),
            p@ == (PagesView {
                cols: page_size.0 as nat,
                rows: page_size.1 as nat,
                cell: SQUARE_SIZE as nat,
                count: 1,
                style: PageStyle::WhiteSquared,
            }),
    {
        Pages::with_square_size(page_size, SQUARE_SIZE)
    }

    /// As [`Pages::new`], with cells of side `square_size`.
    pub fn with_square_size(page_size: (u32, u32), square_size: u32) -> (p: Pages)
        requires
            Pages::geometry_ok(page_size, square_size),
        ensures
            p.wf(),
            p@ == (PagesView {
                cols: page_size.0 as nat,
                rows: page_size.1 as nat,
                cell: square_size as nat,
                count: 1,
                style: PageStyle::WhiteSquared,
            }),
    {
        Pages {
            position: Position::FreeOnWorld(0, PAGE_PADDING),
            page_size,
            square_size,
            id: fresh_id(),
            pages: 1,
            style: PageStyle::WhiteSquared,
        }
    }

    pub fn square_size(&self) -> (s: u32)
        ensures
            s == self@.cell,
    {
        self.square_size
    }

    /// The number of cells across and down a page.
    pub fn page_squares(&self) -> (s: (u32, u32))
        ensures
            s.0 == self@.cols,
            s.1 == self@.rows,
    {
        self.page_size
    }

    /// The world position of the first page.
    pub fn position(&self) -> (p: Position)
        ensures
            p == self.anchor(),
    {
        self.position
    }

    pub fn page_width(&self) -> (w: u32)
        requires
            self.wf(),
        ensures
            w == self@.page_width(),
    {
        proof {
            lemma_page_extent(self.page_size.0 as int, self.square_size as int);
        }
        self.page_size.0 * (self.square_size + 1) - 1
    }

    pub fn page_height(&self) -> (h: u32)
        requires
            self.wf(),
        ensures
            h == self@.page_height(),
    {
        proof {
            lemma_page_extent(self.page_size.1 as int, self.square_size as int);
        }
        self.page_size.1 * (self.square_size + 1) - 1
    }

    pub fn total_height(&self) -> (h: u32)
        requires
            self.wf(),
        ensures
            h == self@.total_height(),
    {
        let page_height = self.page_height();
        proof {
            lemma_stack_extent(self@);
        }
        self.pages * page_height + PAGE_PADDING as u32 * (self.pages - 1)
    }

    pub fn style(&self) -> (s: PageStyle)
        ensures
            s == self@.style,
    {
        self.style
    }

    pub fn pages(&self) -> (n: u32)
        ensures
            n == self@.count,
    {
        self.pages
    }

    pub fn set_style(&mut self, style: PageStyle)
        ensures
            final(self)@ == (PagesView { style, ..old(self)@ }),
            old(self).wf() ==> final(self).wf(),
            final(self).id_spec() == old(self).id_spec(),
    {
        self.style = style
    }

    /// The coordinates hold one page more.
    pub fn can_add_page(&self) -> (ok: bool)
        requires
            self.wf(),
        ensures
            ok == self@.holds(self@.count + 1 as int),
    {
        let page_height = self.page_height();
        let pitch: i64 = page_height as i64 + PAGE_PADDING as i64;
        let next: i64 = self.pages as i64 + 1;
        assert(pitch * next == self@.pitch() * (self@.count + 1)) by (nonlinear_arith)
            requires
                pitch == self@.pitch(),
                next == self@.count + 1,
        ;
        proof {
            lemma_stack_extent(self@);
        }
        assert(pitch * next == pitch * self.pages + pitch) by (nonlinear_arith)
            requires
                next == self.pages + 1,
        ;
        let limit: i64 = 0x7fff_ffff;
        pitch * next + 2 * (PAGE_PADDING as i64) <= limit
    }

    /// Appends a page.
    pub fn add_page(&mut self)
        requires
            old(self).wf(),
            old(self)@.holds(old(self)@.count + 1 as int),
        ensures
            final(self).wf(),
            final(self)@ == (PagesView { count: old(self)@.count + 1, ..old(self)@ }),
            final(self).id_spec() == old(self).id_spec(),
    {
        proof {
            lemma_stack_extent(self@);
            assert(self@.pitch() * (self@.count + 1) == self@.pitch() * self@.count + self@.pitch())
                by (nonlinear_arith);
            assert(self@.pitch() * self@.count >= self@.count) by (nonlinear_arith)
                requires
                    self@.pitch() >= 1,
                    self@.count >= 0,
            ;
        }
        self.pages += 1
    }

    /// Takes the last page away, unless it is the only one.
    pub fn remove_page(&mut self)
        requires
            old(self).wf(),
        ensures
            final(self).wf(),
            final(self)@ == (PagesView {
                count: if old(self)@.count > 1 {
                    (old(self)@.count - 1) as nat
                } else {
                    1
                },
                ..old(self)@
            }),
            final(self).id_spec() == old(self).id_spec(),
    {
        if self.pages > 1 {
            proof {
                lemma_holds_fewer(self@, self@.count - 1, self@.count as int);
            }
            self.pages = self.pages - 1;
        }
    }

    /// The world position of the top-left corner of page `page_num`,
    /// counted from `0`.
    pub fn get_page_position(&self, page_num: u32) -> (p: Position)
        requires
            self.wf(),
            self@.holds(page_num + 1),
        ensures
            p is FreeOnWorld,
            p.x_spec() == self@.page_x(),
            p.y_spec() == self@.page_y(page_num as int),
    {
        let page_height = self.page_height();
        proof {
            lemma_page_bounds(self@, page_num as int);
        }
        let pitch: i32 = page_height as i32 + PAGE_PADDING;
        assert(pitch * (page_num as i32) == self@.pitch() * page_num) by (nonlinear_arith)
            requires
                pitch == self@.pitch(),
                0 <= page_num <= i32::MAX,
        ;
        Position::add(self.position, 0, pitch * page_num as i32)
    }

    /// The page that the screen of `camera` shows at `point`, whose
    /// coordinates are taken as screen coordinates: the first page that
    /// contains it, if one does.
    pub fn page_contains(&self, point: Position, camera: Rect) -> (hit: Option<u32>)
        requires
            self.wf(),
        ensures
            match hit {
                Some(i) => self@.is_first_showing(
                    i as int,
                    point.x_spec(),
                    point.y_spec(),
                    camera.x as int,
                    camera.y as int,
                ),
                None => forall|j: int|
                    0 <= j < self@.count ==> !#[trigger] self@.page_shows(
                        j,
                        point.x_spec(),
                        point.y_spec(),
                        camera.x as int,
                        camera.y as int,
                    ),
            },
    {
        let width: i64 = self.page_width() as i64;
        let height: i64 = self.page_height() as i64;
        let px: i64 = point.x() as i64;
        let py: i64 = point.y() as i64;
        let left: i64 = 0 - camera.x as i64;
        let pitch: i64 = height + PAGE_PADDING as i64;
        let mut i: u32 = 0;
        while i < self.pages
            invariant
                self.wf(),
                i <= self.pages,
                width == self@.page_width(),
                height == self@.page_height(),
                pitch == self@.pitch(),
                px == point.x_spec(),
                py == point.y_spec(),
                left == self@.page_x() - camera.x,
                forall|j: int|
                    0 <= j < i ==> !#[trigger] self@.page_shows(
                        j,
                        point.x_spec(),
                        point.y_spec(),
                        camera.x as int,
                        camera.y as int,
                    ),
            decreases self.pages - i,
        {
            proof {
                lemma_holds_fewer(self@, i + 1, self@.count as int);
                lemma_page_bounds(self@, i as int);
            }
            assert(pitch * (i as i64) == self@.pitch() * i) by (nonlinear_arith)
                requires
                    pitch == self@.pitch(),
            ;
            let top: i64 = PAGE_PADDING as i64 + pitch * (i as i64) - camera.y as i64;
            if left <= px && px < left + width && top <= py && py < top + height {
                return Some(i);
            }
            i += 1;
        }
        None
    }

    /// The page, column and row that the screen of `camera` shows at
    /// `point`, whose coordinates are taken as screen coordinates: those of
    /// the first page shown there, if one is. The column and row count
    /// whole cells from the page's corner, and may lie beyond the grid.
    pub open spec fn cell_under_spec(&self, point: Position, camera: Rect) -> Option<(int, int, int)> {
        let px = point.x_spec();
        let py = point.y_spec();
        let cx = camera.x as int;
        let cy = camera.y as int;
        if exists|i: int| self@.is_first_showing(i, px, py, cx, cy) {
            let i = choose|i: int| self@.is_first_showing(i, px, py, cx, cy);
            Some((i, self@.col_at(px, cx), self@.row_at(i, py, cy)))
        } else {
            None
        }
    }

    /// The cell that the screen of `camera` shows at `point`: the one in
    /// the column and row under the point, if a page is shown there and
    /// its grid has that column and row.
    pub open spec fn square_at_spec(&self, point: Position, camera: Rect) -> Option<PageSquare> {
        match self.cell_under_spec(point, camera) {
            Some((i, col, row)) => if col < self@.cols && row < self@.rows {
                Some(
                    PageSquare {
                        page: i as u32,
                        square: (col as u32, row as u32),
                        position: Position::FreeOnWorld(
                            (self@.page_x() + col * self@.cell) as i32,
                            (self@.page_y(i) + row * self@.cell) as i32,
                        ),
                    },
                )
            } else {
                None
            },
            None => None,
        }
    }

    /// Finds the page, column and row under a point of the screen.
    pub fn cell_under(&self, point: Position, camera: Rect) -> (r: Option<(u32, u32, u32)>)
        requires
            self.wf(),
        ensures
            match r {
                Some((i, col, row)) => {
                    &&& self.cell_under_spec(point, camera) == Some((i as int, col as int, row as int))
                    &&& i < self@.count
                    &&& col * self@.cell < self@.page_width()
                    &&& row * self@.cell < self@.page_height()
                },
                None => self.cell_under_spec(point, camera) is None,
            },
    {
        let ghost px = point.x_spec();
        let ghost py = point.y_spec();
        let ghost cx = camera.x as int;
        let ghost cy = camera.y as int;
        let i = match self.page_contains(point, camera) {
            Some(i) => i,
            None => {
                return None;
            },
        };
        proof {
            let w = choose|w: int| self@.is_first_showing(w, px, py, cx, cy);
            assert(self@.is_first_showing(i as int, px, py, cx, cy));
            assert(self@.is_first_showing(w, px, py, cx, cy));
            if w < i {
                assert(self@.page_shows(w, px, py, cx, cy));
            }
            if i < w {
                assert(self@.page_shows(i as int, px, py, cx, cy));
            }
            assert(w == i);
            lemma_holds_fewer(self@, i + 1, self@.count as int);
            lemma_page_bounds(self@, i as int);
            lemma_stack_extent(self@);
        }
        let height: i64 = self.page_height() as i64;
        let pitch: i64 = height + PAGE_PADDING as i64;
        assert(pitch * (i as i64) == self@.pitch() * i) by (nonlinear_arith)
            requires
                pitch == self@.pitch(),
        ;
        let left: i64 = 0 - camera.x as i64;
        let top: i64 = PAGE_PADDING as i64 + pitch * (i as i64) - camera.y as i64;
        let dx: i64 = point.x() as i64 - left;
        let dy: i64 = point.y() as i64 - top;
        let cell: i64 = self.square_size as i64;
        let col: i64 = dx / cell;
        let row: i64 = dy / cell;
        proof {
            lemma_quotient_bounds(dx as int, cell as int);
            lemma_quotient_bounds(dy as int, cell as int);
        }
        Some((i, col as u32, row as u32))
    }

    /// Finds the cell under a point of the screen.
    pub fn square_at(&self, point: Position, camera: Rect) -> (r: Option<PageSquare>)
        requires
            self.wf(),
        ensures
            r == self.square_at_spec(point, camera),
            r matches Some(ps) ==> ps.placed_on(self),
    {
        match self.cell_under(point, camera) {
            Some((i, col, row)) => {
                proof {
                    lemma_holds_fewer(self@, i + 1, self@.count as int);
                }
                match PageSquare::new(i, (col, row), self) {
                    Ok(ps) => Some(ps),
                    Err(_) => None,
                }
            },
            None => None,
        }
    }

    /// The border of page `i`: a gray rectangle that shows three pixels
    /// wide around the page.
    pub open spec fn border_of(&self, i: int) -> DrawCommand {
        DrawCommand::Fill {
            position: Position::FreeOnWorld(
                (self@.page_x() - 3) as i32,
                (self@.page_y(i) - 3) as i32,
            ),
            size: ((self@.page_width() + 6) as u32, (self@.page_height() + 6) as u32),
            color: Color::gray_spec(),
        }
    }

    /// The paper of page `i`: the texture of the style, over the page.
    pub open spec fn paper_of(&self, i: int) -> DrawCommand {
        DrawCommand::Texture {
            id: self.id_spec(),
            index: self@.style.index_spec() as usize,
            position: Position::FreeOnWorld(self@.page_x() as i32, self@.page_y(i) as i32),
            size: (self@.page_width() as u32, self@.page_height() as u32),
        }
    }

    /// What draws the stack: for each page, first to last, its border and
    /// then its paper.
    pub open spec fn draw_spec(&self) -> Seq<DrawCommand> {
        Seq::new(
            2 * self@.count,
            |k: int|
                if k % 2 == 0 {
                    self.border_of(k / 2)
                } else {
                    self.paper_of(k / 2)
                },
        )
    }

    /// Sets the scrolling range of `renderer` to what the stack allows in
    /// its window now, and says what draws the stack. So the range follows
    /// the number of pages at every frame.
    pub fn draw(&self, renderer: &mut Renderer) -> (cmds: Vec<DrawCommand>)
        requires
            self.wf(),
        ensures
            final(renderer)@ == (RendererView {
                scroll_max: final(renderer)@.scroll_max,
                ..old(renderer)@
            }),
            final(renderer)@.scroll_max == self@.scroll_max(old(renderer)@.dimensions.1 as int),
            final(renderer)@.scroll_max >= 0,
            cmds@ == self.draw_spec(),
    {
        renderer.fit_scroll_max(self);
        let width = self.page_width();
        let height = self.page_height();
        proof {
            lemma_holds_fewer(self@, 1, self@.count as int);
            lemma_page_bounds(self@, 0);
        }
        let pitch: i32 = height as i32 + PAGE_PADDING;
        let mut cmds: Vec<DrawCommand> = Vec::new();
        let mut i: u32 = 0;
        while i < self.pages
            invariant
                self.wf(),
                i <= self.pages,
                width == self@.page_width(),
                height == self@.page_height(),
                pitch == self@.pitch(),
                cmds@.len() == 2 * i,
                forall|j: int|
                    0 <= j < i ==> {
                        &&& cmds@[2 * j] == self.border_of(j)
                        &&& cmds@[2 * j + 1] == self.paper_of(j)
                    },
            decreases self.pages - i,
        {
            proof {
                lemma_holds_fewer(self@, i + 1, self@.count as int);
                lemma_page_bounds(self@, i as int);
            }
            assert(pitch * (i as i32) == self@.pitch() * i) by (nonlinear_arith)
                requires
                    pitch == self@.pitch(),
                    0 <= i <= i32::MAX,
            ;
            let y: i32 = PAGE_PADDING + pitch * i as i32;
            cmds.push(
                DrawCommand::Fill {
                    position: Position::FreeOnWorld(-3, y - 3),
                    size: (width + 6, height + 6),
                    color: Color::gray(),
                },
            );
            cmds.push(
                DrawCommand::Texture {
                    id: self.id,
                    index: self.style.index(),
                    position: Position::FreeOnWorld(0, y),
                    size: (width, height),
                },
            );
            i += 1;
        }
        assert(cmds@ =~= self.draw_spec());
        cmds
    }

    /// The furthest that a window of height `viewport_height` scrolls down
    /// over this stack.
    pub fn scroll_max(&self, viewport_height: u32) -> (max: i32)
        requires
            self.wf(),
        ensures
            max == self@.scroll_max(viewport_height as int),
    {
        let total: i64 = self.total_height() as i64;
        proof {
            lemma_stack_extent(self@);
        }
        let room: i64 = total + 2 * (PAGE_PADDING as i64) - viewport_height as i64;
        if room < 0 {
            0
        } else {
            room as i32
        }
    }
}

/// The tile that starts at cell `i` of `n` cells lies on the page.
proof fn lemma_tile_bounds(i: int, n: int, side: int)
    requires
        0 <= i < n,
        i % 5 == 0,
        1 <= side,
        n * side <= i32::MAX,
    ensures
        0 <= i * side <= i32::MAX,
        1 <= side <= i32::MAX,
        i + 5 > n ==> 1 <= (n % 5) * side <= i32::MAX,
        i + 5 <= n ==> 5 * side <= i32::MAX,
        5 * (i / 5) == i,
{
    assert(0 <= i * side <= n * side && side <= n * side) by (nonlinear_arith)
        requires
            0 <= i < n,
            1 <= side,
    ;
    if i + 5 <= n {
        assert(5 * side <= n * side) by (nonlinear_arith)
            requires
                5 <= n,
                1 <= side,
        ;
    }
    if i + 5 > n {
        let r = n - i;
        assert(n % 5 == r);
        assert(1 <= r * side <= n * side) by (nonlinear_arith)
            requires
                1 <= r <= n,
                1 <= side,
        ;
    }
}

proof fn lemma_quotient_bounds(d: int, cell: int)
    by (nonlinear_arith)
    requires
        0 <= d,
        1 <= cell,
    ensures
        0 <= d / cell <= d,
        (d / cell) * cell <= d,
{
}

proof fn lemma_product_bounds(a: int, b: int, a_max: int, b_max: int)
    by (nonlinear_arith)
    requires
        1 <= a <= a_max,
        1 <= b <= b_max,
    ensures
        1 <= a * b <= a_max * b_max,
{
}

proof fn lemma_page_extent(n: int, cell: int)
    by (nonlinear_arith)
    requires
        n >= 1,
        cell >= 0,
    ensures
        n * (cell + 1) >= n,
        n * (cell + 1) >= cell + 1,
{
}

/// The stack of a well-formed view is shorter than the coordinates it
/// holds.
proof fn lemma_stack_extent(v: PagesView)
    requires
        v.wf(),
    ensures
        v.page_height() >= 0,
        v.pitch() >= PAGE_PADDING,
        v.total_height() == v.pitch() * v.count - PAGE_PADDING,
        0 <= v.count * v.page_height() <= v.total_height(),
        v.total_height() + 2 * PAGE_PADDING <= i32::MAX - PAGE_PADDING,
        v.count <= i32::MAX,
{
    lemma_page_extent(v.rows as int, v.cell as int);
    let c = v.count as int;
    let h = v.page_height();
    assert((h + PAGE_PADDING) * c == c * h + PAGE_PADDING * c) by (nonlinear_arith);
    assert(PAGE_PADDING * (c - 1) == PAGE_PADDING * c - PAGE_PADDING) by (nonlinear_arith);
    assert(c * h >= 0) by (nonlinear_arith)
        requires
            c >= 0,
            h >= 0,
    ;
    assert((h + PAGE_PADDING) * c >= PAGE_PADDING * c) by (nonlinear_arith)
        requires
            c >= 0,
            h >= 0,
    ;
}

/// A page that the coordinates hold lies within them.
pub(crate) proof fn lemma_page_bounds(v: PagesView, i: int)
    requires
        v.grid_ok(),
        0 <= i,
        v.holds(i + 1),
    ensures
        0 <= v.pitch() * i,
        PAGE_PADDING <= v.page_y(i),
        v.page_y(i) + v.page_height() + 2 * PAGE_PADDING <= i32::MAX,
        i <= i32::MAX,
{
    lemma_page_extent(v.rows as int, v.cell as int);
    let p = v.pitch();
    assert(p * (i + 1) == p * i + p) by (nonlinear_arith);
    assert(p * i >= 0 && p * i >= i) by (nonlinear_arith)
        requires
            p >= 1,
            i >= 0,
    ;
}

} // verus!
