//! Integer screen geometry: points, sizes and rectangles in a coordinate system
//! whose origin is the bottom-left corner and whose y axis points up.

use vstd::prelude::*;

verus! {

/// A position on the screen.
#[derive(Clone, Copy, Debug, PartialEq, Eq, Structural)]
pub struct Point {
    pub x: i64,
    pub y: i64,
}

/// The extent of a rectangle.
#[derive(Clone, Copy, Debug, PartialEq, Eq, Structural)]
pub struct Size {
    pub width: u32,
    pub height: u32,
}

/// A rectangle given by its bottom-left corner and its extent.
#[derive(Clone, Copy, Debug, PartialEq, Eq, Structural)]
pub struct Rect {
    pub origin: Point,
    pub size: Size,
}

/// Where an extent of `inner` starts when it is centred on an extent of
/// `outer` that starts at `start`: half of the slack, rounded down, past `start`.
pub open spec fn centered(start: int, outer: int, inner: int) -> int {
    start + (outer - inner) / 2
}

/// An extent of `length` that starts at `start` has representable ends.
pub open spec fn representable(start: int, length: int) -> bool {
    i64::MIN <= start && start + length <= i64::MAX
}

impl Rect {
    /// The x coordinate of the left edge.
    pub open spec fn left(self) -> int {
        self.origin.x as int
    }

    /// The y coordinate of the bottom edge.
    pub open spec fn bottom(self) -> int {
        self.origin.y as int
    }

    /// The x coordinate just past the right edge.
    pub open spec fn right(self) -> int {
        self.origin.x + self.size.width
    }

    /// The y coordinate just past the top edge.
    pub open spec fn top(self) -> int {
        self.origin.y + self.size.height
    }

    /// Both extents are positive.
    pub open spec fn non_degenerate(self) -> bool {
        self.size.width > 0 && self.size.height > 0
    }

    /// A rectangle that a window or a display may have: it is non-degenerate
    /// and its far edges are representable coordinates.
    pub open spec fn valid(self) -> bool {
        &&& self.non_degenerate()
        &&& self.right() <= i64::MAX
        &&& self.top() <= i64::MAX
    }

    /// Every point of `inner` lies in `self`.
    pub open spec fn encloses(self, inner: Rect) -> bool {
        &&& self.left() <= inner.left()
        &&& inner.right() <= self.right()
        &&& self.bottom() <= inner.bottom()
        &&& inner.top() <= self.top()
    }

    /// `self` is no wider and no taller than `display`.
    pub open spec fn fits_in(self, display: Rect) -> bool {
        &&& self.size.width <= display.size.width
        &&& self.size.height <= display.size.height
    }

    /// `self` moved so that it is centred on `display`: the slack on each axis
    /// is split evenly, the odd unit going to the far side. `None` where either
    /// rectangle is not valid or the centred rectangle is not representable.
    pub open spec fn centered_in(self, display: Rect) -> Option<Rect> {
        let x = centered(display.left(), display.size.width as int, self.size.width as int);
        let y = centered(display.bottom(), display.size.height as int, self.size.height as int);
        if self.valid() && display.valid() && representable(x, self.size.width as int)
            && representable(y, self.size.height as int) {
            Some(Rect { origin: Point { x: x as i64, y: y as i64 }, size: self.size })
        } else {
            None
        }
    }

    /// `self` moved so that its top-left corner is `top_left`. `None` where
    /// `self` is not valid or the moved rectangle is not representable.
    pub open spec fn with_top_left(self, top_left: Point) -> Option<Rect> {
        let y = top_left.y - self.size.height;
        if self.valid() && representable(top_left.x as int, self.size.width as int)
            && representable(y, self.size.height as int) {
            Some(Rect { origin: Point { x: top_left.x, y: y as i64 }, size: self.size })
        } else {
            None
        }
    }

    /// Builds the rectangle with the given corner and extent, if it is valid.
    pub fn new(x: i64, y: i64, width: u32, height: u32) -> (r: Option<Rect>)
        ensures
            r == (if (Rect { origin: Point { x, y }, size: Size { width, height } }).valid() {
                Some(Rect { origin: Point { x, y }, size: Size { width, height } })
            } else {
                None
            }),
    {
        let rect = Rect { origin: Point { x, y }, size: Size { width, height } };
        if rect.is_valid() {
            Some(rect)
        } else {
            None
        }
    }

    /// Tests `valid`.
    pub fn is_valid(&self) -> (b: bool)
        ensures
            b == self.valid(),
    {
        let width: i64 = self.size.width as i64;
        let height: i64 = self.size.height as i64;
        width > 0 && height > 0 && self.origin.x <= i64::MAX - width && self.origin.y <= i64::MAX
            - height
    }

    /// Tests `encloses`.
    pub fn contains_rect(&self, inner: &Rect) -> (b: bool)
        ensures
            b == self.encloses(*inner),
    {
        let right: i128 = self.origin.x as i128 + self.size.width as i128;
        let top: i128 = self.origin.y as i128 + self.size.height as i128;
        let inner_right: i128 = inner.origin.x as i128 + inner.size.width as i128;
        let inner_top: i128 = inner.origin.y as i128 + inner.size.height as i128;
        self.origin.x <= inner.origin.x && inner_right <= right && self.origin.y <= inner.origin.y
            && inner_top <= top
    }

    /// Centres the rectangle on `display`, keeping its size.
    pub fn center_in(&self, display: &Rect) -> (r: Option<Rect>)
        ensures
            r == self.centered_in(*display),
    {
        if !self.is_valid() || !display.is_valid() {
            return None;
        }
        let x: i128 = centered_start(display.origin.x, display.size.width, self.size.width);
        let y: i128 = centered_start(display.origin.y, display.size.height, self.size.height);
        if fits_coordinates(x, self.size.width) && fits_coordinates(y, self.size.height) {
            Some(Rect { origin: Point { x: x as i64, y: y as i64 }, size: self.size })
        } else {
            None
        }
    }

    /// Moves the rectangle so that its top-left corner is `top_left`, keeping
    /// its size.
    pub fn move_top_left_to(&self, top_left: Point) -> (r: Option<Rect>)
        ensures
            r == self.with_top_left(top_left),
    {
        if !self.is_valid() {
            return None;
        }
        let y: i128 = top_left.y as i128 - self.size.height as i128;
        if fits_coordinates(top_left.x as i128, self.size.width) && fits_coordinates(
            y,
            self.size.height,
        ) {
            Some(Rect { origin: Point { x: top_left.x, y: y as i64 }, size: self.size })
        } else {
            None
        }
    }
}

/// Computes `centered` for coordinates of the screen.
fn centered_start(start: i64, outer: u32, inner: u32) -> (c: i128)
    ensures
        c == centered(start as int, outer as int, inner as int),
{
    let slack: i64 = outer as i64 - inner as i64;
    let half: i64 = if slack >= 0 {
        slack / 2
    } else {
        -((1 - slack) / 2)
    };
    start as i128 + half as i128
}

/// Tests `representable`.
fn fits_coordinates(start: i128, length: u32) -> (b: bool)
    ensures
        b == representable(start as int, length as int),
{
    i64::MIN as i128 <= start && start <= i64::MAX as i128 - length as i128
}

/// A valid rectangle that is no larger than a valid display can always be
/// centred on it, and then lies wholly inside the display with its size
/// unchanged.
pub proof fn lemma_centered_window_is_on_display(window: Rect, display: Rect)
    requires
        window.valid(),
        display.valid(),
        window.fits_in(display),
    ensures
        window.centered_in(display) is Some,
        display.encloses(window.centered_in(display)->0),
        window.centered_in(display)->0.size == window.size,
        window.centered_in(display)->0.valid(),
{
}

/// Whatever centring gives is a valid rectangle of the same size.
pub proof fn lemma_centered_is_valid(rect: Rect, display: Rect)
    requires
        rect.centered_in(display) is Some,
    ensures
        rect.centered_in(display)->0.valid(),
        rect.centered_in(display)->0.size == rect.size,
{
}

/// Centring depends on the size of the rectangle alone, not on where it was.
pub proof fn lemma_centering_ignores_origin(a: Rect, b: Rect, display: Rect)
    requires
        a.valid(),
        b.valid(),
        a.size == b.size,
    ensures
        a.centered_in(display) == b.centered_in(display),
{
}

} // verus!
