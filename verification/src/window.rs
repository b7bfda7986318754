//! Windows: the descriptor a window is made from, the window itself, and the
//! sequence that creates one, places it, names it and brings it to the front.

use crate::geometry::{lemma_centering_ignores_origin, Point, Rect};
use crate::region::{ObjectKind, RegionState, ResourceRegion};
use vstd::prelude::*;
use vstd::string::*;

verus! {

/// The decorations of a window.
#[derive(Clone, Copy, Debug, PartialEq, Eq, Structural)]
pub struct StyleMask {
    pub titled: bool,
    pub closable: bool,
    pub miniaturizable: bool,
    pub resizable: bool,
}

/// How the contents of a window are kept while they are not on screen.
#[derive(Clone, Copy, Debug, PartialEq, Eq, Structural)]
pub enum BackingStore {
    Retained,
    Nonretained,
    Buffered,
}

/// What a window is made from.
#[derive(Clone, Copy, Debug, PartialEq, Eq, Structural)]
pub struct WindowDescriptor {
    pub content_rect: Rect,
    pub style_mask: StyleMask,
    pub backing: BackingStore,
    pub defer_creation: bool,
}

/// Why a window could not be made or moved.
#[derive(Clone, Copy, Debug, PartialEq, Eq, Structural)]
pub enum WindowError {
    /// A rectangle that was handed in is degenerate or not representable.
    InvalidGeometry,
    /// The region that was to own the window has been drained.
    RegionDrained,
    /// The window would come to lie outside the coordinates of the screen.
    OutOfRange,
}

/// A window. Its frame is the rectangle of its contents: nothing is added for
/// a title bar.
#[derive(Debug, PartialEq, Eq)]
pub struct Window {
    /// The handle under which the window is registered in its region.
    pub handle: usize,
    pub frame: Rect,
    pub style_mask: StyleMask,
    pub backing: BackingStore,
    /// Whether the window device is created only when the window is shown.
    pub deferred: bool,
    pub title: String,
    /// Whether the window is on screen.
    pub visible: bool,
    /// Whether the window receives the keyboard.
    pub key: bool,
}

/// A window, as contracts see it.
pub ghost struct WindowView {
    pub handle: int,
    pub frame: Rect,
    pub style_mask: StyleMask,
    pub backing: BackingStore,
    pub deferred: bool,
    pub title: Seq<char>,
    pub visible: bool,
    pub key: bool,
}

impl View for Window {
    type V = WindowView;

    open spec fn view(&self) -> WindowView {
        WindowView {
            handle: self.handle as int,
            frame: self.frame,
            style_mask: self.style_mask,
            backing: self.backing,
            deferred: self.deferred,
            title: self.title@,
            visible: self.visible,
            key: self.key,
        }
    }
}

/// The point from which the first window of an application is cascaded.
pub open spec fn cascade_start() -> Point {
    Point { x: 20, y: 20 }
}

/// The title of the window.
pub open spec fn window_title() -> Seq<char> {
    seq!['H', 'e', 'l', 'l', 'o', ' ', 'W', 'o', 'r', 'l', 'd']
}

/// Gives `cascade_start`.
pub fn cascade_origin() -> (p: Point)
    ensures
        p == cascade_start(),
{
    Point { x: 20, y: 20 }
}

/// Gives `window_title` as text.
pub fn title_text() -> (t: &'static str)
    ensures
        t@ == window_title(),
{
    proof {
        reveal_strlit("Hello World");
        assert("Hello World"@ =~= window_title());
    }
    "Hello World"
}

impl StyleMask {
    /// A title bar and nothing else.
    pub open spec fn titled_only() -> StyleMask {
        StyleMask { titled: true, closable: false, miniaturizable: false, resizable: false }
    }

    /// The mask as bit flags: 1 for the title bar, 2 for the close button, 4
    /// for the minimise button, 8 for the resize control.
    pub open spec fn flags(self) -> int {
        (if self.titled { 1int } else { 0 }) + (if self.closable { 2int } else { 0 }) + (
        if self.miniaturizable { 4int } else { 0 }) + (if self.resizable { 8int } else { 0 })
    }

    /// Gives `titled_only`.
    pub fn titled() -> (mask: StyleMask)
        ensures
            mask == StyleMask::titled_only(),
    {
        StyleMask { titled: true, closable: false, miniaturizable: false, resizable: false }
    }

    /// Gives `flags`.
    pub fn bits(&self) -> (b: u64)
        ensures
            b == self.flags(),
    {
        let mut b: u64 = 0;
        if self.titled {
            b = b + 1;
        }
        if self.closable {
            b = b + 2;
        }
        if self.miniaturizable {
            b = b + 4;
        }
        if self.resizable {
            b = b + 8;
        }
        b
    }
}

impl WindowDescriptor {
    /// The smallest descriptor that gives a usable window: 200 by 200 at the
    /// origin, a title bar and no other decoration, buffered, created at once.
    pub open spec fn minimal_spec() -> WindowDescriptor {
        WindowDescriptor {
            content_rect: Rect {
                origin: Point { x: 0, y: 0 },
                size: crate::geometry::Size { width: 200, height: 200 },
            },
            style_mask: StyleMask::titled_only(),
            backing: BackingStore::Buffered,
            defer_creation: false,
        }
    }

    /// Gives `minimal_spec`.
    pub fn minimal() -> (d: WindowDescriptor)
        ensures
            d == WindowDescriptor::minimal_spec(),
            d.content_rect.valid(),
    {
        WindowDescriptor {
            content_rect: Rect {
                origin: Point { x: 0, y: 0 },
                size: crate::geometry::Size { width: 200, height: 200 },
            },
            style_mask: StyleMask::titled(),
            backing: BackingStore::Buffered,
            defer_creation: false,
        }
    }

    /// Makes a descriptor, if its rectangle is valid.
    pub fn new(
        content_rect: Rect,
        style_mask: StyleMask,
        backing: BackingStore,
        defer_creation: bool,
    ) -> (d: Option<WindowDescriptor>)
        ensures
            d == (if content_rect.valid() {
                Some(WindowDescriptor { content_rect, style_mask, backing, defer_creation })
            } else {
                None
            }),
    {
        if content_rect.is_valid() {
            Some(WindowDescriptor { content_rect, style_mask, backing, defer_creation })
        } else {
            None
        }
    }
}

impl WindowView {
    /// The window that a descriptor gives before anything is done to it: it
    /// has the rectangle of the descriptor, no title, and is not on screen.
    pub open spec fn created(handle: int, descriptor: WindowDescriptor) -> WindowView {
        WindowView {
            handle,
            frame: descriptor.content_rect,
            style_mask: descriptor.style_mask,
            backing: descriptor.backing,
            deferred: descriptor.defer_creation,
            title: Seq::empty(),
            visible: false,
            key: false,
        }
    }
}

impl Window {
    /// Creates a window from `descriptor` and registers it in `region`.
    ///
    /// An invalid rectangle is refused first, a drained region second; on
    /// either the region stays as it was.
    pub fn create(region: &mut ResourceRegion, descriptor: &WindowDescriptor) -> (r: Result<
        Window,
        WindowError,
    >)
        ensures
            match r {
                Ok(window) => {
                    &&& descriptor.content_rect.valid()
                    &&& !old(region)@.drained
                    &&& window@ == WindowView::created(
                        old(region)@.registered.len() as int,
                        *descriptor,
                    )
                    &&& final(region)@ == old(region)@.after_register(ObjectKind::Window)
                },
                Err(e) => {
                    &&& final(region)@ == old(region)@
                    &&& e == (if !descriptor.content_rect.valid() {
                        WindowError::InvalidGeometry
                    } else {
                        WindowError::RegionDrained
                    })
                    &&& !descriptor.content_rect.valid() || old(region)@.drained
                },
            },
    {
        if !descriptor.content_rect.is_valid() {
            return Err(WindowError::InvalidGeometry);
        }
        match region.register(ObjectKind::Window) {
            Ok(handle) => Ok(
                Window {
                    handle,
                    frame: descriptor.content_rect,
                    style_mask: descriptor.style_mask,
                    backing: descriptor.backing,
                    deferred: descriptor.defer_creation,
                    title: String::new(),
                    visible: false,
                    key: false,
                },
            ),
            Err(_) => Err(WindowError::RegionDrained),
        }
    }

    /// Moves the window so that its top-left corner is `top_left`. Where that
    /// is not representable the window stays where it is.
    pub fn cascade_top_left_from_point(&mut self, top_left: Point) -> (r: Result<(), WindowError>)
        ensures
            match old(self).frame.with_top_left(top_left) {
                Some(frame) => r is Ok && final(self)@ == (WindowView { frame, ..old(self)@ }),
                None => r == Err::<(), WindowError>(WindowError::OutOfRange) && final(self)@
                    == old(self)@,
            },
    {
        match self.frame.move_top_left_to(top_left) {
            Some(frame) => {
                self.frame = frame;
                Ok(())
            },
            None => Err(WindowError::OutOfRange),
        }
    }

    /// Centres the window on `display`. An invalid display is refused; where
    /// the centred frame is not representable the window stays where it is.
    pub fn center(&mut self, display: &Rect) -> (r: Result<(), WindowError>)
        ensures
            match old(self).frame.centered_in(*display) {
                Some(frame) => r is Ok && final(self)@ == (WindowView { frame, ..old(self)@ }),
                None => final(self)@ == old(self)@ && r == Err::<(), WindowError>(
                    if display.valid() {
                        WindowError::OutOfRange
                    } else {
                        WindowError::InvalidGeometry
                    },
                ),
            },
    {
        if !display.is_valid() {
            return Err(WindowError::InvalidGeometry);
        }
        match self.frame.center_in(display) {
            Some(frame) => {
                self.frame = frame;
                Ok(())
            },
            None => Err(WindowError::OutOfRange),
        }
    }

    /// Gives the window the title `title`.
    pub fn set_title(&mut self, title: &str)
        ensures
            final(self)@ == (WindowView { title: title@, ..old(self)@ }),
    {
        self.title = String::from_str(title);
    }

    /// Puts the window on screen in front of the other windows of the
    /// application and makes it the window that receives the keyboard.
    pub fn make_key_and_order_front(&mut self)
        ensures
            final(self)@ == (WindowView { visible: true, key: true, ..old(self)@ }),
    {
        self.visible = true;
        self.key = true;
    }
}

/// The window that the builder makes from `descriptor` on `display`: centred on
/// the display at the size of the descriptor, titled, on screen and key.
pub open spec fn built_window(handle: int, descriptor: WindowDescriptor, display: Rect) -> WindowView
    recommends
        descriptor.content_rect.centered_in(display) is Some,
{
    WindowView {
        frame: descriptor.content_rect.centered_in(display)->0,
        title: window_title(),
        visible: true,
        key: true,
        ..WindowView::created(handle, descriptor)
    }
}

/// Builds the window of the application: creates it from `descriptor` in
/// `region`, cascades it from the starting point, centres it on `display`,
/// gives it its title and brings it to the front as the key window.
///
/// An invalid rectangle of the descriptor or of the display is refused first,
/// a window that cannot be centred second, a drained region third; on each of
/// them nothing is registered.
pub fn build_window(region: &mut ResourceRegion, descriptor: &WindowDescriptor, display: &Rect) -> (r:
    Result<Window, WindowError>)
    ensures
        match r {
            Ok(window) => {
                &&& build_window_error(old(region)@, *descriptor, *display) is None
                &&& window@ == built_window(
                    old(region)@.registered.len() as int,
                    *descriptor,
                    *display,
                )
                &&& final(region)@ == old(region)@.after_register(ObjectKind::Window)
                &&& final(region)@.live(window@.handle)
            },
            Err(e) => {
                &&& build_window_error(old(region)@, *descriptor, *display) == Some(e)
                &&& final(region)@ == old(region)@
            },
        },
{
    if !descriptor.content_rect.is_valid() || !display.is_valid() {
        return Err(WindowError::InvalidGeometry);
    }
    if descriptor.content_rect.center_in(display).is_none() {
        return Err(WindowError::OutOfRange);
    }
    let mut window = match Window::create(region, descriptor) {
        Ok(window) => window,
        Err(e) => { return Err(e); },
    };
    proof {
        lemma_cascade_from_start(descriptor.content_rect);
        lemma_centering_ignores_origin(
            descriptor.content_rect.with_top_left(cascade_start())->0,
            descriptor.content_rect,
            *display,
        );
    }
    match window.cascade_top_left_from_point(cascade_origin()) {
        Ok(_) => {},
        Err(e) => { return Err(e); },
    }
    match window.center(display) {
        Ok(_) => {},
        Err(e) => { return Err(e); },
    }
    window.set_title(title_text());
    window.make_key_and_order_front();
    Ok(window)
}

/// Why the builder refuses, if it does.
pub open spec fn build_window_error(
    region: RegionState,
    descriptor: WindowDescriptor,
    display: Rect,
) -> Option<WindowError> {
    if !descriptor.content_rect.valid() || !display.valid() {
        Some(WindowError::InvalidGeometry)
    } else if descriptor.content_rect.centered_in(display) is None {
        Some(WindowError::OutOfRange)
    } else if region.drained {
        Some(WindowError::RegionDrained)
    } else {
        None
    }
}

/// Every valid rectangle can be cascaded from the starting point.
pub proof fn lemma_cascade_from_start(rect: Rect)
    requires
        rect.valid(),
    ensures
        rect.with_top_left(cascade_start()) is Some,
        rect.with_top_left(cascade_start())->0.valid(),
        rect.with_top_left(cascade_start())->0.size == rect.size,
{
}

/// A window of any valid size that is no larger than the display is built
/// whenever the region is open, and its frame then lies wholly inside the
/// display, whatever origin the descriptor gave.
pub proof fn lemma_built_window_is_on_display(
    region: RegionState,
    descriptor: WindowDescriptor,
    display: Rect,
)
    requires
        descriptor.content_rect.valid(),
        display.valid(),
        descriptor.content_rect.fits_in(display),
    ensures
        build_window_error(region, descriptor, display) == (if region.drained {
            Some(WindowError::RegionDrained)
        } else {
            None
        }),
        display.encloses(built_window(region.registered.len() as int, descriptor, display).frame),
        built_window(region.registered.len() as int, descriptor, display).frame.size
            == descriptor.content_rect.size,
{
    crate::geometry::lemma_centered_window_is_on_display(descriptor.content_rect, display);
}

} // verus!
