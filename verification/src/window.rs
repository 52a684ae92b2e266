use vstd::prelude::*;
use crate::{FromRawHandle, IntoRawHandle};

verus! {

/// An opaque type that identifies a `Window`.
///
/// The handle carries the platform's native identifier and nothing else:
/// two handles are equal exactly when their identifiers are.
#[derive(Clone, Copy, Debug, PartialEq, Eq, Structural, Hash)]
pub struct WindowHandle {
    raw: u64,
}

impl WindowHandle {
    /// The native identifier behind the handle.
    pub closed spec fn id(self) -> u64 {
        self.raw
    }

    /// Two handles with the same identifier are the same handle.
    pub proof fn lemma_id_determines(a: WindowHandle, b: WindowHandle)
        requires
            a.id() == b.id(),
        ensures
            a == b,
    {
    }
}

impl FromRawHandle<u64> for WindowHandle {
    fn from_raw_handle(handle: u64) -> (window: Self)
        ensures
            window.id() == handle,
    {
        WindowHandle { raw: handle }
    }
}

impl IntoRawHandle<u64> for WindowHandle {
    fn into_raw_handle(self) -> (handle: u64)
        ensures
            handle == self.id(),
    {
        self.raw
    }
}

/// What a `WindowBuilder` holds.
pub struct WindowBuilderView {
    /// The title of the window.
    pub title: Seq<char>,
    /// The width and height of the window, in whole logical units.
    pub dimensions: (u32, u32),
    /// Whether the window takes a display for itself.
    pub exclusive: bool,
    /// The window that the window becomes a child of, if any.
    pub parent: Option<WindowHandle>,
}

/// Configures a window.
///
/// A `WindowBuilder` begins with a default configuration that a fluent
/// interface changes. The platform builds the window that it describes.
pub struct WindowBuilder {
    title: String,
    dimensions: (u32, u32),
    exclusive: bool,
    parent: Option<WindowHandle>,
}

impl View for WindowBuilder {
    type V = WindowBuilderView;

    closed spec fn view(&self) -> WindowBuilderView {
        WindowBuilderView {
            title: self.title@,
            dimensions: self.dimensions,
            exclusive: self.exclusive,
            parent: self.parent,
        }
    }
}

impl WindowBuilder {
    /// Sets the title of the window.
    pub fn with_title(self, title: &str) -> (builder: Self)
        ensures
            builder@ == (WindowBuilderView { title: title@, ..self@ }),
    {
        let mut builder = self;
        builder.title = title.to_owned();
        builder
    }

    /// Sets the width and height of the window.
    pub fn with_dimensions(self, dimensions: (u32, u32)) -> (builder: Self)
        ensures
            builder@ == (WindowBuilderView { dimensions, ..self@ }),
    {
        let mut builder = self;
        builder.dimensions = dimensions;
        builder
    }

    /// Makes the window a child of the given window.
    pub fn with_parent_window(self, parent: WindowHandle) -> (builder: Self)
        ensures
            builder@ == (WindowBuilderView { parent: Some(parent), ..self@ }),
    {
        let mut builder = self;
        builder.parent = Some(parent);
        builder
    }

    /// The title of the window.
    pub fn title(&self) -> (title: &str)
        ensures
            title@ == self@.title,
    {
        self.title.as_str()
    }

    /// The width and height of the window.
    pub fn dimensions(&self) -> (dimensions: (u32, u32))
        ensures
            dimensions == self@.dimensions,
    {
        self.dimensions
    }

    /// The window that the window becomes a child of, if any.
    pub fn parent(&self) -> (parent: Option<WindowHandle>)
        ensures
            parent == self@.parent,
    {
        self.parent
    }
}

impl Default for WindowBuilder {
    /// A window of 640 by 480 units without title or parent.
    fn default() -> (builder: Self)
        ensures
            builder@ == (WindowBuilderView {
                title: Seq::<char>::empty(),
                dimensions: (640u32, 480u32),
                exclusive: false,
                parent: None,
            }),
    {
        WindowBuilder { title: String::new(), dimensions: (640, 480), exclusive: false, parent: None }
    }
}

} // verus!
