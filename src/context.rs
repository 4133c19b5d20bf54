use vstd::prelude::*;
use crate::table::{is_complete, DispatchTable, Entry};

verus! {

/// An opened shared library, by the handle its loader gave (null when no
/// candidate could be opened).
#[derive(Clone, Copy, Debug, PartialEq, Eq, Structural)]
pub struct Library {
    pub handle: usize,
}

impl Library {
    pub open spec fn is_open(&self) -> bool {
        self.handle != 0
    }
}

/// The display connection and, once bound to a window, its surface and
/// rendering context. Every field is a driver handle, null when absent.
#[derive(Clone, Copy, Debug, PartialEq, Eq, Structural)]
pub struct Display {
    pub display: usize,
    pub config: usize,
    pub window: usize,
    pub surface: usize,
    pub context: usize,
}

impl Display {
    /// Phase one done: a connection and a chosen configuration.
    pub open spec fn is_connected(&self) -> bool {
        self.display != 0 && self.config != 0
    }

    /// Phase two done: bound to a window, with a surface to present and a
    /// current rendering context.
    pub open spec fn is_bound(&self) -> bool {
        self.is_connected() && self.surface != 0 && self.context != 0
    }
}

/// The result of phase one: a loaded display library and a display
/// connection, waiting for a native window. It offers only phase two.
pub struct OpenGLBuilder {
    lib: Library,
    display: Display,
}

impl OpenGLBuilder {
    pub closed spec fn lib_spec(&self) -> Library {
        self.lib
    }

    pub closed spec fn display_spec(&self) -> Display {
        self.display
    }

    pub open spec fn wf(&self) -> bool {
        self.lib_spec().is_open() && self.display_spec().is_connected()
            && self.display_spec().window == 0 && self.display_spec().surface == 0
            && self.display_spec().context == 0
    }

    /// Begins the building from what the loader and the display
    /// initialisation returned: the library handle, the display connection,
    /// the chosen configuration and its visual id. Yields the builder and the
    /// visual id that the native window must be created with, or nothing when
    /// the library or the display could not be had.
    pub fn new(lib: Library, display: usize, config: usize, visual_id: i32) -> (r: Option<
        (OpenGLBuilder, i32),
    >)
        ensures
            r is Some <==> (lib.is_open() && display != 0 && config != 0),
            r matches Some(p) ==> {
                &&& p.0.wf()
                &&& p.1 == visual_id
                &&& p.0.lib_spec() == lib
                &&& p.0.display_spec().display == display
                &&& p.0.display_spec().config == config
            },
    {
        if lib.handle == 0 || display == 0 || config == 0 {
            return None;
        }
        let display = Display { display, config, window: 0, surface: 0, context: 0 };
        Some((OpenGLBuilder { lib, display }, visual_id))
    }

    pub fn library(&self) -> (r: Library)
        ensures
            r == self.lib_spec(),
    {
        self.lib
    }

    pub fn display(&self) -> (r: Display)
        ensures
            r == self.display_spec(),
    {
        self.display
    }

    /// Completes the building, consuming the builder. Takes the native
    /// window, the surface and context that binding the display to it gave,
    /// and the addresses resolved for every entry in slot order. All or
    /// nothing: a context comes back only when the binding succeeded and every
    /// entry point was found.
    pub fn to_opengl(self, window: usize, surface: usize, context: usize, resolved: Vec<usize>) -> (r:
        Option<OpenGL>)
        requires
            self.wf(),
        ensures
            r is Some <==> (surface != 0 && context != 0 && is_complete(resolved@)),
            r matches Some(gl) ==> {
                &&& gl.wf()
                &&& gl.lib_spec() == self.lib_spec()
                &&& gl.display_spec() == (Display {
                    window,
                    surface,
                    context,
                    ..self.display_spec()
                })
                &&& gl.table_spec() == resolved@
            },
    {
        if surface == 0 || context == 0 {
            return None;
        }
        match DispatchTable::from_resolved(resolved) {
            None => None,
            Some(table) => {
                let display = Display { window, surface, context, ..self.display };
                Some(OpenGL { lib: self.lib, display, table })
            },
        }
    }
}

/// A rendering context: the loaded library, the bound display and the
/// complete dispatch table.
pub struct OpenGL {
    lib: Library,
    display: Display,
    table: DispatchTable,
}

impl OpenGL {
    pub closed spec fn lib_spec(&self) -> Library {
        self.lib
    }

    pub closed spec fn display_spec(&self) -> Display {
        self.display
    }

    pub closed spec fn table_spec(&self) -> Seq<usize> {
        self.table@
    }

    pub open spec fn wf(&self) -> bool {
        self.lib_spec().is_open() && self.display_spec().is_bound() && is_complete(
            self.table_spec(),
        )
    }

    pub fn library(&self) -> (r: Library)
        ensures
            r == self.lib_spec(),
    {
        self.lib
    }

    pub fn display(&self) -> (r: Display)
        ensures
            r == self.display_spec(),
    {
        self.display
    }

    /// The address to call for `e`.
    pub fn address(&self, e: Entry) -> (r: usize)
        requires
            self.wf(),
        ensures
            r == self.table_spec()[e.slot()],
            r != 0,
    {
        self.table.address(e)
    }
}

} // verus!
