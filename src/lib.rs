//! A verified core for binding an EGL-style display library and an
//! OpenGL-ES-style rendering library loaded at run time.
//!
//! The library decides; the caller performs. Every driver call that a
//! rendering operation needs is computed here as a plain [`command::Call`],
//! every reply of the driver's error register is classified here, and the
//! two-phase construction of a context is checked here. The host that owns
//! the loaded symbols executes the calls and hands the replies back.

pub mod command;
pub mod context;
pub mod error;
pub mod shader;
pub mod table;

pub use command::{Attribute, Call, Texture};
pub use context::{Display, Library, OpenGL, OpenGLBuilder};
pub use error::{check_error, error_kind, GlError};
pub use shader::{Failure, Phase, ShaderBuild, Stage, Step};
pub use table::{DispatchTable, Entry, ENTRY_COUNT};
