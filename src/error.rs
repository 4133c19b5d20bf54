use vstd::prelude::*;

verus! {

/// The driver's "no error" code.
pub const GL_NO_ERROR: u32 = 0x0000;
pub const GL_INVALID_ENUM: u32 = 0x0500;
pub const GL_INVALID_VALUE: u32 = 0x0501;
pub const GL_INVALID_OPERATION: u32 = 0x0502;
pub const GL_STACK_OVERFLOW: u32 = 0x0503;
pub const GL_STACK_UNDERFLOW: u32 = 0x0504;
pub const GL_OUT_OF_MEMORY: u32 = 0x0505;

/// The closed set of kinds that a latched driver error is sorted into.
#[derive(Clone, Copy, Debug, PartialEq, Eq, Structural)]
pub enum GlError {
    InvalidEnum,
    InvalidValue,
    InvalidOperation,
    StackOverflow,
    StackUnderflow,
    OutOfMemory,
    Unknown,
}

/// The kind of a non-zero error code.
pub open spec fn kind_of(code: u32) -> GlError {
    if code == GL_INVALID_ENUM {
        GlError::InvalidEnum
    } else if code == GL_INVALID_VALUE {
        GlError::InvalidValue
    } else if code == GL_INVALID_OPERATION {
        GlError::InvalidOperation
    } else if code == GL_STACK_OVERFLOW {
        GlError::StackOverflow
    } else if code == GL_STACK_UNDERFLOW {
        GlError::StackUnderflow
    } else if code == GL_OUT_OF_MEMORY {
        GlError::OutOfMemory
    } else {
        GlError::Unknown
    }
}

/// What a reading of the error register means: nothing when it is clear,
/// else the kind of the latched error.
pub open spec fn outcome_of(code: u32) -> Result<(), GlError> {
    if code == GL_NO_ERROR {
        Ok(())
    } else {
        Err(kind_of(code))
    }
}

/// Sorts a non-zero error code into its kind.
pub fn error_kind(code: u32) -> (r: GlError)
    ensures
        r == kind_of(code),
{
    match code {
        GL_INVALID_ENUM => GlError::InvalidEnum,
        GL_INVALID_VALUE => GlError::InvalidValue,
        GL_INVALID_OPERATION => GlError::InvalidOperation,
        GL_STACK_OVERFLOW => GlError::StackOverflow,
        GL_STACK_UNDERFLOW => GlError::StackUnderflow,
        GL_OUT_OF_MEMORY => GlError::OutOfMemory,
        _ => GlError::Unknown,
    }
}

/// Interprets one reading of the driver's error register, taken right
/// after a call.
pub fn check_error(code: u32) -> (r: Result<(), GlError>)
    ensures
        r == outcome_of(code),
        r is Ok <==> code == GL_NO_ERROR,
{
    if code == GL_NO_ERROR {
        Ok(())
    } else {
        Err(error_kind(code))
    }
}

impl GlError {
    /// The diagnostic that names this kind.
    pub open spec fn message_text(self) -> Seq<char> {
        match self {
            GlError::InvalidEnum => "OpenGL Error: Invalid enum"@,
            GlError::InvalidValue => "OpenGL Error: Invalid value"@,
            GlError::InvalidOperation => "OpenGL Error: Invalid operation"@,
            GlError::StackOverflow => "OpenGL Error: Stack overflow"@,
            GlError::StackUnderflow => "OpenGL Error: Stack underflow"@,
            GlError::OutOfMemory => "OpenGL Error: Out of memory"@,
            GlError::Unknown => "OpenGL Error: Unknown"@,
        }
    }

    /// The diagnostic for this kind.
    pub fn message(&self) -> (r: &'static str)
        ensures
            r@ == self.message_text(),
    {
        match self {
            GlError::InvalidEnum => "OpenGL Error: Invalid enum",
            GlError::InvalidValue => "OpenGL Error: Invalid value",
            GlError::InvalidOperation => "OpenGL Error: Invalid operation",
            GlError::StackOverflow => "OpenGL Error: Stack overflow",
            GlError::StackUnderflow => "OpenGL Error: Stack underflow",
            GlError::OutOfMemory => "OpenGL Error: Out of memory",
            GlError::Unknown => "OpenGL Error: Unknown",
        }
    }
}

} // verus!
