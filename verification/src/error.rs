use vstd::prelude::*;

verus! {

/// Why a handler could not be opened or read.
#[derive(Debug, Clone, Copy, PartialEq, Eq, Structural)]
pub enum MumbleLinkHandlerError {
    /// The handler has no mapped region: it was never opened, or it was released.
    UnableToRead,
    /// The operating system refused a call; the field is its error code, unchanged.
    OSError(i32),
}

impl MumbleLinkHandlerError {
    /// The operating system's error code, if the error carries one.
    pub fn os_code(&self) -> (code: Option<i32>)
        ensures
            code == match *self {
                MumbleLinkHandlerError::UnableToRead => None::<i32>,
                MumbleLinkHandlerError::OSError(c) => Some(c),
            },
    {
        match self {
            MumbleLinkHandlerError::UnableToRead => None,
            MumbleLinkHandlerError::OSError(c) => Some(*c),
        }
    }
}

} // verus!
