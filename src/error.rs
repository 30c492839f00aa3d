use vstd::prelude::*;

verus! {

/// Why a value could not cross the boundary to or from the native library.
#[derive(Debug, Clone, Copy, PartialEq, Eq, Structural)]
pub enum BindingError {
    /// A string handed to the native library holds a nul byte at `position`
    /// (a byte offset), which a nul-terminated string cannot carry.
    InteriorNul { position: usize },
    /// A buffer returned by the native library holds no nul terminator.
    MissingTerminator,
    /// A buffer returned by the native library is not valid UTF-8 text.
    InvalidUtf8,
    /// The native library returned its null sentinel instead of a buffer.
    NullResult,
}

} // verus!
