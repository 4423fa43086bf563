use vstd::prelude::*;

verus! {

/// The host error model for the wrapper layer.
///
/// Three categories cover every failure a native call site can surface:
/// an explicit engine-signalled error carrying the engine's message text,
/// a call that contractually produces a handle but produced none, and a
/// failed translation between the native and the host representation of a
/// number or a string.
#[derive(Debug, PartialEq, Eq)]
pub enum Error {
    /// The engine reported a failure during an operation; the field holds
    /// the engine's message text.
    NativeLibrary(String),
    /// A call that contractually returns a handle returned none.
    UnexpectedNullPtr,
    /// A numeric length could not be translated between the native and the
    /// host representation (negative, or out of range).
    NumericConversion,
    /// A string could not be translated to the native representation
    /// (it holds an embedded terminator).
    StringConversion,
}

/// Resolves the two-phase pattern every fallible native call follows: the
/// call captures an engine-level exception into an out-parameter and hands
/// back a possibly-null handle; this function inspects both and produces
/// the typed host result.
///
/// A non-empty error state wins over whatever handle came back; a missing
/// handle with no error state is an unexpected-null-pointer failure; and a
/// handle is returned untouched only when the engine signalled nothing.
pub fn resolve_native_call<T>(error_message: Option<String>, handle: Option<T>) -> (r: Result<
    T,
    Error,
>)
    ensures
        match r {
            Ok(v) => error_message is None && handle == Some(v),
            Err(e) => match e {
                Error::NativeLibrary(m) => error_message == Some(m),
                Error::UnexpectedNullPtr => error_message is None && handle is None,
                _ => false,
            },
        },
        r is Ok <==> (error_message is None && handle is Some),
{
    match error_message {
        Some(m) => Err(Error::NativeLibrary(m)),
        None => match handle {
            Some(v) => Ok(v),
            None => Err(Error::UnexpectedNullPtr),
        },
    }
}

} // verus!
