//! Error kinds raised while driving the hosted runtime.

use vstd::prelude::*;

verus! {

/// Errors that can occur when interacting with the hosted runtime.
#[derive(Debug, Clone, PartialEq, Eq)]
pub enum ClrError {
    /// A program image could not be read.
    FileReadError(String),
    /// A native call failed with the given status code.
    ApiError(&'static str, i32),
    /// The entry point expects arguments, but none were supplied.
    MissingArguments,
    /// A reference could not be cast to the named interface.
    CastingError(&'static str),
    /// The buffer does not hold a valid executable.
    InvalidExecutable,
    /// No method of the requested name or signature exists.
    MethodNotFound,
    /// No property of the requested name exists.
    PropertyNotFound,
    /// The executable is not a managed program.
    NotDotNet,
    /// The meta-host service could not be created.
    MetaHostCreationError(String),
    /// The runtime-info service could not be obtained.
    RuntimeInfoError(String),
    /// A runtime-host service could not be obtained.
    RuntimeHostError(String),
    /// The runtime failed to start.
    RuntimeStartError,
    /// An execution domain could not be created.
    DomainCreationError(String),
    /// The default domain could not be obtained.
    DefaultDomainError(String),
    /// No execution domain is available.
    NoDomainAvailable,
    /// The named native call handed back a null reference.
    NullPointerError(&'static str),
    /// A dynamic array could not be built or read.
    SafeArrayError(String),
    /// The dynamic value holds a type that is not supported here.
    VariantUnsupported,
    /// Any other failure, with its description.
    GenericError(&'static str),
    /// The image has no valid header.
    InvalidNtHeader,
}

/// The outcome of a native call named `call` that returned `status`: zero is
/// success, anything else the call's error with its raw status.
pub fn check_status(call: &'static str, status: i32) -> (r: Result<(), ClrError>)
    ensures
        status == 0 ==> r is Ok,
        status != 0 ==> r == Err::<(), ClrError>(ClrError::ApiError(call, status)),
{
    if status == 0 {
        Ok(())
    } else {
        Err(ClrError::ApiError(call, status))
    }
}

} // verus!
