use vstd::prelude::*;

verus! {

/// The category of a recoverable driver fault.
#[derive(Clone, Copy, Debug, PartialEq, Eq, Structural)]
pub enum KErrorType {
    /// A caller-supplied value violates a precondition of the operation.
    InvalidInput,
    /// A device did not behave as it was programmed to.
    HardwareError,
}

/// A fault returned by a driver operation: its category and a diagnostic text.
#[derive(Clone, Copy, Debug)]
pub struct KError<'a> {
    pub error_type: KErrorType,
    pub message: &'a str,
}

impl<'a> KError<'a> {
    pub fn new(error_type: KErrorType, message: &'a str) -> (r: KError<'a>)
        ensures
            r.error_type == error_type,
            r.message == message,
    {
        KError { error_type, message }
    }

    /// The category of this fault.
    pub fn error_type(&self) -> (r: KErrorType)
        ensures
            r == self.error_type,
    {
        self.error_type
    }

    /// The diagnostic text of this fault.
    pub fn message(&self) -> (r: &'a str)
        ensures
            r == self.message,
    {
        self.message
    }
}

} // verus!
