use vstd::prelude::*;

verus! {

/// Machine-checkable class of a failed registration.
#[derive(Clone, Copy, Debug, PartialEq, Eq, Structural)]
pub enum Code {
    /// The request itself is malformed or ambiguous.
    InvalidArgument,
    /// A port, address or quota is not available.
    ResourceExhausted,
    /// The requested address conflicts with one already registered.
    AlreadyExists,
    /// The data plane could not complete the registration.
    Internal,
}

/// Structured failure status: a code and a human-readable message.
#[derive(Clone, Debug)]
pub struct Status {
    pub code: Code,
    pub message: String,
}

impl Status {
    pub fn new(code: Code, message: String) -> (r: Status)
        ensures
            r.code == code,
            r.message@ == message@,
    {
        Status { code, message }
    }

    pub fn code(&self) -> (r: Code)
        ensures
            r == self.code,
    {
        self.code
    }

    pub fn message(&self) -> (r: &str)
        ensures
            r@ == self.message@,
    {
        self.message.as_str()
    }
}

} // verus!
