use vstd::prelude::*;

verus! {

/// The kinds of failure that the transport reports.
#[derive(PartialEq, Eq, Structural, Clone, Copy, Debug)]
pub enum StatusCode {
    /// A failure inside the transport or one of its services.
    Internal,
    /// A request for a feature that the transport does not offer.
    Unimplemented,
    /// A request whose arguments cannot be used.
    InvalidArgument,
}

/// A failure, with its kind and a text for humans.
#[derive(Debug)]
pub struct Status {
    pub code: StatusCode,
    pub message: String,
}

impl Status {
    /// A failure of the given kind with the given text.
    pub fn fail_with_code(code: StatusCode, message: String) -> (res: Status)
        ensures
            res.code == code,
            res.message@ == message@,
    {
        Status { code, message }
    }
}

} // verus!
