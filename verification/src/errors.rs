use vstd::prelude::*;

verus! {

/// The ways in which deriving a share can fail.
#[derive(Debug, Clone, Copy, PartialEq, Eq, Structural)]
pub enum Error {
    /// The suite has no field element for the shareholder's identity.
    ShareholderEncodingFailed,
}

impl Error {
    /// A short description of the error, for messages and logs.
    pub fn message(&self) -> (r: &'static str)
        ensures
            r@ == match *self {
                Error::ShareholderEncodingFailed => "shareholder encoding failed"@,
            },
    {
        match self {
            Error::ShareholderEncodingFailed => "shareholder encoding failed",
        }
    }
}

} // verus!
