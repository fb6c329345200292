use vstd::prelude::*;

verus! {

/// The outcome of one boundary call, the only channel back to the caller.
#[derive(Clone, Copy, Debug, PartialEq, Eq, Structural)]
pub enum Status {
    /// The result was copied into the caller's buffer.
    Success,
    /// A required input was absent or empty; nothing was written.
    InvalidArguments,
    /// The caller's buffer cannot hold the result; the length slot holds the size needed.
    BufferTooSmall,
    /// The codec rejected the input or its parameters.
    CodecError,
    /// The call could not run to completion inside the boundary.
    InternalFault,
}

impl Status {
    /// The integer that a C caller receives for this status.
    pub open spec fn spec_code(self) -> i32 {
        match self {
            Status::Success => 0,
            Status::InvalidArguments => 1,
            Status::BufferTooSmall => 2,
            Status::CodecError => 3,
            Status::InternalFault => 4,
        }
    }

    pub fn code(self) -> (c: i32)
        ensures
            c == self.spec_code(),
    {
        match self {
            Status::Success => 0,
            Status::InvalidArguments => 1,
            Status::BufferTooSmall => 2,
            Status::CodecError => 3,
            Status::InternalFault => 4,
        }
    }
}

} // verus!

verus! {

/// The status that a C caller's integer stands for; codes outside the enumeration
/// are never returned.
pub open spec fn status_of(code: i32) -> Status {
    if code == 0 {
        Status::Success
    } else if code == 1 {
        Status::InvalidArguments
    } else if code == 2 {
        Status::BufferTooSmall
    } else if code == 3 {
        Status::CodecError
    } else {
        Status::InternalFault
    }
}

} // verus!
