use vstd::prelude::*;

verus! {

/// The application status codes that this library reports.
#[derive(Clone, Copy, Debug, PartialEq, Eq, Structural)]
pub enum Code {
    Unknown,
    Unimplemented,
    Internal,
}

/// The number that stands for a status code on the wire.
pub open spec fn code_value(c: Code) -> i32 {
    match c {
        Code::Unknown => 2,
        Code::Unimplemented => 12,
        Code::Internal => 13,
    }
}

impl Code {
    pub fn value(&self) -> (r: i32)
        ensures
            r == code_value(*self),
    {
        match self {
            Code::Unknown => 2,
            Code::Unimplemented => 12,
            Code::Internal => 13,
        }
    }
}

} // verus!
