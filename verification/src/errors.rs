use vstd::prelude::*;

verus! {

/// Why an engine operation was rejected.
#[derive(Clone, Copy, Debug, PartialEq, Eq, Structural)]
pub enum RollCallError {
    /// The referenced student or staff member is unknown.
    NotFound,
    /// The request repeats work already done: a duplicate badge scan, or a
    /// trigger that matches the session state it asks for.
    Conflict,
    /// A toggle or scan arrived while no emergency session was active.
    NoActiveSession,
    /// A request field failed validation (blank name, short password,
    /// unknown role or status).
    InvalidInput,
}

impl RollCallError {
    /// A short, stable label for logs and HTTP payloads.
    pub fn label(&self) -> (r: &'static str)
        ensures
            self is NotFound ==> r@ == "not found"@,
            self is Conflict ==> r@ == "conflict"@,
            self is NoActiveSession ==> r@ == "no active session"@,
            self is InvalidInput ==> r@ == "invalid input"@,
    {
        match self {
            RollCallError::NotFound => "not found",
            RollCallError::Conflict => "conflict",
            RollCallError::NoActiveSession => "no active session",
            RollCallError::InvalidInput => "invalid input",
        }
    }
}

} // verus!
