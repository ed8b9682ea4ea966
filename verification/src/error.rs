use vstd::prelude::*;

verus! {

/// The single error value that every fallible operation returns: a readable message.
#[derive(Debug)]
pub enum PicoHarmonyError {
    Msg(String),
}

impl PicoHarmonyError {
    /// The message carried by the error.
    pub open spec fn text(self) -> Seq<char> {
        match self {
            PicoHarmonyError::Msg(s) => s@,
        }
    }

    /// The message carried by the error, as an owned string.
    pub fn message(&self) -> (s: String)
        ensures
            s@ == self.text(),
    {
        match self {
            PicoHarmonyError::Msg(s) => s.clone(),
        }
    }
}

/// Wraps a message into an error value.
pub fn err(t: String) -> (e: PicoHarmonyError)
    ensures
        e == PicoHarmonyError::Msg(t),
        e.text() == t@,
{
    PicoHarmonyError::Msg(t)
}

/// Wraps a fixed message into an error value.
pub fn err_text(t: &str) -> (e: PicoHarmonyError)
    ensures
        e.text() == t@,
{
    PicoHarmonyError::Msg(t.to_owned())
}

} // verus!
