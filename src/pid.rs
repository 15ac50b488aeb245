use vstd::prelude::*;

verus! {

/// Identifier of an operating-system process, as the host numbers it.
#[derive(Clone, Copy, Debug, PartialEq, Eq, Hash, Structural)]
pub struct Pid(pub i32);

impl Pid {
    /// Wraps a raw process id.
    pub fn from_raw(raw: i32) -> (r: Pid)
        ensures
            r.0 == raw,
    {
        Pid(raw)
    }

    /// The raw process id.
    pub fn as_raw(self) -> (r: i32)
        ensures
            r == self.0,
    {
        self.0
    }
}

} // verus!
