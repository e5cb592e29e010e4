use vstd::prelude::*;

verus! {

/// The number of cycles an operation took.
///
/// The counter saturates instead of wrapping: a host that runs the
/// interpreter for longer than `usize::MAX` cycles sees the counter pinned
/// at its maximum rather than a panic or a wraparound.
#[derive(Copy, Clone, Debug, PartialEq, Eq, Structural)]
pub struct Cycles(pub usize);

impl Cycles {
    /// The sum of two cycle counts, saturating at `usize::MAX`.
    pub fn plus(self, rhs: Cycles) -> (r: Cycles)
        ensures
            self.0 + rhs.0 <= usize::MAX ==> r.0 == self.0 + rhs.0,
            self.0 + rhs.0 > usize::MAX ==> r.0 == usize::MAX,
    {
        Cycles(self.0.saturating_add(rhs.0))
    }
}

} // verus!
