use vstd::prelude::*;

verus! {

/// A value that lies in the inclusive range `[lower, upper]`.
///
/// The range check happens once, when the value is built; afterwards
/// the value is immutable, so the bound holds for its whole life.
#[derive(Clone, Copy, Debug, PartialEq, Eq, Structural)]
pub struct Bounded {
    val: u64,
    lower: u64,
    upper: u64,
}

impl Bounded {
    /// The value held.
    pub closed spec fn spec_value(self) -> u64 {
        self.val
    }

    /// The least value allowed.
    pub closed spec fn spec_lower(self) -> u64 {
        self.lower
    }

    /// The greatest value allowed.
    pub closed spec fn spec_upper(self) -> u64 {
        self.upper
    }

    /// Every live instance lies within its own bounds.
    pub open spec fn wf(self) -> bool {
        self.spec_lower() <= self.spec_value() <= self.spec_upper()
    }

    /// Checks `lower <= val <= upper` and builds the bounded value, or
    /// returns `None` when the check fails.
    pub fn new(val: u64, lower: u64, upper: u64) -> (r: Option<Bounded>)
        ensures
            r is Some <==> lower <= val <= upper,
            r matches Some(b) ==> b.wf() && b.spec_value() == val && b.spec_lower() == lower
                && b.spec_upper() == upper,
    {
        if lower <= val && val <= upper {
            Some(Bounded { val, lower, upper })
        } else {
            None
        }
    }

    /// Builds a bounded value whose range check is discharged when the
    /// caller is verified, so no failure path exists at run time.
    pub fn checked(val: u64, lower: u64, upper: u64) -> (r: Bounded)
        requires
            lower <= val <= upper,
        ensures
            r.wf(),
            r.spec_value() == val,
            r.spec_lower() == lower,
            r.spec_upper() == upper,
    {
        Bounded { val, lower, upper }
    }

    /// The value held.
    pub fn value(&self) -> (r: u64)
        ensures
            r == self.spec_value(),
    {
        self.val
    }

    /// The least value allowed.
    pub fn lower(&self) -> (r: u64)
        ensures
            r == self.spec_lower(),
    {
        self.lower
    }

    /// The greatest value allowed.
    pub fn upper(&self) -> (r: u64)
        ensures
            r == self.spec_upper(),
    {
        self.upper
    }
}

} // verus!
