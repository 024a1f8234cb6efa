use vstd::prelude::*;

verus! {

/// An instant in time, carried as milliseconds since the Unix epoch.
#[derive(PartialEq, Eq, Structural, Hash, Clone, Copy, Debug)]
pub struct Timestamp {
    millis: i64,
}

impl Timestamp {
    /// The instant's millisecond value.
    pub closed spec fn millis_spec(&self) -> i64 {
        self.millis
    }

    pub fn new(millis: i64) -> (r: Timestamp)
        ensures
            r.millis_spec() == millis,
    {
        Timestamp { millis }
    }

    pub fn millis(&self) -> (r: i64)
        ensures
            r == self.millis_spec(),
    {
        self.millis
    }
}

impl crate::traits::ValueObject for Timestamp {

}

} // verus!
