use vstd::prelude::*;

use crate::domain::error::CoreError;

verus! {

/// A server timestamp in milliseconds; never negative.
#[derive(Debug, Clone, Copy, PartialEq, Eq, PartialOrd, Ord, Hash, Structural)]
pub struct RemoteMillis(i64);

impl RemoteMillis {
    /// The number of milliseconds held.
    pub closed spec fn value(self) -> i64 {
        self.0
    }

    /// Law: a timestamp is determined by the number of milliseconds it
    /// holds, so reading a timestamp back through its value gives the same
    /// timestamp.
    pub proof fn lemma_value_determines(a: RemoteMillis, b: RemoteMillis)
        requires
            a.value() == b.value(),
        ensures
            a == b,
    {
    }

    #[verifier::type_invariant]
    spec fn inv(self) -> bool {
        self.0 >= 0
    }

    /// Accepts exactly the non-negative millisecond counts.
    pub fn new(value: i64) -> (r: Result<Self, CoreError>)
        ensures
            value >= 0 <==> r is Ok,
            r matches Ok(m) ==> m.value() == value,
            r matches Err(e) ==> e == CoreError::InvalidTimestamp,
    {
        if value < 0 {
            return Err(CoreError::InvalidTimestamp);
        }
        Ok(RemoteMillis(value))
    }

    pub fn as_i64(self) -> (r: i64)
        ensures
            r == self.value(),
            r >= 0,
    {
        proof {
            use_type_invariant(&self);
        }
        self.0
    }
}

impl TryFrom<i64> for RemoteMillis {
    type Error = CoreError;

    /// Accepts exactly the non-negative millisecond counts, as [`RemoteMillis::new`].
    fn try_from(value: i64) -> (r: Result<Self, CoreError>)
        ensures
            value >= 0 <==> r is Ok,
            r matches Ok(m) ==> m.value() == value,
            r matches Err(e) ==> e == CoreError::InvalidTimestamp,
    {
        RemoteMillis::new(value)
    }
}

/// The conversion from `i64` states its result in its own contract.
impl vstd::std_specs::convert::TryFromSpecImpl<i64> for RemoteMillis {
    open spec fn obeys_try_from_spec() -> bool {
        false
    }

    open spec fn try_from_spec(v: i64) -> Result<RemoteMillis, CoreError> {
        arbitrary()
    }
}

impl From<RemoteMillis> for i64 {
    /// The number of milliseconds held.
    fn from(value: RemoteMillis) -> (r: i64) {
        value.as_i64()
    }
}

impl vstd::std_specs::convert::FromSpecImpl<RemoteMillis> for i64 {
    open spec fn obeys_from_spec() -> bool {
        true
    }

    open spec fn from_spec(v: RemoteMillis) -> i64 {
        v.value()
    }
}

} // verus!
