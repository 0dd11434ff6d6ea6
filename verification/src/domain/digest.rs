use vstd::prelude::*;

use crate::domain::error::CoreError;

verus! {

/// The hash of a resource's content, in the textual form the server uses; never empty.
#[derive(Debug, PartialEq, Eq, PartialOrd, Ord, Hash)]
pub struct ContentHash(String);

/// The hash of a resource's vault path, in the textual form the server uses; never empty.
#[derive(Debug, PartialEq, Eq, PartialOrd, Ord, Hash)]
pub struct PathHash(String);

impl View for ContentHash {
    type V = Seq<char>;

    closed spec fn view(&self) -> Seq<char> {
        self.0@
    }
}

impl View for PathHash {
    type V = Seq<char>;

    closed spec fn view(&self) -> Seq<char> {
        self.0@
    }
}

impl ContentHash {
    #[verifier::type_invariant]
    spec fn inv(self) -> bool {
        self.0@.len() > 0
    }

    /// Accepts any non-empty hash text.
    pub fn new(value: String) -> (r: Result<Self, CoreError>)
        ensures
            value@.len() > 0 ==> (r matches Ok(h) && h@ == value@),
            value@.len() == 0 ==> r == Err::<Self, CoreError>(CoreError::InvalidHash),
    {
        if value.as_str().is_empty() {
            return Err(CoreError::InvalidHash);
        }
        Ok(ContentHash(value))
    }

    pub fn as_str(&self) -> (r: &str)
        ensures
            r@ == self@,
            r@.len() > 0,
    {
        proof {
            use_type_invariant(self);
        }
        self.0.as_str()
    }

    pub fn into_string(self) -> (r: String)
        ensures
            r@ == self@,
            r@.len() > 0,
    {
        proof {
            use_type_invariant(&self);
        }
        self.0
    }
}

impl ContentHash {
    /// Wraps hash text already known to be non-empty.
    pub(crate) fn from_nonempty(value: String) -> (h: Self)
        requires
            value@.len() > 0,
        ensures
            h@ == value@,
    {
        ContentHash(value)
    }
}

impl Clone for ContentHash {
    fn clone(&self) -> (r: Self)
        ensures
            r@ == self@,
    {
        proof {
            use_type_invariant(self);
        }
        ContentHash(self.0.clone())
    }
}

impl PathHash {
    #[verifier::type_invariant]
    spec fn inv(self) -> bool {
        self.0@.len() > 0
    }

    /// Accepts any non-empty hash text.
    pub fn new(value: String) -> (r: Result<Self, CoreError>)
        ensures
            value@.len() > 0 ==> (r matches Ok(h) && h@ == value@),
            value@.len() == 0 ==> r == Err::<Self, CoreError>(CoreError::InvalidHash),
    {
        if value.as_str().is_empty() {
            return Err(CoreError::InvalidHash);
        }
        Ok(PathHash(value))
    }

    pub fn as_str(&self) -> (r: &str)
        ensures
            r@ == self@,
            r@.len() > 0,
    {
        proof {
            use_type_invariant(self);
        }
        self.0.as_str()
    }

    pub fn into_string(self) -> (r: String)
        ensures
            r@ == self@,
            r@.len() > 0,
    {
        proof {
            use_type_invariant(&self);
        }
        self.0
    }
}

impl PathHash {
    /// Wraps hash text already known to be non-empty.
    pub(crate) fn from_nonempty(value: String) -> (h: Self)
        requires
            value@.len() > 0,
        ensures
            h@ == value@,
    {
        PathHash(value)
    }
}

impl Clone for PathHash {
    fn clone(&self) -> (r: Self)
        ensures
            r@ == self@,
    {
        proof {
            use_type_invariant(self);
        }
        PathHash(self.0.clone())
    }
}

} // verus!
