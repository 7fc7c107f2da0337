//! Subvolume paths carry their trust level: a path handed in by a caller is
//! merely assumed to name a subvolume root, while one checked against or
//! produced by the boundary is confirmed.

use vstd::prelude::*;

verus! {

/// A subvolume path together with whether it was verified against the
/// boundary or merely assumed from constructor input.
#[derive(Debug)]
pub enum SubvolumePath {
    /// A path assumed from caller input, not verified against the boundary.
    NotConfirmed(Vec<u8>),
    /// A path verified against or produced by the boundary.
    Confirmed(Vec<u8>),
}

impl SubvolumePath {
    /// The raw path bytes, whatever the trust level.
    pub open spec fn bytes_spec(self) -> Seq<u8> {
        match self {
            SubvolumePath::NotConfirmed(p) => p@,
            SubvolumePath::Confirmed(p) => p@,
        }
    }

    /// Whether the path was verified against the boundary.
    pub open spec fn is_confirmed_spec(self) -> bool {
        self is Confirmed
    }

    /// The raw path bytes, whatever the trust level.
    pub fn bytes(&self) -> (r: &Vec<u8>)
        ensures
            r@ == self.bytes_spec(),
    {
        match self {
            SubvolumePath::NotConfirmed(p) => p,
            SubvolumePath::Confirmed(p) => p,
        }
    }

    /// Whether the path was verified against the boundary.
    pub fn is_confirmed(&self) -> (r: bool)
        ensures
            r == self.is_confirmed_spec(),
    {
        match self {
            SubvolumePath::NotConfirmed(_) => false,
            SubvolumePath::Confirmed(_) => true,
        }
    }
}

impl Clone for SubvolumePath {
    /// Cloning keeps the path bytes and the trust level.
    fn clone(&self) -> (r: Self)
        ensures
            r.bytes_spec() == self.bytes_spec(),
            r.is_confirmed_spec() == self.is_confirmed_spec(),
    {
        match self {
            SubvolumePath::NotConfirmed(p) => SubvolumePath::NotConfirmed(p.clone()),
            SubvolumePath::Confirmed(p) => SubvolumePath::Confirmed(p.clone()),
        }
    }
}

} // verus!
