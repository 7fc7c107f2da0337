//! Quota-group inheritance specifiers.
//!
//! A specifier describes which quota groups a new subvolume's usage should
//! count against. It is a builder: it starts empty and accumulates group ids.
//! The boundary-side resource it describes is allocated only at the call that
//! consumes it, so the value here is plain owned data and can never leak.

use vstd::prelude::*;

use crate::error::BtrfsUtilError;

verus! {

/// Quota group inheritance specifier: the ordered group ids a new subvolume
/// inherits from.
#[derive(Clone, Debug)]
pub struct QgroupInherit {
    groups: Vec<u64>,
}

impl QgroupInherit {
    /// The group ids this specifier holds, in insertion order.
    pub closed spec fn view(self) -> Seq<u64> {
        self.groups@
    }

    /// Create an empty quota group inheritance specifier.
    pub fn create() -> (r: Result<QgroupInherit, BtrfsUtilError>)
        ensures
            r matches Ok(q) && q@ == Seq::<u64>::empty(),
    {
        let q = QgroupInherit { groups: Vec::new() };
        assert(q@ =~= Seq::<u64>::empty());
        Ok(q)
    }

    /// Add inheritance from a quota group to this specifier.
    pub fn add(&mut self, qgroup_id: u64) -> (r: Result<(), BtrfsUtilError>)
        ensures
            r matches Ok(u) && u == (),
            final(self)@ == old(self)@.push(qgroup_id),
    {
        self.groups.push(qgroup_id);
        Ok(())
    }

    /// The quota group ids contained by this specifier, in the order they
    /// were added; an empty list if none were.
    pub fn get_groups(&self) -> (r: Result<Vec<u64>, BtrfsUtilError>)
        ensures
            r matches Ok(v) && v@ == self@,
    {
        let v = self.groups.clone();
        assert(v@ =~= self.groups@);
        Ok(v)
    }
}

} // verus!
