//! A pool of reusable numeric resources (VLAN ids, VNIs): values are
//! acquired on creation and must be released on deletion.

use vstd::prelude::*;

verus! {

/// A pool of free values of one resource.
#[derive(Debug)]
pub struct ResourcePool {
    pub free: Vec<i64>,
}

impl ResourcePool {
    pub fn new() -> (r: ResourcePool)
        ensures
            r.free@.len() == 0,
    {
        ResourcePool { free: Vec::new() }
    }

    /// Hand a value back to the pool.
    pub fn release(&mut self, value: i64)
        ensures
            final(self).free@ == old(self).free@.push(value),
    {
        self.free.push(value);
    }

    /// Take the lowest-index free value, if any.
    pub fn acquire(&mut self) -> (r: Option<i64>)
        ensures
            match r {
                Some(v) => old(self).free@.len() > 0 && v == old(self).free@[0] && final(self).free@
                    == old(self).free@.drop_first(),
                None => old(self).free@.len() == 0 && *final(self) == *old(self),
            },
    {
        if self.free.len() == 0 {
            None
        } else {
            let v = self.free.remove(0);
            proof {
                assert(self.free@ =~= old(self).free@.drop_first());
            }
            Some(v)
        }
    }
}

} // verus!
