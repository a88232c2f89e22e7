use vstd::prelude::*;

verus! {

/// Schema version of the persisted collections: major, minor and patch.
/// The patch component salts the storage namespace and grows on every reset.
#[derive(Clone, Copy, Debug, PartialEq, Eq, Structural)]
pub struct Version(pub u32, pub u32, pub u32);

impl Version {
    /// Advances the patch component by one; major and minor stay.
    pub fn inc(&mut self)
        requires
            old(self).2 < u32::MAX,
        ensures
            final(self).0 == old(self).0,
            final(self).1 == old(self).1,
            final(self).2 == old(self).2 + 1,
    {
        self.2 += 1;
    }
}

} // verus!
