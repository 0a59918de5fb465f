//! The disks available for mounting, by index.
use vstd::prelude::*;

verus! {

pub struct DiskManager<D> {
    disks: Vec<D>,
}

impl<D> DiskManager<D> {
    pub closed spec fn view(&self) -> Seq<D> {
        self.disks@
    }

    pub fn new() -> (m: DiskManager<D>)
        ensures
            m@ == Seq::<D>::empty(),
    {
        DiskManager { disks: Vec::new() }
    }

    /// Adds a disk; it gets the next index.
    pub fn add_disk(&mut self, disk: D)
        ensures
            final(self)@ == old(self)@.push(disk),
    {
        self.disks.push(disk);
    }

    /// The disk at `index`, if there is one.
    pub fn get_disk(&mut self, index: usize) -> (r: Option<&mut D>)
        ensures
            r is Some <==> index < old(self)@.len(),
            r is None ==> final(self)@ == old(self)@,
            r matches Some(d) ==> *d == old(self)@[index as int]
                && final(self)@ == old(self)@.update(index as int, *final(d)),
    {
        if index < self.disks.len() {
            Some(&mut self.disks[index])
        } else {
            None
        }
    }

    pub fn count(&self) -> (r: usize)
        ensures
            r == self@.len(),
    {
        self.disks.len()
    }
}

/// A disk added to the manager is the one found at the index that `count`
/// gave just before, and the disks already there keep their indices.
pub proof fn lemma_added_disk_found<D>(before: DiskManager<D>, after: DiskManager<D>, disk: D)
    requires
        after@ == before@.push(disk),
    ensures
        after@.len() == before@.len() + 1,
        after@[before@.len() as int] == disk,
        forall|i: int| 0 <= i < before@.len() ==> #[trigger] after@[i] == before@[i],
{
}

impl<D> Default for DiskManager<D> {
    fn default() -> (m: Self)
        ensures
            m@ == Seq::<D>::empty(),
    {
        Self::new()
    }
}

} // verus!
