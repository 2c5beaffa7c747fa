use vstd::prelude::*;
use std::sync::atomic::AtomicBool;
use std::sync::atomic::Ordering;
use std::sync::Arc;

verus! {

/// The writing side of an on/off switch that is shared without a lock.
///
/// The switch is one atomic cell. This side alone stores into it, with
/// release ordering, and keeps a record of what it stored last: so it knows
/// the position of the switch without asking the cell. Readers load the cell
/// with relaxed ordering and see a stored position eventually.
pub struct WatchFlag {
    value: bool,
    shared: Arc<AtomicBool>,
}

/// A reading side of a [`WatchFlag`].
pub struct FlagReader {
    shared: Arc<AtomicBool>,
}

/// `Arc::clone` on the shared cell: one more handle to the same cell. The
/// new handle points to the allocation that the given one points to, and so
/// to the same cell: that is all that is claimed of it.
#[verifier::external_body]
fn share_cell(cell: &Arc<AtomicBool>) -> (other: Arc<AtomicBool>)
    ensures
        other == *cell,
{
    Arc::clone(cell)
}

impl WatchFlag {
    /// The position of the switch.
    pub closed spec fn value(&self) -> bool {
        self.value
    }

    /// The cell that this side stores into.
    pub closed spec fn cell(&self) -> Arc<AtomicBool> {
        self.shared
    }

    /// A switch in the given position.
    pub fn new(value: bool) -> (flag: WatchFlag)
        ensures
            flag.value() == value,
    {
        WatchFlag { value, shared: Arc::new(AtomicBool::new(value)) }
    }

    /// Puts the switch in the given position. The cell stays the one that
    /// the readers of this switch load.
    pub fn set(&mut self, value: bool)
        ensures
            final(self).value() == value,
            final(self).cell() == old(self).cell(),
    {
        self.shared.store(value, Ordering::Release);
        self.value = value;
    }

    /// The position of the switch.
    pub fn get(&self) -> (value: bool)
        ensures
            value == self.value(),
    {
        self.value
    }

    /// A reading side of this switch: it loads the cell that this side
    /// stores into.
    pub fn reader(&self) -> (reader: FlagReader)
        ensures
            reader.cell() == self.cell(),
    {
        FlagReader { shared: share_cell(&self.shared) }
    }
}

impl FlagReader {
    /// The cell that this side loads.
    pub closed spec fn cell(&self) -> Arc<AtomicBool> {
        self.shared
    }

    /// A position that the switch had at some moment up to now. The writing
    /// side may move the switch at any time, so two reads may differ.
    pub fn read(&self) -> bool {
        self.shared.load(Ordering::Relaxed)
    }
}

} // verus!
