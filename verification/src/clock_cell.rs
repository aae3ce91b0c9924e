//! The write-once cell that hands the startup clock configuration to the
//! tasks that need it during their setup.

use vstd::prelude::*;

verus! {

/// Holder of the clock configuration.
///
/// The startup routine fills it once, before any task is spawned; the tasks
/// only borrow what it holds. The firmware keeps the cell behind its
/// executor's mutex, so a borrow of the cell is exclusive access to it.
pub enum ClockCell<C> {
    /// Nothing has been stored yet.
    Uninitialized,
    /// The configuration stored by the startup routine.
    Ready(C),
}

impl<C> ClockCell<C> {
    /// What the cell holds: `None` until it has been initialized.
    pub open spec fn stored(self) -> Option<C> {
        match self {
            ClockCell::Uninitialized => None,
            ClockCell::Ready(config) => Some(config),
        }
    }

    /// The cell after `config` has been stored in it.
    pub open spec fn initialized_with(self, config: C) -> Self {
        ClockCell::Ready(config)
    }

    /// An empty cell.
    pub fn new() -> (cell: Self)
        ensures
            cell == ClockCell::<C>::Uninitialized,
            cell.stored().is_none(),
    {
        ClockCell::Uninitialized
    }

    /// Stores `config`, replacing whatever the cell held.
    pub fn initialize(&mut self, config: C)
        ensures
            *final(self) == old(self).initialized_with(config),
            final(self).stored() == Some(config),
    {
        *self = ClockCell::Ready(config);
    }

    /// Whether a configuration has been stored.
    pub fn is_ready(&self) -> (ready: bool)
        ensures
            ready == self.stored().is_some(),
    {
        match self {
            ClockCell::Uninitialized => false,
            ClockCell::Ready(_) => true,
        }
    }

    /// Borrows the stored configuration, or reports that there is none.
    pub fn get(&self) -> (config: Option<&C>)
        ensures
            config.is_some() == self.stored().is_some(),
            config matches Some(c) ==> self.stored() == Some(*c),
    {
        match self {
            ClockCell::Uninitialized => None,
            ClockCell::Ready(config) => Some(config),
        }
    }

    /// Applies `f` to the stored configuration and returns what `f` returns.
    ///
    /// Reading an empty cell is a programming error: no task may run before
    /// the startup routine has initialized the cell.
    pub fn with_clock<R, F: FnOnce(&C) -> R>(&self, f: F) -> (result: R)
        requires
            self.stored().is_some(),
            f.requires((&self.stored().unwrap(),)),
        ensures
            f.ensures((&self.stored().unwrap(),), result),
    {
        match self {
            ClockCell::Ready(config) => f(config),
            ClockCell::Uninitialized => unreached(),
        }
    }
}

/// A cell reads as empty until it is written, and after a write every read
/// sees the written configuration, whatever the cell held before.
pub proof fn lemma_read_after_write<C>(before: ClockCell<C>, config: C)
    ensures
        ClockCell::<C>::Uninitialized.stored() == None::<C>,
        before.initialized_with(config).stored() == Some(config),
{
}

} // verus!
