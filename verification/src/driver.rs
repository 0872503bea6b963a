//! What every driver shares, whatever its bus: the hook that its private data offers for
//! the removal of a device, and the store that keeps such data while a device is bound.

use std::collections::HashMap;
use vstd::prelude::*;

verus! {

broadcast use vstd::std_specs::hash::group_hash_axioms;

/// Data that is told when its device goes away, before the last reference to it is given
/// up.
pub trait DeviceRemoval {
    /// Called once, after the driver's own `remove`. The data may wake whoever still waits
    /// on the device here.
    fn device_remove(&self);
}

/// The private data of the bound devices: one slot for each device, found by the device's
/// address on the bus. A slot is filled when a probe succeeds and emptied when the device
/// is removed.
pub struct DataSlots<D> {
    slots: HashMap<u64, D>,
}

impl<D> View for DataSlots<D> {
    type V = Map<u64, D>;

    /// The filled slots, by device address.
    closed spec fn view(&self) -> Map<u64, D> {
        self.slots@
    }
}

impl<D> DataSlots<D> {
    /// A store in which no slot is filled.
    pub fn new() -> (r: Self)
        ensures
            r@ == Map::<u64, D>::empty(),
    {
        DataSlots { slots: HashMap::new() }
    }

    /// Whether the slot of the device at `addr` is filled.
    pub fn is_bound(&self, addr: u64) -> (r: bool)
        ensures
            r == self@.contains_key(addr),
    {
        self.slots.contains_key(&addr)
    }

    /// The data in the slot of the device at `addr`, if it is filled.
    pub fn get(&self, addr: u64) -> (r: Option<&D>)
        ensures
            r == (if self@.contains_key(addr) {
                Some(&self@[addr])
            } else {
                None
            }),
    {
        self.slots.get(&addr)
    }

    /// Fills the slot of the device at `addr`, which must be empty: a device holds the data
    /// of one probe at a time.
    pub fn set(&mut self, addr: u64, data: D)
        requires
            !old(self)@.contains_key(addr),
        ensures
            final(self)@ == old(self)@.insert(addr, data),
    {
        let before = self.slots.insert(addr, data);
        if before.is_some() {
            vstd::pervasive::unreached::<()>()
        }
    }

    /// Empties the slot of the device at `addr`, which must be filled, and hands out what
    /// it held.
    pub fn take(&mut self, addr: u64) -> (data: D)
        requires
            old(self)@.contains_key(addr),
        ensures
            data == old(self)@[addr],
            final(self)@ == old(self)@.remove(addr),
    {
        self.slots.remove(&addr).unwrap()
    }
}

} // verus!
