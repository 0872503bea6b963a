//! PCI devices and drivers.
//!
//! A driver declares the devices it supports in a table of signatures, each with an
//! optional piece of information of the driver's own. The bus authority matches a device
//! that it found against the table and hands the device and the matching entry to the
//! adapter, which calls the driver and keeps what the driver returns until the device is
//! removed.

use crate::driver::{DataSlots, DeviceRemoval};
use crate::error::{to_result, status_failed, Error};
use vstd::prelude::*;

verus! {

/// The value of a signature field that matches whatever the device reports.
pub const PCI_ANY_ID: u32 = 0xffff_ffff;

/// What a device reports of itself.
#[derive(Clone, Copy, Debug, PartialEq, Eq, Structural)]
pub struct Ident {
    /// Vendor ID
    pub vendor: u32,
    /// Device ID
    pub device: u32,
    /// Subsystem vendor ID
    pub subvendor: u32,
    /// Subsystem device ID
    pub subdevice: u32,
    /// Device class and subclass
    pub class: u32,
}

/// The signature of the devices that a driver supports.
#[derive(Clone, Copy)]
pub struct DeviceId {
    /// Vendor ID
    pub vendor: u32,
    /// Device ID
    pub device: u32,
    /// Subsystem vendor ID
    pub subvendor: u32,
    /// Subsystem device ID
    pub subdevice: u32,
    /// Device class and subclass
    pub class: u32,
    /// Limit which sub-fields of the class
    pub class_mask: u32,
}

/// Whether the signature field `field` accepts the reported value `reported`.
pub open spec fn field_accepts(field: u32, reported: u32) -> bool {
    field == PCI_ANY_ID || field == reported
}

impl DeviceId {
    /// The signature of one device of one vendor: the subsystem fields are wildcards and no
    /// bit of the class counts.
    pub open spec fn exact(vendor: u32, device: u32) -> DeviceId {
        DeviceId {
            vendor,
            device,
            subvendor: PCI_ANY_ID,
            subdevice: PCI_ANY_ID,
            class: 0,
            class_mask: 0,
        }
    }

    /// The signature of the devices of a class: the four ID fields are wildcards.
    pub open spec fn class_range(class: u32, class_mask: u32) -> DeviceId {
        DeviceId {
            vendor: PCI_ANY_ID,
            device: PCI_ANY_ID,
            subvendor: PCI_ANY_ID,
            subdevice: PCI_ANY_ID,
            class,
            class_mask,
        }
    }

    /// A signature for one device of one vendor, whatever its subsystem and class.
    pub fn new(vendor: u32, device: u32) -> (id: Self)
        ensures
            id == Self::exact(vendor, device),
    {
        Self {
            vendor,
            device,
            subvendor: PCI_ANY_ID,
            subdevice: PCI_ANY_ID,
            class: 0,
            class_mask: 0,
        }
    }

    /// A signature for the devices of a class, whatever their vendor. Of the class only the
    /// bits under `class_mask` count.
    pub fn with_class(class: u32, class_mask: u32) -> (id: Self)
        ensures
            id == Self::class_range(class, class_mask),
    {
        Self {
            vendor: PCI_ANY_ID,
            device: PCI_ANY_ID,
            subvendor: PCI_ANY_ID,
            subdevice: PCI_ANY_ID,
            class,
            class_mask,
        }
    }

    /// Whether a device that reports `dev` is one of those that the signature stands for:
    /// each of the four ID fields accepts what the device reports, and the class agrees
    /// with the reported one in the bits under the mask.
    pub open spec fn accepts(self, dev: Ident) -> bool {
        &&& field_accepts(self.vendor, dev.vendor)
        &&& field_accepts(self.device, dev.device)
        &&& field_accepts(self.subvendor, dev.subvendor)
        &&& field_accepts(self.subdevice, dev.subdevice)
        &&& dev.class & self.class_mask == self.class & self.class_mask
    }

    /// Matches the signature against what a device reports.
    pub fn matches(&self, dev: &Ident) -> (r: bool)
        ensures
            r == self.accepts(*dev),
    {
        (self.vendor == PCI_ANY_ID || self.vendor == dev.vendor) && (self.device == PCI_ANY_ID
            || self.device == dev.device) && (self.subvendor == PCI_ANY_ID || self.subvendor
            == dev.subvendor) && (self.subdevice == PCI_ANY_ID || self.subdevice == dev.subdevice)
            && (dev.class & self.class_mask) == (self.class & self.class_mask)
    }

    /// The table entry that holds this signature and records `place` as the place of its
    /// information.
    pub open spec fn entry(self, place: usize) -> RawDeviceId {
        RawDeviceId {
            vendor: self.vendor,
            device: self.device,
            subvendor: self.subvendor,
            subdevice: self.subdevice,
            class: self.class,
            class_mask: self.class_mask,
            driver_data: place,
            override_only: 0,
        }
    }

    /// The table entry for this signature, with `offset` recorded as the place of the entry's
    /// information. A negative offset is recorded as the unsigned number with the same bits.
    pub fn to_rawid(&self, offset: isize) -> (raw: RawDeviceId)
        ensures
            raw == self.entry(offset as usize),
    {
        RawDeviceId {
            vendor: self.vendor,
            device: self.device,
            subvendor: self.subvendor,
            subdevice: self.subdevice,
            class: self.class,
            class_mask: self.class_mask,
            driver_data: #[verifier::truncate] (offset as usize),
            override_only: 0,
        }
    }

    /// A class signature accepts a device if and only if the device's class agrees with the
    /// signature's in the bits under the mask.
    pub proof fn lemma_class_match(class: u32, class_mask: u32, dev: Ident)
        ensures
            Self::class_range(class, class_mask).accepts(dev) <==> dev.class & class_mask == class
                & class_mask,
    {
    }

    /// A signature for one device of one vendor, neither of them the wildcard, accepts a
    /// device if and only if the device reports that vendor and that device ID, whatever
    /// its subsystem and class.
    pub proof fn lemma_exact_match(vendor: u32, device: u32, dev: Ident)
        requires
            vendor != PCI_ANY_ID,
            device != PCI_ANY_ID,
        ensures
            Self::exact(vendor, device).accepts(dev) <==> dev.vendor == vendor && dev.device
                == device,
    {
        let c = dev.class;
        assert(c & 0 == 0u32 & 0) by (bit_vector);
    }
}

/// An entry of a signature table as the bus authority reads it.
#[derive(Clone, Copy, Debug, PartialEq, Eq, Structural)]
pub struct RawDeviceId {
    /// Vendor ID
    pub vendor: u32,
    /// Device ID
    pub device: u32,
    /// Subsystem vendor ID
    pub subvendor: u32,
    /// Subsystem device ID
    pub subdevice: u32,
    /// Device class and subclass
    pub class: u32,
    /// Limit which sub-fields of the class
    pub class_mask: u32,
    /// Where the information of this entry lies
    pub driver_data: usize,
    /// Not used by this bus
    pub override_only: u32,
}

impl RawDeviceId {
    /// The signature that the entry holds.
    pub open spec fn signature(self) -> DeviceId {
        DeviceId {
            vendor: self.vendor,
            device: self.device,
            subvendor: self.subvendor,
            subdevice: self.subdevice,
            class: self.class,
            class_mask: self.class_mask,
        }
    }

    /// The entry that ends a table: every field is zero.
    pub open spec fn spec_zero() -> RawDeviceId {
        RawDeviceId {
            vendor: 0,
            device: 0,
            subvendor: 0,
            subdevice: 0,
            class: 0,
            class_mask: 0,
            driver_data: 0,
            override_only: 0,
        }
    }

    /// The entry that ends a table.
    #[verifier::when_used_as_spec(spec_zero)]
    pub fn zero() -> (raw: RawDeviceId)
        ensures
            raw == Self::spec_zero(),
    {
        RawDeviceId {
            vendor: 0,
            device: 0,
            subvendor: 0,
            subdevice: 0,
            class: 0,
            class_mask: 0,
            driver_data: 0,
            override_only: 0,
        }
    }

    /// The signature that the entry holds.
    pub fn id(&self) -> (id: DeviceId)
        ensures
            id == self.signature(),
    {
        DeviceId {
            vendor: self.vendor,
            device: self.device,
            subvendor: self.subvendor,
            subdevice: self.subdevice,
            class: self.class,
            class_mask: self.class_mask,
        }
    }
}

/// The signatures that a driver supports, in the driver's order, each with the information
/// that the driver keeps for it, if any.
///
/// The entries stand in one row, closed by an entry of zeros at which the bus authority's
/// scan ends. The information stands in a row of its own, and each entry records where in
/// that row its own lies.
pub struct IdTable<U> {
    ids: Vec<RawDeviceId>,
    infos: Vec<Option<U>>,
}

impl<U> IdTable<U> {
    /// The row of entries, the closing one included.
    pub closed spec fn entries(self) -> Seq<RawDeviceId> {
        self.ids@
    }

    /// The row of information.
    pub closed spec fn infos(self) -> Seq<Option<U>> {
        self.infos@
    }

    /// The row of entries has one place more than the row of information, its last entry is
    /// all zeros, and every other entry records its own place.
    #[verifier::type_invariant]
    pub open spec fn wf(self) -> bool {
        &&& self.entries().len() == self.infos().len() + 1
        &&& self.entries().last() == RawDeviceId::zero()
        &&& forall|i: int|
            0 <= i < self.infos().len() ==> (#[trigger] self.entries()[i]).driver_data == i
    }

    /// The number of signatures.
    pub open spec fn spec_len(self) -> nat {
        self.infos().len()
    }

    /// The information that lies at `offset`.
    pub open spec fn resolve(self, offset: usize) -> Option<U>
        recommends
            offset < self.spec_len(),
    {
        self.infos()[offset as int]
    }

    /// Whether the signature at index `i` accepts `dev`.
    pub open spec fn matches_at(self, i: int, dev: Ident) -> bool {
        0 <= i < self.spec_len() && self.entries()[i].signature().accepts(dev)
    }

    /// Builds the table of the given signatures, each with its information: the entry at
    /// `i` holds the signature at `i` and records `i`, and the place `i` of the row of
    /// information holds the information at `i`. So each entry resolves to its own
    /// information, and to `None` where the driver gave none.
    pub fn new(pairs: Vec<(DeviceId, Option<U>)>) -> (t: Self)
        ensures
            t.wf(),
            t.spec_len() == pairs.len(),
            forall|i: int|
                0 <= i < pairs.len() ==> #[trigger] t.entries()[i] == pairs[i].0.entry(i as usize),
            forall|i: int| 0 <= i < pairs.len() ==> #[trigger] t.infos()[i] == pairs[i].1,
            forall|i: int|
                0 <= i < pairs.len() ==> t.resolve((#[trigger] t.entries()[i]).driver_data)
                    == pairs[i].1,
    {
        let mut ids: Vec<RawDeviceId> = Vec::new();
        let mut infos: Vec<Option<U>> = Vec::new();
        let ghost all = pairs@;
        for pair in it: pairs
            invariant
                it.seq() == all,
                ids.len() == it.index(),
                infos.len() == it.index(),
                forall|i: int| 0 <= i < ids.len() ==> #[trigger] ids[i] == all[i].0.entry(i as usize),
                forall|i: int| 0 <= i < infos.len() ==> #[trigger] infos[i] == all[i].1,
        {
            let (id, info) = pair;
            let place: usize = ids.len();
            let offset: isize = #[verifier::truncate] (place as isize);
            assert((place as isize) as usize == place) by (bit_vector);
            ids.push(id.to_rawid(offset));
            infos.push(info);
        }
        ids.push(RawDeviceId::zero());
        IdTable { ids, infos }
    }

    /// The number of signatures.
    pub fn len(&self) -> (n: usize)
        ensures
            n == self.spec_len(),
    {
        self.infos.len()
    }

    /// The entries as the bus authority scans them: the signatures in their order, then the
    /// entry of zeros.
    pub fn raw_ids(&self) -> (ids: &Vec<RawDeviceId>)
        ensures
            ids@ == self.entries(),
            self.wf(),
    {
        proof {
            use_type_invariant(self);
        }
        &self.ids
    }

    /// The entry at `index`.
    pub fn entry(&self, index: usize) -> (id: RawDeviceId)
        requires
            index < self.spec_len(),
        ensures
            id == self.entries()[index as int],
            id.driver_data == index,
    {
        proof {
            use_type_invariant(self);
        }
        self.ids[index]
    }

    /// The information that an entry of this table stands for, found by the place that the
    /// entry records: `None` where the driver gave the signature none.
    pub fn info(&self, id: &RawDeviceId) -> (info: Option<&U>)
        requires
            id.driver_data < self.spec_len(),
        ensures
            info.is_some() == self.resolve(id.driver_data).is_some(),
            info matches Some(u) ==> self.resolve(id.driver_data) == Some(*u),
    {
        self.infos[id.driver_data].as_ref()
    }

    /// Scans the signatures in their order for the first that accepts `dev`.
    pub fn find(&self, dev: &Ident) -> (found: Option<usize>)
        ensures
            match found {
                Some(i) => self.matches_at(i as int, *dev) && forall|j: int|
                    0 <= j < i ==> !self.matches_at(j, *dev),
                None => forall|j: int| !self.matches_at(j, *dev),
            },
    {
        proof {
            use_type_invariant(self);
        }
        let n = self.infos.len();
        let mut i: usize = 0;
        while i < n
            invariant
                self.wf(),
                n == self.spec_len(),
                i <= n,
                forall|j: int| 0 <= j < i ==> !self.matches_at(j, *dev),
            decreases n - i,
        {
            if self.ids[i].id().matches(dev) {
                return Some(i);
            }
            i += 1;
        }
        None
    }

    /// Each entry of a table records the place of its own information: resolving the place
    /// that the entry at `i` records gives the information at `i`.
    pub proof fn lemma_resolve_entry(self, i: int)
        requires
            self.wf(),
            0 <= i < self.spec_len(),
        ensures
            self.resolve(self.entries()[i].driver_data) == self.infos()[i],
    {
    }
}

/// The state that the bus authority keeps of a device.
pub struct DeviceState {
    /// The address of the device on the bus, by which it is told from the others.
    pub addr: u64,
    /// What the device reports of itself.
    pub ident: Ident,
    /// The legacy interrupt line.
    pub irq: u32,
    /// The status with which the bus authority answers a request to enable the device.
    pub enable_status: i32,
    /// Whether the device has been enabled.
    pub enabled: bool,
    /// Whether bus-mastering has been switched on.
    pub bus_master: bool,
}

/// A PCI device.
pub struct Device {
    addr: u64,
    ident: Ident,
    irq: u32,
    enable_status: i32,
    enabled: bool,
    bus_master: bool,
}

impl View for Device {
    type V = DeviceState;

    closed spec fn view(&self) -> DeviceState {
        DeviceState {
            addr: self.addr,
            ident: self.ident,
            irq: self.irq,
            enable_status: self.enable_status,
            enabled: self.enabled,
            bus_master: self.bus_master,
        }
    }
}

impl Device {
    /// A device as the bus authority found it: neither enabled nor a bus master.
    pub fn new(addr: u64, ident: Ident, irq: u32, enable_status: i32) -> (dev: Self)
        ensures
            dev@ == (DeviceState {
                addr,
                ident,
                irq,
                enable_status,
                enabled: false,
                bus_master: false,
            }),
    {
        Device { addr, ident, irq, enable_status, enabled: false, bus_master: false }
    }

    /// The address of the device on the bus.
    pub fn addr(&self) -> (addr: u64)
        ensures
            addr == self@.addr,
    {
        self.addr
    }

    /// What the device reports of itself.
    pub fn ident(&self) -> (ident: Ident)
        ensures
            ident == self@.ident,
    {
        self.ident
    }

    /// Whether the device has been enabled.
    pub fn is_enabled(&self) -> (enabled: bool)
        ensures
            enabled == self@.enabled,
    {
        self.enabled
    }

    /// Whether bus-mastering has been switched on.
    pub fn is_master(&self) -> (master: bool)
        ensures
            master == self@.bus_master,
    {
        self.bus_master
    }

    /// enables bus-mastering for device
    pub fn set_master(&mut self)
        ensures
            final(self)@ == (DeviceState { bus_master: true, ..old(self)@ }),
    {
        self.bus_master = true;
    }

    /// get legacy irq number
    pub fn irq(&self) -> (irq: u32)
        ensures
            irq == self@.irq,
    {
        self.irq
    }

    /// Initialize device
    pub fn enable_device(&mut self) -> (r: Result<(), Error>)
        ensures
            old(self)@.enable_status == 0 ==> r is Ok && final(self)@ == (DeviceState {
                enabled: true,
                ..old(self)@
            }),
            old(self)@.enable_status != 0 ==> final(self)@ == old(self)@,
            old(self)@.enable_status != 0 ==> (r matches Err(e) && e.code() == Error::code_of(
                old(self)@.enable_status,
            )),
    {
        let ret = self.enable_status;
        if ret != 0 {
            Err(Error::from_errno(ret))
        } else {
            self.enabled = true;
            Ok(())
        }
    }
}

/// A PCI driver
pub trait Driver {
    /// Data stored on device by driver.
    ///
    /// It lives in the device's slot from the end of a successful probe to the removal of
    /// the device.
    type Data: Send + Sync + DeviceRemoval;

    /// The type holding information about each device id supported by the driver.
    type IdInfo: 'static;

    /// The table of device ids supported by the driver.
    fn id_table() -> IdTable<Self::IdInfo>;

    /// PCI driver probe.
    ///
    /// Called when a new platform device is added or discovered.
    /// Implementers should attempt to initialize the device here.
    fn probe(dev: &mut Device, id: Option<&Self::IdInfo>) -> Result<Self::Data, Error>;

    /// PCI driver remove.
    ///
    /// Called when a platform device is removed.
    /// Implementers should prepare the device for complete removal here.
    fn remove(data: &Self::Data);
}

/// An adapter for the registration of PCI drivers.
pub struct Adapter<T: Driver> {
    name: &'static str,
    table: IdTable<T::IdInfo>,
    registered: bool,
}

/// The status that the bus authority gets for the outcome of a probe: zero for success,
/// the error's code for a failure.
pub open spec fn probe_status<D>(outcome: Result<D, Error>) -> int {
    match outcome {
        Ok(_) => 0,
        Err(e) => e.code(),
    }
}

/// The slots after a probe of the device at `addr`: the data of a successful probe fills
/// the device's slot, a failed probe leaves every slot as it was.
pub open spec fn probe_slots<D>(slots: Map<u64, D>, addr: u64, outcome: Result<D, Error>) -> Map<
    u64,
    D,
> {
    match outcome {
        Ok(data) => slots.insert(addr, data),
        Err(_) => slots,
    }
}

/// Probes of two different devices do not touch each other's slot: in whichever order the
/// two end, the slots are the same.
pub proof fn lemma_probes_independent<D>(
    slots: Map<u64, D>,
    a: u64,
    for_a: Result<D, Error>,
    b: u64,
    for_b: Result<D, Error>,
)
    requires
        a != b,
    ensures
        probe_slots(probe_slots(slots, a, for_a), b, for_b) == probe_slots(
            probe_slots(slots, b, for_b),
            a,
            for_a,
        ),
        probe_slots(slots, a, for_a).contains_key(b) == slots.contains_key(b),
        slots.contains_key(b) ==> probe_slots(slots, a, for_a)[b] == slots[b],
{
    assert(probe_slots(probe_slots(slots, a, for_a), b, for_b) =~= probe_slots(
        probe_slots(slots, b, for_b),
        a,
        for_a,
    ));
}

/// A failed probe sets no slot, and its status is not the status of success.
pub proof fn lemma_failed_probe<D>(slots: Map<u64, D>, addr: u64, e: Error)
    requires
        e.code() < 0,
    ensures
        probe_slots(slots, addr, Err::<D, Error>(e)) == slots,
        probe_status(Err::<D, Error>(e)) != 0,
{
}

/// Removing a device after a successful probe leaves the slots as they were before the
/// probe, and hands back the data that the probe stored.
pub proof fn lemma_probe_then_remove<D>(slots: Map<u64, D>, addr: u64, data: D)
    requires
        !slots.contains_key(addr),
    ensures
        probe_slots(slots, addr, Ok(data))[addr] == data,
        probe_slots(slots, addr, Ok(data)).remove(addr) == slots,
{
    assert(probe_slots(slots, addr, Ok(data)).remove(addr) =~= slots);
}

impl<T: Driver> Adapter<T> {
    /// The name under which the driver registers.
    pub closed spec fn spec_name(self) -> Seq<char> {
        self.name@
    }

    /// The driver's table of signatures.
    pub closed spec fn spec_table(self) -> IdTable<T::IdInfo> {
        self.table
    }

    /// Whether the bus authority has accepted the registration and not been told of its end.
    pub closed spec fn spec_registered(self) -> bool {
        self.registered
    }

    /// Makes the record that is handed to the bus authority: the driver's name and its
    /// table of signatures. The record is not registered yet.
    pub fn new(name: &'static str) -> (adapter: Self)
        ensures
            adapter.spec_name() == name@,
            adapter.spec_table().wf(),
            !adapter.spec_registered(),
    {
        let table = T::id_table();
        proof {
            use_type_invariant(&table);
        }
        Adapter { name, table, registered: false }
    }

    /// The name under which the driver registers.
    pub fn name(&self) -> (name: &'static str)
        ensures
            name@ == self.spec_name(),
    {
        self.name
    }

    /// The driver's table of signatures.
    pub fn id_table(&self) -> (table: &IdTable<T::IdInfo>)
        ensures
            *table == self.spec_table(),
            table.wf(),
    {
        proof {
            use_type_invariant(&self.table);
        }
        &self.table
    }

    /// Whether the bus authority has accepted the registration and not been told of its end.
    pub fn is_registered(&self) -> (registered: bool)
        ensures
            registered == self.spec_registered(),
    {
        self.registered
    }

    /// Takes the bus authority's answer to the registration of this record. A negative
    /// status is a refusal and comes back as the error; with any other the record is
    /// registered.
    pub fn register(&mut self, status: i32) -> (r: Result<(), Error>)
        ensures
            final(self).spec_name() == old(self).spec_name(),
            final(self).spec_table() == old(self).spec_table(),
            status_failed(status) ==> *final(self) == *old(self),
            !status_failed(status) ==> final(self).spec_registered(),
            status_failed(status) <==> r is Err,
            r matches Err(e) ==> e.code() == status,
    {
        let r = to_result(status);
        if r.is_ok() {
            self.registered = true;
        }
        r
    }

    /// Ends the registration of a record that the bus authority had accepted.
    pub fn unregister(&mut self)
        requires
            old(self).spec_registered(),
        ensures
            final(self).spec_name() == old(self).spec_name(),
            final(self).spec_table() == old(self).spec_table(),
            !final(self).spec_registered(),
    {
        if !self.registered {
            vstd::pervasive::unreached::<()>()
        }
        self.registered = false;
    }

    /// Ends a probe of the device at `addr` with what the driver returned: the data of a
    /// successful probe goes into the device's slot and the status is zero, a failure
    /// leaves the slots alone and gives its code as the status.
    pub fn finish_probe(
        slots: &mut DataSlots<T::Data>,
        addr: u64,
        outcome: Result<T::Data, Error>,
    ) -> (status: i32)
        requires
            !old(slots)@.contains_key(addr),
        ensures
            status == probe_status(outcome),
            final(slots)@ == probe_slots(old(slots)@, addr, outcome),
            outcome is Ok <==> status == 0,
            outcome is Err <==> status < 0,
    {
        match outcome {
            Ok(data) => {
                slots.set(addr, data);
                0
            },
            Err(e) => e.to_errno(),
        }
    }

    /// Called by the bus authority for a device that it matched against the entry at
    /// `index` of the driver's table. Probes the device with the information of that entry
    /// and, if the driver takes the device, keeps the driver's data in the device's slot.
    pub fn probe_callback(
        &self,
        slots: &mut DataSlots<T::Data>,
        dev: &mut Device,
        index: usize,
    ) -> (status: i32)
        requires
            index < self.spec_table().spec_len(),
            !old(slots)@.contains_key(old(dev)@.addr),
        ensures
            status <= 0,
            status == 0 ==> final(slots)@.contains_key(old(dev)@.addr) && final(slots)@.remove(
                old(dev)@.addr,
            ) == old(slots)@,
            status < 0 ==> final(slots)@ == old(slots)@,
    {
        let addr = dev.addr;
        let id = self.table.entry(index);
        let info = self.table.info(&id);
        let outcome = T::probe(dev, info);
        let status = Self::finish_probe(slots, addr, outcome);
        proof {
            if status == 0 {
                assert(final(slots)@.remove(addr) =~= old(slots)@);
            }
        }
        status
    }

    /// Called by the bus authority for a device that goes away. Takes the driver's data out
    /// of the device's slot, lets the driver tear the device down, tells the data that the
    /// device is gone and gives the data up.
    pub fn remove_callback(slots: &mut DataSlots<T::Data>, dev: &Device)
        requires
            old(slots)@.contains_key(dev@.addr),
        ensures
            final(slots)@ == old(slots)@.remove(dev@.addr),
    {
        let data = slots.take(dev.addr);
        T::remove(&data);
        data.device_remove();
    }
}

} // verus!
