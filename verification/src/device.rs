//! Finding supported devices among those that are attached. The caller
//! enumerates the bus; the library decides which devices count.

use crate::error::{RequestError, TransportFault};
use crate::session::{GoXLRUSB, SessionView, PID_GOXLR_FULL, PID_GOXLR_MINI, VID_GOXLR};
use vstd::prelude::*;

verus! {

/// Where a device sits. This is no open handle: the device may be gone
/// when the location is used.
#[derive(Clone, Copy, Debug, PartialEq, Eq, Structural)]
pub struct GoXLRDevice {
    /// Number of the bus.
    pub bus_number: u8,
    /// Address on that bus.
    pub address: u8,
}

/// The two identifiers of a device descriptor that tell what a device is.
#[derive(Clone, Copy, Debug, PartialEq, Eq, Structural)]
pub struct DeviceIdentity {
    /// Vendor identifier.
    pub vendor_id: u16,
    /// Product identifier.
    pub product_id: u16,
}

/// One device as the enumeration of the bus shows it.
#[derive(Clone, Copy, Debug)]
pub struct AttachedDevice {
    /// Number of the bus.
    pub bus_number: u8,
    /// Address on that bus.
    pub address: u8,
    /// What the descriptor says, or `None` where it could not be read.
    pub descriptor: Option<DeviceIdentity>,
}

impl DeviceIdentity {
    /// Whether the identifiers are those of one of the two supported
    /// hardware variants.
    pub open spec fn spec_is_goxlr(&self) -> bool {
        self.vendor_id == VID_GOXLR && (self.product_id == PID_GOXLR_FULL || self.product_id
            == PID_GOXLR_MINI)
    }

    /// Whether the identifiers are those of one of the two supported
    /// hardware variants.
    #[verifier::when_used_as_spec(spec_is_goxlr)]
    pub fn is_goxlr(&self) -> (b: bool)
        ensures
            b == self.spec_is_goxlr(),
    {
        self.vendor_id == VID_GOXLR && (self.product_id == PID_GOXLR_FULL || self.product_id
            == PID_GOXLR_MINI)
    }
}

impl AttachedDevice {
    /// Where the device sits.
    pub open spec fn spec_location(&self) -> GoXLRDevice {
        GoXLRDevice { bus_number: self.bus_number, address: self.address }
    }

    /// Where the device sits.
    #[verifier::when_used_as_spec(spec_location)]
    pub fn location(&self) -> (location: GoXLRDevice)
        ensures
            location == self.spec_location(),
    {
        GoXLRDevice { bus_number: self.bus_number, address: self.address }
    }

    /// Whether the descriptor could be read and names a supported device.
    pub open spec fn spec_is_supported(&self) -> bool {
        self.descriptor matches Some(identity) && identity.spec_is_goxlr()
    }

    /// Whether the descriptor could be read and names a supported device.
    #[verifier::when_used_as_spec(spec_is_supported)]
    pub fn is_supported(&self) -> (b: bool)
        ensures
            b == self.spec_is_supported(),
    {
        match self.descriptor {
            Some(identity) => identity.is_goxlr(),
            None => false,
        }
    }

    /// Whether the device sits at `location` and its descriptor could be
    /// read.
    pub open spec fn spec_answers_at(&self, location: GoXLRDevice) -> bool {
        self.bus_number == location.bus_number && self.address == location.address
            && self.descriptor is Some
    }
}

/// The devices that an enumeration brought: none where it failed.
pub open spec fn enumerated(
    enumeration: Result<Vec<AttachedDevice>, TransportFault>,
) -> Seq<AttachedDevice> {
    match enumeration {
        Ok(attached) => attached@,
        Err(_) => Seq::<AttachedDevice>::empty(),
    }
}

/// The locations of the supported devices among `attached`, in the order of
/// the enumeration.
pub open spec fn supported_locations(attached: Seq<AttachedDevice>) -> Seq<GoXLRDevice> {
    attached.filter(|d: AttachedDevice| d.spec_is_supported()).map_values(
        |d: AttachedDevice| d.spec_location(),
    )
}

/// Taking one more device into account appends its location if it is
/// supported and changes nothing otherwise.
pub proof fn lemma_supported_locations_push(attached: Seq<AttachedDevice>, next: AttachedDevice)
    ensures
        supported_locations(attached.push(next)) == if next.spec_is_supported() {
            supported_locations(attached).push(next.spec_location())
        } else {
            supported_locations(attached)
        },
{
    reveal(Seq::filter);
    let supported = |d: AttachedDevice| d.spec_is_supported();
    let location = |d: AttachedDevice| d.spec_location();
    assert(attached.push(next).drop_last() =~= attached);
    if next.spec_is_supported() {
        assert(attached.filter(supported).push(next).map_values(location) =~= attached.filter(
            supported,
        ).map_values(location).push(next.spec_location()));
    }
}

/// Lists the supported devices: every attached device whose descriptor
/// could be read and shows the known vendor and one of the two known
/// products, in the order of the enumeration. An enumeration that failed
/// counts as one that found nothing.
pub fn find_devices(enumeration: &Result<Vec<AttachedDevice>, TransportFault>) -> (found: Vec<
    GoXLRDevice,
>)
    ensures
        found@ == supported_locations(enumerated(*enumeration)),
{
    let mut found_devices: Vec<GoXLRDevice> = Vec::new();
    match enumeration {
        Err(_) => {
            proof {
                reveal(Seq::filter);
            }
            assert(found_devices@ =~= supported_locations(Seq::<AttachedDevice>::empty()));
        },
        Ok(attached) => {
            let mut i: usize = 0;
            proof {
                reveal(Seq::filter);
            }
            assert(attached@.subrange(0, 0) =~= Seq::<AttachedDevice>::empty());
            assert(found_devices@ =~= supported_locations(attached@.subrange(0, 0)));
            while i < attached.len()
                invariant
                    i <= attached@.len(),
                    found_devices@ == supported_locations(attached@.subrange(0, i as int)),
                decreases attached@.len() - i,
            {
                let device = attached[i];
                proof {
                    lemma_supported_locations_push(attached@.subrange(0, i as int), device);
                    assert(attached@.subrange(0, i as int).push(device) =~= attached@.subrange(
                        0,
                        i + 1,
                    ));
                }
                if device.is_supported() {
                    found_devices.push(device.location());
                }
                i += 1;
            }
            assert(attached@.subrange(0, i as int) =~= attached@);
        },
    }
    found_devices
}

/// Only supported devices are listed, and all of them. Every location in
/// the list is that of an attached device with the known vendor and one of
/// the two known products; every such device has its location in the list;
/// and the list is empty when no such device is attached.
pub proof fn lemma_only_supported_devices_are_found(attached: Seq<AttachedDevice>)
    ensures
        forall|j: int|
            0 <= j < supported_locations(attached).len() ==> exists|i: int|
                0 <= i < attached.len() && attached[i].spec_is_supported()
                    && attached[i].spec_location() == #[trigger] supported_locations(attached)[j],
        forall|i: int|
            0 <= i < attached.len() && (#[trigger] attached[i]).spec_is_supported()
                ==> supported_locations(attached).contains(attached[i].spec_location()),
        (forall|i: int| 0 <= i < attached.len() ==> !(#[trigger] attached[i]).spec_is_supported())
            ==> supported_locations(attached).len() == 0,
    decreases attached.len(),
{
    if attached.len() == 0 {
        reveal(Seq::filter);
        assert(supported_locations(attached).len() == 0);
    } else {
        let front = attached.drop_last();
        let last = attached.last();
        assert(front.push(last) =~= attached);
        lemma_only_supported_devices_are_found(front);
        lemma_supported_locations_push(front, last);
        let found = supported_locations(attached);
        let before = supported_locations(front);
        assert forall|j: int| 0 <= j < found.len() implies exists|i: int|
            0 <= i < attached.len() && attached[i].spec_is_supported()
                && attached[i].spec_location() == #[trigger] found[j] by {
            if j < before.len() {
                assert(found[j] == before[j]);
                let i = choose|i: int|
                    0 <= i < front.len() && front[i].spec_is_supported()
                        && front[i].spec_location() == before[j];
                assert(attached[i] == front[i]);
            } else {
                assert(attached[attached.len() - 1] == last);
            }
        }
        assert forall|i: int|
            0 <= i < attached.len() && (#[trigger] attached[i]).spec_is_supported() implies found.contains(
            attached[i].spec_location(),
        ) by {
            if i < front.len() {
                assert(front[i] == attached[i]);
                assert(before.contains(front[i].spec_location()));
                let j = choose|j: int| 0 <= j < before.len() && before[j] == front[i].spec_location();
                assert(found[j] == before[j]);
            } else {
                assert(found[found.len() - 1] == last.spec_location());
            }
        }
        if forall|i: int| 0 <= i < attached.len() ==> !(#[trigger] attached[i]).spec_is_supported() {
            assert(!attached[attached.len() - 1].spec_is_supported());
            assert forall|i: int| 0 <= i < front.len() implies !(#[trigger] front[i]).spec_is_supported() by {
                assert(front[i] == attached[i]);
            }
        }
    }
}

/// An enumeration that failed lists no device.
pub proof fn lemma_failed_enumeration_finds_nothing(fault: TransportFault)
    ensures
        supported_locations(enumerated(Err(fault))).len() == 0,
{
    reveal(Seq::filter);
}

/// Whether `index` is the first position in `attached` of a device that
/// sits at `location` and whose descriptor could be read.
pub open spec fn is_first_at(attached: Seq<AttachedDevice>, location: GoXLRDevice, index: int) -> bool {
    &&& 0 <= index < attached.len()
    &&& attached[index].spec_answers_at(location)
    &&& forall|j: int| 0 <= j < index ==> !(#[trigger] attached[j]).spec_answers_at(location)
}

/// Whether no device in `attached` sits at `location` with a descriptor
/// that could be read.
pub open spec fn none_at(attached: Seq<AttachedDevice>, location: GoXLRDevice) -> bool {
    forall|j: int| 0 <= j < attached.len() ==> !(#[trigger] attached[j]).spec_answers_at(location)
}

impl GoXLRUSB {
    /// Looks for the device at `device` among the attached ones: the first
    /// that sits at that bus and address and whose descriptor could be
    /// read. Its position in the enumeration and its identity come back, or
    /// `DeviceNotFound` where there is none. An enumeration that failed
    /// counts as one that found nothing.
    pub fn find_device(
        device: GoXLRDevice,
        enumeration: &Result<Vec<AttachedDevice>, TransportFault>,
    ) -> (out: Result<(usize, DeviceIdentity), RequestError>)
        ensures
            out matches Ok((index, identity)) ==> {
                &&& is_first_at(enumerated(*enumeration), device, index as int)
                &&& enumerated(*enumeration)[index as int].descriptor == Some(identity)
            },
            out matches Err(e) ==> {
                &&& e == RequestError::DeviceNotFound
                &&& none_at(enumerated(*enumeration), device)
            },
    {
        match enumeration {
            Err(_) => Err(RequestError::DeviceNotFound),
            Ok(attached) => {
                let mut i: usize = 0;
                while i < attached.len()
                    invariant
                        i <= attached@.len(),
                        enumerated(*enumeration) == attached@,
                        forall|j: int|
                            0 <= j < i ==> !(#[trigger] attached@[j]).spec_answers_at(device),
                    decreases attached@.len() - i,
                {
                    let usb_device = attached[i];
                    if usb_device.bus_number == device.bus_number && usb_device.address
                        == device.address {
                        if let Some(descriptor) = usb_device.descriptor {
                            return Ok((i, descriptor));
                        }
                    }
                    i += 1;
                }
                Err(RequestError::DeviceNotFound)
            },
        }
    }

    /// Resolves `device` to a fresh session. The device is looked for among
    /// the attached ones as `find_device` does; the session starts with its
    /// counter at 0 and with the product identifier that the descriptor
    /// shows. The position says which of the enumerated devices to open.
    pub fn from_device(
        device: GoXLRDevice,
        enumeration: &Result<Vec<AttachedDevice>, TransportFault>,
    ) -> (out: Result<(usize, GoXLRUSB), RequestError>)
        ensures
            out matches Ok((index, session)) ==> {
                &&& is_first_at(enumerated(*enumeration), device, index as int)
                &&& enumerated(*enumeration)[index as int].descriptor matches Some(identity)
                    && session@ == (SessionView {
                    product_id: identity.product_id,
                    command_count: 0,
                })
            },
            out matches Err(e) ==> {
                &&& e == RequestError::DeviceNotFound
                &&& none_at(enumerated(*enumeration), device)
            },
    {
        match GoXLRUSB::find_device(device, enumeration) {
            Ok((index, descriptor)) => Ok((index, GoXLRUSB::new(descriptor.product_id))),
            Err(e) => Err(e),
        }
    }
}

} // verus!
