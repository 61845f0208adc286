use vstd::prelude::*;

use crate::device::Device;

verus! {

/// The devices of one native enumeration, handed out one by one in the order
/// in which the native layer listed them. A device that was handed out is the
/// caller's own; those that were not stay with the enumeration until `rest`
/// takes them or the enumeration is dropped, so each has one owner at a time.
pub struct Devices {
    rest: Vec<Device>,
}

/// One call of `next` on a sequence: what it hands out, and what is left.
pub open spec fn step(devices: Seq<Device>) -> (Option<Device>, Seq<Device>) {
    if devices.len() > 0 {
        (Some(devices[0]), devices.skip(1))
    } else {
        (None, devices)
    }
}

/// The vendor or product ID that the native layer enumerates with: the ID
/// itself, or 0 where any will do.
pub open spec fn code(id: Option<u16>) -> u16 {
    match id {
        Some(id) => id,
        None => 0,
    }
}

impl View for Devices {
    type V = Seq<Device>;

    /// The devices that have not been handed out yet, the next one first.
    closed spec fn view(&self) -> Seq<Device> {
        self.rest@.reverse()
    }
}

impl Devices {
    /// The vendor and product IDs to enumerate with.
    pub fn filter(vendor: Option<u16>, product: Option<u16>) -> (codes: (u16, u16))
        ensures
            codes == (code(vendor), code(product)),
    {
        let vendor_code: u16 = match vendor {
            Some(id) => id,
            None => 0,
        };
        let product_code: u16 = match product {
            Some(id) => id,
            None => 0,
        };
        (vendor_code, product_code)
    }

    /// Takes charge of the devices that the native layer listed.
    pub fn new(list: Vec<Device>) -> (devices: Devices)
        ensures
            devices@ == list@,
    {
        let mut list = list;
        let mut rest: Vec<Device> = Vec::new();
        let ghost listed = list@;
        while list.len() > 0
            invariant
                list@ + rest@.reverse() == listed,
            decreases list@.len(),
        {
            let device = list.pop().unwrap();
            rest.push(device);
        }
        Devices { rest }
    }

    /// Hands out the next device. Once there is none, there is none for good.
    pub fn next(&mut self) -> (device: Option<Device>)
        ensures
            (device, final(self)@) == step(old(self)@),
    {
        self.rest.pop()
    }

    /// Hands out all the devices that are left, the next one first.
    pub fn rest(self) -> (list: Vec<Device>)
        ensures
            list@ == self@,
    {
        let mut devices = self;
        let mut list: Vec<Device> = Vec::new();
        let ghost left = devices@;
        loop
            invariant
                list@ + devices@ == left,
            ensures
                list@ == left,
            decreases devices@.len(),
        {
            match devices.next() {
                Some(device) => list.push(device),
                None => break,
            }
        }
        list
    }
}

/// What is left of a sequence after `calls` calls of `next`.
pub open spec fn after(devices: Seq<Device>, calls: nat) -> Seq<Device>
    decreases calls,
{
    if calls == 0 {
        devices
    } else {
        step(after(devices, (calls - 1) as nat)).1
    }
}

/// The devices come out in the order of the list, each of them once. The
/// call of `next` that follows `calls` earlier ones hands out the device at
/// that place of the list, or nothing once the list is through, and then
/// nothing for good. What is left is the list from that place on, so what
/// has been handed out and what is left make up the list.
pub proof fn lemma_in_order(devices: Seq<Device>, calls: nat)
    ensures
        calls <= devices.len() ==> after(devices, calls) == devices.skip(calls as int),
        calls >= devices.len() ==> after(devices, calls).len() == 0,
        calls < devices.len() ==> step(after(devices, calls)).0 == Some(devices[calls as int]),
        calls >= devices.len() ==> step(after(devices, calls)).0 is None,
        calls <= devices.len() ==> devices.take(calls as int) + after(devices, calls) == devices,
    decreases calls,
{
    if calls > 0 {
        lemma_in_order(devices, (calls - 1) as nat);
        if calls <= devices.len() {
            assert(devices.skip(calls - 1).skip(1) == devices.skip(calls as int));
        }
    }
}

/// Whether an enumeration with these codes is to list a device: each code
/// asks for its own ID, and 0 for any.
pub open spec fn listed(codes: (u16, u16), device: Device) -> bool {
    &&& codes.0 == 0 || codes.0 == device@.vendor_id
    &&& codes.1 == 0 || codes.1 == device@.product_id
}

/// The codes for a vendor and a product ask for exactly the devices of both,
/// which are those among all devices that have both IDs: the codes for no
/// filter ask for every device. An ID of 0 cannot be asked for, since its
/// code asks for any.
pub proof fn lemma_exact_filter(vendor: u16, product: u16, device: Device)
    requires
        vendor != 0,
        product != 0,
    ensures
        listed((code(Some(vendor)), code(Some(product))), device) <==> device@.vendor_id == vendor
            && device@.product_id == product,
        listed((code(None), code(None)), device),
{
}

} // verus!
