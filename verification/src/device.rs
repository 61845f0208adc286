use vstd::prelude::*;
use vstd::utf8::{decode_utf8, valid_utf8};

use crate::error::Error;
use crate::handle::Handle;

verus! {

/// The text that `String::from_utf8_lossy` makes of a sequence of bytes.
pub uninterp spec fn utf8_lossy(bytes: Seq<u8>) -> Seq<char>;

/// Calls `String::from_utf8_lossy` and takes the text as a `String`. The text
/// depends on the bytes alone; where they are valid UTF-8 it is what they
/// encode, and elsewhere each invalid sequence is replaced by U+FFFD.
#[verifier::external_body]
fn from_utf8_lossy(bytes: &[u8]) -> (text: String)
    ensures
        text@ == utf8_lossy(bytes@),
        valid_utf8(bytes@) ==> text@ == decode_utf8(bytes@),
{
    String::from_utf8_lossy(bytes).into_owned()
}

/// The text of a narrowed wide string. `length` is what the narrowing
/// conversion returned, `buffer` is what it wrote into: the all-ones length
/// says that some wide character had no narrow form, and then there is no
/// text; any other length counts the bytes of the text at the front of
/// `buffer`.
pub fn to_string(length: usize, buffer: &[u8; 256]) -> (text: Option<String>)
    requires
        length == usize::MAX || length <= 256,
    ensures
        length == usize::MAX ==> text is None,
        length != usize::MAX ==> text is Some && text->0@ == utf8_lossy(
            buffer@.subrange(0, length as int),
        ),
        length != usize::MAX && valid_utf8(buffer@.subrange(0, length as int)) ==> text->0@
            == decode_utf8(buffer@.subrange(0, length as int)),
{
    if length == usize::MAX {
        return None;
    }
    Some(from_utf8_lossy(&buffer[0..length]))
}

/// What is known of one connected device.
#[derive(PartialEq, Eq, Debug)]
pub struct Device {
    path: String,
    vendor_id: u16,
    product_id: u16,
    serial_number: Option<Vec<u32>>,
    release_number: u16,
    manufacturer_string: Option<Vec<u32>>,
    product_string: Option<Vec<u32>>,
    usage_page: u16,
    usage: u16,
    interface_number: i32,
}

/// A device's record as plain values. The three strings are wide strings as
/// the native layer holds them, one number for each wide character, and each
/// of them may be missing.
pub struct DeviceView {
    pub path: Seq<char>,
    pub vendor_id: u16,
    pub product_id: u16,
    pub serial_number: Option<Seq<u32>>,
    pub release_number: u16,
    pub manufacturer_string: Option<Seq<u32>>,
    pub product_string: Option<Seq<u32>>,
    pub usage_page: u16,
    pub usage: u16,
    pub interface_number: i32,
}

/// A wide string, where there is one, as plain values.
pub open spec fn wide(string: Option<Vec<u32>>) -> Option<Seq<u32>> {
    match string {
        Some(units) => Some(units@),
        None => None,
    }
}

/// Whether a borrowed wide string is the given one.
pub open spec fn lends(units: Option<&[u32]>, string: Option<Seq<u32>>) -> bool {
    match units {
        Some(slice) => string == Some(slice@),
        None => string is None,
    }
}

fn lend(string: &Option<Vec<u32>>) -> (units: Option<&[u32]>)
    ensures
        lends(units, wide(*string)),
{
    match string {
        Some(units) => Some(units.as_slice()),
        None => None,
    }
}

impl View for Device {
    type V = DeviceView;

    closed spec fn view(&self) -> DeviceView {
        DeviceView {
            path: self.path@,
            vendor_id: self.vendor_id,
            product_id: self.product_id,
            serial_number: wide(self.serial_number),
            release_number: self.release_number,
            manufacturer_string: wide(self.manufacturer_string),
            product_string: wide(self.product_string),
            usage_page: self.usage_page,
            usage: self.usage,
            interface_number: self.interface_number,
        }
    }
}

impl Device {
    /// Makes the record of a device from what the native layer holds of it.
    pub fn new(
        path: String,
        vendor_id: u16,
        product_id: u16,
        serial_number: Option<Vec<u32>>,
        release_number: u16,
        manufacturer_string: Option<Vec<u32>>,
        product_string: Option<Vec<u32>>,
        usage_page: u16,
        usage: u16,
        interface_number: i32,
    ) -> (device: Device)
        ensures
            device@ == (DeviceView {
                path: path@,
                vendor_id,
                product_id,
                serial_number: wide(serial_number),
                release_number,
                manufacturer_string: wide(manufacturer_string),
                product_string: wide(product_string),
                usage_page,
                usage,
                interface_number,
            }),
    {
        Device {
            path,
            vendor_id,
            product_id,
            serial_number,
            release_number,
            manufacturer_string,
            product_string,
            usage_page,
            usage,
            interface_number,
        }
    }

    /// The path representation.
    pub fn path(&self) -> (path: &str)
        ensures
            path@ == self@.path,
    {
        self.path.as_str()
    }

    /// The vendor ID.
    pub fn vendor_id(&self) -> (id: u16)
        ensures
            id == self@.vendor_id,
    {
        self.vendor_id
    }

    /// The product ID.
    pub fn product_id(&self) -> (id: u16)
        ensures
            id == self@.product_id,
    {
        self.product_id
    }

    /// The serial number, as a wide string.
    pub fn serial_number(&self) -> (units: Option<&[u32]>)
        ensures
            lends(units, self@.serial_number),
    {
        lend(&self.serial_number)
    }

    /// The manufacturer string, as a wide string.
    pub fn manufacturer_string(&self) -> (units: Option<&[u32]>)
        ensures
            lends(units, self@.manufacturer_string),
    {
        lend(&self.manufacturer_string)
    }

    /// The product string, as a wide string.
    pub fn product_string(&self) -> (units: Option<&[u32]>)
        ensures
            lends(units, self@.product_string),
    {
        lend(&self.product_string)
    }

    /// The release number.
    pub fn release_number(&self) -> (number: u16)
        ensures
            number == self@.release_number,
    {
        self.release_number
    }

    /// The usage page.
    pub fn usage_page(&self) -> (page: u16)
        ensures
            page == self@.usage_page,
    {
        self.usage_page
    }

    /// The usage number.
    pub fn usage(&self) -> (usage: u16)
        ensures
            usage == self@.usage,
    {
        self.usage
    }

    /// The interface number.
    pub fn interface_number(&self) -> (number: isize)
        ensures
            number == self@.interface_number,
    {
        self.interface_number as isize
    }

    /// What the native layer is to open this device by: its vendor ID, its
    /// product ID, and its serial number, which tells it from others of the
    /// same IDs.
    pub fn identity(&self) -> (identity: (u16, u16, Option<&[u32]>))
        ensures
            identity.0 == self@.vendor_id,
            identity.1 == self@.product_id,
            lends(identity.2, self@.serial_number),
    {
        (self.vendor_id, self.product_id, lend(&self.serial_number))
    }

    /// The outcome of opening this device, which hangs on the address that
    /// the native call returned: null says that no such device was found.
    pub fn open(&self, handle: usize) -> (opened: Result<Handle, Error>)
        ensures
            handle == 0 ==> opened == Err::<Handle, Error>(Error::NotFound),
            handle != 0 ==> opened is Ok && opened->Ok_0.address() == handle,
    {
        if handle == 0 {
            return Err(Error::NotFound);
        }
        Ok(Handle::new(handle))
    }
}

} // verus!
