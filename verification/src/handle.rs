use vstd::prelude::*;

use crate::error::Error;

verus! {

/// Which native read serves a timeout.
#[derive(Clone, Copy, PartialEq, Eq, Debug)]
pub enum Wait {
    /// The read that returns only when a report has come.
    Blocking,
    /// The read that gives up after this many milliseconds.
    Timeout(i32),
}

/// The whole milliseconds in a duration of `seconds` and `nanoseconds`.
pub open spec fn milliseconds(seconds: u64, nanoseconds: u32) -> int {
    seconds * 1000 + nanoseconds / 1_000_000
}

/// The native read for a duration: a duration of exactly zero waits without
/// end, every other one for its whole milliseconds.
pub open spec fn wait_for(seconds: u64, nanoseconds: u32) -> Wait {
    if seconds == 0 && nanoseconds == 0 {
        Wait::Blocking
    } else {
        Wait::Timeout(milliseconds(seconds, nanoseconds) as i32)
    }
}

/// A report as the native layer takes it: the report's ID, then its payload.
pub open spec fn framed(id: u8, payload: Seq<u8>) -> Seq<u8> {
    seq![id] + payload
}

/// A buffer for the native layer to fill: the report's ID, then `length`
/// zero bytes.
pub open spec fn blank(id: u8, length: nat) -> Seq<u8> {
    framed(id, Seq::new(length, |i: int| 0u8))
}

/// What a native send returned, as the caller is told: -1 is a failure, and
/// any other count is reduced by the `framing` bytes that the caller did not
/// hand in.
pub open spec fn sent(result: i32, framing: int) -> Result<usize, Error> {
    if result == -1 {
        Err(Error::Write)
    } else {
        Ok((result - framing) as usize)
    }
}

/// What a native receive returned, as the caller is told: -1 is a failure, 0
/// is no report, and any other count is reduced by the `framing` bytes that
/// the caller does not see.
pub open spec fn received(result: i32, framing: int) -> Result<Option<usize>, Error> {
    if result == -1 {
        Err(Error::Read)
    } else if result == 0 {
        Ok(None)
    } else {
        Ok(Some((result - framing) as usize))
    }
}

/// Whether a report of `result` bytes lies within `report` and leaves a
/// payload of at most `room` bytes.
pub open spec fn fits(result: i32, report: Seq<u8>, room: nat) -> bool {
    1 <= result <= report.len() && result - 1 <= room
}

/// What a native receive into `report` returned, as the caller of a read by
/// report ID is told: the ID and the payload's length, or a failure where the
/// report does not fit.
pub open spec fn unframed(result: i32, report: Seq<u8>, room: nat) -> Result<
    Option<(u8, usize)>,
    Error,
> {
    if result == -1 {
        Err(Error::Read)
    } else if result == 0 {
        Ok(None)
    } else if fits(result, report, room) {
        Ok(Some((report[0], (result - 1) as usize)))
    } else {
        Err(Error::Read)
    }
}

/// The caller's buffer after a read by report ID: the payload in front where
/// a report came and fits, and nothing changed otherwise.
pub open spec fn filled(result: i32, report: Seq<u8>, data: Seq<u8>) -> Seq<u8> {
    if fits(result, report, data.len()) {
        report.subrange(1, result as int) + data.skip(result - 1)
    } else {
        data
    }
}

/// A read's outcome without the report's ID.
pub open spec fn payload_only(read: Result<Option<(u8, usize)>, Error>) -> Result<
    Option<usize>,
    Error,
> {
    match read {
        Ok(Some((_, length))) => Ok(Some(length)),
        Ok(None) => Ok(None),
        Err(error) => Err(error),
    }
}

/// Chooses the native read for a timeout, given as the whole seconds of the
/// duration and the nanoseconds beyond them. There is none for a timeout of
/// more milliseconds than the native layer can count.
pub fn wait(seconds: u64, nanoseconds: u32) -> (wait: Option<Wait>)
    ensures
        milliseconds(seconds, nanoseconds) <= i32::MAX ==> wait == Some(
            wait_for(seconds, nanoseconds),
        ),
        milliseconds(seconds, nanoseconds) > i32::MAX ==> wait is None,
{
    if seconds == 0 && nanoseconds == 0 {
        return Some(Wait::Blocking);
    }
    if seconds > 2_147_483 {
        return None;
    }
    let whole: u64 = seconds * 1000;
    let part: u32 = nanoseconds / 1_000_000;
    let sum: u64 = whole + part as u64;
    if sum > 2_147_483_647 {
        return None;
    }
    Some(Wait::Timeout(sum as i32))
}

/// The flag that the native layer takes for a blocking mode.
pub fn nonblocking(value: bool) -> (flag: i32)
    ensures
        flag == if value { 1i32 } else { 0i32 },
{
    if value {
        1
    } else {
        0
    }
}

/// Puts the report's ID in front of its payload.
pub fn frame(id: u8, payload: &[u8]) -> (report: Vec<u8>)
    ensures
        report@ == framed(id, payload@),
{
    let mut report: Vec<u8> = Vec::new();
    report.push(id);
    let mut i: usize = 0;
    while i < payload.len()
        invariant
            i <= payload@.len(),
            report@ == framed(id, payload@.take(i as int)),
        decreases payload@.len() - i,
    {
        report.push(payload[i]);
        i += 1;
    }
    report
}

/// Makes the buffer that the native layer fills when a report is read by ID:
/// one byte for the ID, which is set, and `length` bytes for the payload.
pub fn staging(id: u8, length: usize) -> (buffer: Vec<u8>)
    requires
        length < usize::MAX,
    ensures
        buffer@ == blank(id, length as nat),
{
    let mut buffer: Vec<u8> = vec![0u8; length + 1];
    buffer[0] = id;
    buffer
}

fn count_sent(result: i32, framing: u8) -> (count: Result<usize, Error>)
    requires
        result == -1 || result >= framing,
        framing <= 1,
    ensures
        count == sent(result, framing as int),
{
    if result == -1 {
        Err(Error::Write)
    } else {
        Ok(result as usize - framing as usize)
    }
}

fn count_received(result: i32, framing: u8) -> (count: Result<Option<usize>, Error>)
    requires
        result >= -1,
        framing <= 1,
    ensures
        count == received(result, framing as int),
{
    if result == -1 {
        Err(Error::Read)
    } else if result == 0 {
        Ok(None)
    } else {
        Ok(Some(result as usize - framing as usize))
    }
}

/// An opened device: the one owner of a native handle.
pub struct Handle {
    ptr: usize,
}

/// The input and output reports of a handle, which it borrows.
pub struct Data<'a> {
    handle: &'a Handle,
}

/// The feature reports of a handle, which it borrows.
pub struct Feature<'a> {
    handle: &'a Handle,
}

impl Handle {
    /// The address of the native handle.
    pub closed spec fn address(&self) -> usize {
        self.ptr
    }

    #[verifier::type_invariant]
    spec fn opened(&self) -> bool {
        self.ptr != 0
    }

    /// Takes charge of a native handle.
    pub fn new(ptr: usize) -> (handle: Handle)
        requires
            ptr != 0,
        ensures
            handle.address() == ptr,
    {
        Handle { ptr }
    }

    /// The address of the native handle, which is never null.
    pub fn as_ptr(&self) -> (ptr: usize)
        ensures
            ptr == self.address(),
            ptr != 0,
    {
        proof {
            use_type_invariant(self);
        }
        self.ptr
    }

    /// The address of the native handle, for a call that changes the device.
    pub fn as_mut_ptr(&mut self) -> (ptr: usize)
        ensures
            ptr == old(self).address(),
            ptr != 0,
            *final(self) == *old(self),
    {
        proof {
            use_type_invariant(&*self);
        }
        self.ptr
    }

    /// The outcome of setting the blocking mode, which is the native call's
    /// status: zero is success.
    pub fn blocking(&mut self, status: i32) -> (set: Result<(), Error>)
        ensures
            status == 0 ==> set == Ok::<(), Error>(()),
            status != 0 ==> set == Err::<(), Error>(Error::General),
            *final(self) == *old(self),
    {
        if status == 0 {
            Ok(())
        } else {
            Err(Error::General)
        }
    }

    /// Lends the handle out for input and output reports.
    pub fn data(&mut self) -> (data: Data<'_>)
        ensures
            data.address() == old(self).address(),
            *final(self) == *old(self),
    {
        Data::new(self)
    }

    /// Lends the handle out for feature reports.
    pub fn feature(&mut self) -> (feature: Feature<'_>)
        ensures
            feature.address() == old(self).address(),
            *final(self) == *old(self),
    {
        Feature::new(self)
    }

    /// Gives the native handle up, to be closed: the handle is gone after
    /// this, so no address is given up twice.
    pub fn close(self) -> (ptr: usize)
        ensures
            ptr == self.address(),
            ptr != 0,
    {
        proof {
            use_type_invariant(&self);
        }
        self.ptr
    }
}

impl<'a> Data<'a> {
    /// The address of the native handle that the reports go through.
    pub closed spec fn address(&self) -> usize {
        self.handle.ptr
    }

    /// Borrows a handle for input and output reports.
    pub fn new(handle: &'a mut Handle) -> (data: Data<'a>)
        ensures
            data.address() == old(handle).address(),
            *final(handle) == *old(handle),
    {
        Data { handle }
    }

    /// The address of the native handle, for the native call that carries a
    /// report.
    pub fn as_mut_ptr(&mut self) -> (ptr: usize)
        ensures
            ptr == old(self).address(),
            ptr != 0,
            *final(self) == *old(self),
    {
        self.handle.as_ptr()
    }

    /// The outcome of a write of the caller's bytes as they are, which is
    /// the native call's result.
    pub fn write_direct(&mut self, result: i32) -> (written: Result<usize, Error>)
        requires
            result >= -1,
        ensures
            written == sent(result, 0),
            *final(self) == *old(self),
    {
        count_sent(result, 0)
    }

    /// The outcome of a write of a framed report: the ID byte that went in
    /// front is not counted.
    pub fn write_to(&mut self, result: i32) -> (written: Result<usize, Error>)
        requires
            result == -1 || result >= 1,
        ensures
            written == sent(result, 1),
            *final(self) == *old(self),
    {
        count_sent(result, 1)
    }

    /// The outcome of a write of a report framed with the ID 0.
    pub fn write(&mut self, result: i32) -> (written: Result<usize, Error>)
        requires
            result == -1 || result >= 1,
        ensures
            written == sent(result, 1),
            *final(self) == *old(self),
    {
        self.write_to(result)
    }

    /// The outcome of a read into the caller's buffer, which is the native
    /// call's result.
    pub fn read_direct(&mut self, result: i32) -> (read: Result<Option<usize>, Error>)
        requires
            result >= -1,
        ensures
            read == received(result, 0),
            *final(self) == *old(self),
    {
        count_received(result, 0)
    }

    /// The outcome of a read into a staging buffer, without the report's ID.
    pub fn read(&mut self, result: i32, report: &[u8], data: &mut [u8]) -> (read: Result<
        Option<usize>,
        Error,
    >)
        requires
            result >= -1,
        ensures
            read == payload_only(unframed(result, report@, old(data)@.len())),
            final(data)@ == filled(result, report@, old(data)@),
            *final(self) == *old(self),
    {
        match self.read_from(result, report, data) {
            Ok(Some((_, length))) => Ok(Some(length)),
            Ok(None) => Ok(None),
            Err(error) => Err(error),
        }
    }

    /// The outcome of a read into a staging buffer: the first byte of the
    /// report is its ID, and the rest is copied to the front of `data`. A
    /// report that is longer than the staging buffer, or whose payload is
    /// longer than `data`, is a failed read that changes nothing.
    pub fn read_from(&mut self, result: i32, report: &[u8], data: &mut [u8]) -> (read: Result<
        Option<(u8, usize)>,
        Error,
    >)
        requires
            result >= -1,
        ensures
            read == unframed(result, report@, old(data)@.len()),
            final(data)@ == filled(result, report@, old(data)@),
            *final(self) == *old(self),
    {
        if result == -1 {
            return Err(Error::Read);
        }
        if result == 0 {
            return Ok(None);
        }
        let length: usize = result as usize;
        if length > report.len() || length - 1 > data.len() {
            return Err(Error::Read);
        }
        let mut i: usize = 1;
        while i < length
            invariant
                1 <= i <= length,
                length <= report@.len(),
                length - 1 <= data@.len(),
                data@.len() == old(data)@.len(),
                data@ == report@.subrange(1, i as int) + old(data)@.skip(i - 1),
            decreases length - i,
        {
            data[i - 1] = report[i];
            i += 1;
        }
        Ok(Some((report[0], length - 1)))
    }
}

impl<'a> Feature<'a> {
    /// The address of the native handle that the reports go through.
    pub closed spec fn address(&self) -> usize {
        self.handle.ptr
    }

    /// Borrows a handle for feature reports.
    pub fn new(handle: &'a mut Handle) -> (feature: Feature<'a>)
        ensures
            feature.address() == old(handle).address(),
            *final(handle) == *old(handle),
    {
        Feature { handle }
    }

    /// The address of the native handle, for the native call that carries a
    /// report.
    pub fn as_mut_ptr(&mut self) -> (ptr: usize)
        ensures
            ptr == old(self).address(),
            ptr != 0,
            *final(self) == *old(self),
    {
        self.handle.as_ptr()
    }

    /// The outcome of sending the caller's bytes as they are, which is the
    /// native call's result.
    pub fn send_direct(&mut self, result: i32) -> (written: Result<usize, Error>)
        requires
            result >= -1,
        ensures
            written == sent(result, 0),
            *final(self) == *old(self),
    {
        count_sent(result, 0)
    }

    /// The outcome of sending a framed report: the ID byte that went in
    /// front is not counted.
    pub fn send_to(&mut self, result: i32) -> (written: Result<usize, Error>)
        requires
            result == -1 || result >= 1,
        ensures
            written == sent(result, 1),
            *final(self) == *old(self),
    {
        count_sent(result, 1)
    }

    /// The outcome of sending a report framed with the ID 0.
    pub fn send(&mut self, result: i32) -> (written: Result<usize, Error>)
        requires
            result == -1 || result >= 1,
        ensures
            written == sent(result, 1),
            *final(self) == *old(self),
    {
        self.send_to(result)
    }

    /// The outcome of getting a report into the caller's buffer, which is
    /// the native call's result: no byte is taken off.
    pub fn get_direct(&mut self, result: i32) -> (read: Result<Option<usize>, Error>)
        requires
            result >= -1,
        ensures
            read == received(result, 0),
            *final(self) == *old(self),
    {
        count_received(result, 0)
    }

    /// The outcome of getting a report by its ID: the ID byte in front of
    /// the buffer is taken off the count.
    pub fn get_from(&mut self, result: i32) -> (read: Result<Option<usize>, Error>)
        requires
            result >= -1,
        ensures
            read == received(result, 1),
            *final(self) == *old(self),
    {
        count_received(result, 1)
    }

    /// The outcome of getting a report by the ID 0.
    pub fn get(&mut self, result: i32) -> (read: Result<Option<usize>, Error>)
        requires
            result >= -1,
        ensures
            read == received(result, 1),
            *final(self) == *old(self),
    {
        self.get_from(result)
    }
}

/// Reports come back as they went out. Where the native layer takes a whole
/// framed report and the same bytes are then received, the write counts the
/// payload without its ID byte, and the read by report ID gives back the ID,
/// the payload's length, and the payload at the front of the caller's
/// buffer, the rest of which it leaves alone. Without framing both counts are
/// the native ones.
pub proof fn lemma_round_trip(id: u8, payload: Seq<u8>, data: Seq<u8>)
    requires
        payload.len() < i32::MAX,
        payload.len() <= data.len(),
    ensures
        ({
            let report = framed(id, payload);
            let result = report.len() as i32;
            let length = payload.len() as usize;
            &&& result == payload.len() + 1
            &&& sent(result, 1) == Ok::<usize, Error>(length)
            &&& unframed(result, report, data.len()) == Ok::<Option<(u8, usize)>, Error>(
                Some((id, length)),
            )
            &&& filled(result, report, data) == payload + data.skip(payload.len() as int)
        }),
        payload.len() > 0 ==> sent(payload.len() as i32, 0) == Ok::<usize, Error>(
            payload.len() as usize,
        ) && received(payload.len() as i32, 0) == Ok::<Option<usize>, Error>(
            Some(payload.len() as usize),
        ),
{
    let report = framed(id, payload);
    assert(report.subrange(1, report.len() as int) == payload);
}

} // verus!
