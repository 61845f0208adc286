use vstd::prelude::*;

use crate::devices::{code, Devices};
use crate::error::Error;

verus! {

/// Whether the native library is initialized: the one fact that a whole
/// process shares.
pub struct Library {
    initialized: bool,
}

/// The sign that the native library is initialized. Enumerations are asked
/// for through it, and at most one is live at a time.
pub struct Manager {
    token: (),
}

/// Why an attempt to initialize fails, if it does: a manager is live already,
/// or the native initializer, which is called only where none is, returned a
/// status other than zero.
pub open spec fn refusal(initialized: bool, status: i32) -> Option<Error> {
    if initialized {
        Some(Error::Initialized)
    } else if status != 0 {
        Some(Error::General)
    } else {
        None
    }
}

impl Library {
    /// Whether a manager is live.
    pub closed spec fn initialized(&self) -> bool {
        self.initialized
    }

    /// The shared fact, as the process holds it.
    pub fn new(initialized: bool) -> (library: Library)
        ensures
            library.initialized() == initialized,
    {
        Library { initialized }
    }

    /// Whether a manager is live.
    pub fn is_initialized(&self) -> (initialized: bool)
        ensures
            initialized == self.initialized(),
    {
        self.initialized
    }

    /// Whether the native initializer may be called: not while a manager is
    /// live.
    pub fn check(&self) -> (free: Result<(), Error>)
        ensures
            self.initialized() ==> free == Err::<(), Error>(Error::Initialized),
            !self.initialized() ==> free == Ok::<(), Error>(()),
    {
        if self.initialized {
            Err(Error::Initialized)
        } else {
            Ok(())
        }
    }
}

/// The outcome of an attempt to initialize the native library, where
/// `status` is what the native initializer returned. While a manager is live
/// the attempt fails whatever the status is, and the initializer is not to be
/// called: `Library::check` says so beforehand.
pub fn init(library: &mut Library, status: i32) -> (manager: Result<Manager, Error>)
    ensures
        manager is Ok <==> refusal(old(library).initialized(), status) is None,
        manager is Err ==> refusal(old(library).initialized(), status) == Some(manager->Err_0),
        final(library).initialized() == (old(library).initialized() || status == 0),
{
    if library.initialized {
        return Err(Error::Initialized);
    }
    if status != 0 {
        return Err(Error::from(status));
    }
    library.initialized = true;
    Ok(Manager { token: () })
}

impl Manager {
    /// The vendor and product IDs to enumerate with for the devices of a
    /// vendor, of a product, or of both.
    pub fn find(&self, vendor: Option<u16>, product: Option<u16>) -> (codes: (u16, u16))
        ensures
            codes == (code(vendor), code(product)),
    {
        Devices::filter(vendor, product)
    }

    /// The vendor and product IDs to enumerate with for all devices.
    pub fn devices(&self) -> (codes: (u16, u16))
        ensures
            codes == (0u16, 0u16),
    {
        self.find(None, None)
    }

    /// Ends the manager's life after the native teardown, which returned
    /// `status`. A teardown that failed leaves nothing to go on with, so it is
    /// not for this function.
    pub fn exit(self, library: &mut Library, status: i32)
        requires
            status == 0,
        ensures
            !final(library).initialized(),
    {
        library.initialized = false;
    }
}

/// What can happen to the shared fact.
pub enum Event {
    /// An attempt to initialize; the native initializer, where it is called,
    /// returns this status.
    Init(i32),
    /// The end of a manager's life.
    Exit,
}

/// Where a history of events leaves the process: whether the native library
/// is initialized, and how many managers are live.
pub open spec fn run(history: Seq<Event>) -> (bool, int)
    decreases history.len(),
{
    if history.len() == 0 {
        (false, 0)
    } else {
        let (initialized, live) = run(history.drop_last());
        match history.last() {
            Event::Init(status) => (
                initialized || status == 0,
                if refusal(initialized, status) is None {
                    live + 1
                } else {
                    live
                },
            ),
            Event::Exit => (false, live - 1),
        }
    }
}

/// Whether a history can happen: a manager's life ends only while one is
/// live.
pub open spec fn possible(history: Seq<Event>) -> bool {
    forall|i: int|
        0 <= i < history.len() && history[i] is Exit ==> (#[trigger] run(history.take(i))).1 >= 1
}

/// However initializations and ends of managers follow one another, at most
/// one manager is live; the native library is initialized exactly while one
/// is; an attempt to initialize then fails with `Initialized`; and an attempt
/// succeeds only once none is live.
pub proof fn lemma_one_manager(history: Seq<Event>, status: i32)
    requires
        possible(history),
    ensures
        0 <= run(history).1 <= 1,
        run(history).0 <==> run(history).1 == 1,
        run(history).1 == 1 ==> refusal(run(history).0, status) == Some(Error::Initialized),
        refusal(run(history).0, status) is None ==> run(history).1 == 0 && status == 0,
    decreases history.len(),
{
    if history.len() > 0 {
        let before = history.drop_last();
        assert forall|i: int| 0 <= i < before.len() && before[i] is Exit implies (#[trigger] run(
            before.take(i),
        )).1 >= 1 by {
            assert(before.take(i) == history.take(i));
        }
        lemma_one_manager(before, status);
        assert(history.take(history.len() - 1) == before);
    }
}

} // verus!
