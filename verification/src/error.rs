use vstd::prelude::*;
use vstd::std_specs::convert::FromSpecImpl;

verus! {

/// The ways in which an operation of this crate fails.
#[derive(PartialEq, Eq, Debug)]
pub enum Error {
    /// The native library is already initialized.
    Initialized,
    /// No device answered to the identity that was asked for.
    NotFound,
    /// A native call returned a status other than success.
    General,
    /// A report could not be sent.
    Write,
    /// A report could not be received.
    Read,
    /// A failure that the native layer described in its own words.
    Message(String),
}

impl Error {
    /// The fixed text of each kind of error.
    pub open spec fn description_text(self) -> Seq<char> {
        match self {
            Error::Initialized => "already initialized"@,
            Error::NotFound => "device not found"@,
            Error::General => "general error"@,
            Error::Write => "write error"@,
            Error::Read => "read error"@,
            Error::Message(_) => "other error"@,
        }
    }

    /// What is shown for an error: the native layer's words where there are
    /// any, the fixed text of the kind otherwise.
    pub open spec fn message_text(self) -> Seq<char> {
        match self {
            Error::Message(text) => text@,
            _ => self.description_text(),
        }
    }

    /// The fixed text of this kind of error.
    pub fn description(&self) -> (text: &'static str)
        ensures
            text@ == self.description_text(),
    {
        match self {
            Error::Initialized => "already initialized",
            Error::NotFound => "device not found",
            Error::General => "general error",
            Error::Write => "write error",
            Error::Read => "read error",
            Error::Message(_) => "other error",
        }
    }

    /// The text to show for this error.
    pub fn message(&self) -> (text: String)
        ensures
            text@ == self.message_text(),
    {
        match self {
            Error::Message(text) => text.clone(),
            _ => self.description().to_owned(),
        }
    }
}

impl Clone for Error {
    fn clone(&self) -> (copy: Error)
        ensures
            copy == *self,
    {
        match self {
            Error::Initialized => Error::Initialized,
            Error::NotFound => Error::NotFound,
            Error::General => Error::General,
            Error::Write => Error::Write,
            Error::Read => Error::Read,
            Error::Message(text) => Error::Message(text.clone()),
        }
    }
}

impl From<i32> for Error {
    /// A native status code carries no detail: every one of them is `General`.
    fn from(status: i32) -> (error: Error) {
        Error::General
    }
}

impl FromSpecImpl<i32> for Error {
    open spec fn obeys_from_spec() -> bool {
        true
    }

    open spec fn from_spec(status: i32) -> Error {
        Error::General
    }
}

impl From<String> for Error {
    /// The answer to a query for a handle's last error becomes a `Message`.
    fn from(text: String) -> (error: Error) {
        Error::Message(text)
    }
}

impl FromSpecImpl<String> for Error {
    open spec fn obeys_from_spec() -> bool {
        true
    }

    open spec fn from_spec(text: String) -> Error {
        Error::Message(text)
    }
}

} // verus!
