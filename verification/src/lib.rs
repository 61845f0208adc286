//! The safe core of a binding to a native HID access library.
//!
//! Every call into the native layer is made by the caller of this crate. The
//! crate decides what is handed to each native call and what its result means:
//! it maps status codes to [`Error`], guards the one-time initialization, walks
//! an enumeration in order, and frames and unframes reports by their ID byte.

pub mod device;
pub mod devices;
pub mod error;
pub mod handle;
pub mod manager;

pub use device::Device;
pub use devices::Devices;
pub use error::Error;
pub use handle::Handle;
pub use manager::{init, Library, Manager};
