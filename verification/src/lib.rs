//! A checked construction path for the `clone3` Linux system call.
//!
//! The system call takes a single structured argument block. This crate
//! provides the pieces that can be built and checked ahead of the call:
//!
//! * [`Flags`](flags::Flags), a bitmask of creation options;
//! * [`CloneArgs`](raw::CloneArgs), the fixed-layout argument record;
//! * [`Clone3`](wrapper::Clone3), a builder that collects flags and the
//!   caller-provided slot addresses, validates the flag combination, and
//!   marshals itself into a record.
//!
//! The trap itself, and the raw addresses it needs, are outside this
//! library's scope: the builder works on plain address values that the
//! caller obtains from its own borrowed locations, and the produced record
//! is handed back to the caller for the actual invocation.

pub mod flags;
pub mod raw;
pub mod wrapper;

pub use flags::Flags;
pub use raw::CloneArgs;
pub use wrapper::Clone3;
pub use wrapper::Clone3State;
pub use wrapper::Errno;
pub use wrapper::Incompatibility;
pub use wrapper::RawSlice;
pub use wrapper::find_incompatible_flags;
pub use wrapper::handle_return_value;
