//! Network interfaces of the system: their names, indices, MTUs, hardware
//! addresses, unicast IP addresses and status flags, as reported by the
//! operating system (netlink on Linux, `GetAdaptersAddresses` on Windows).
//!
//! The library holds what the operating system reports as plain values and
//! computes the interface records from them; reading the operating system
//! is left to the caller.

pub mod data_types;
pub mod iteration;
pub mod os;

pub use data_types::{Flags, HardwareAddr, IpAddr, IpAddrSet, EUI48_LEN};

use vstd::prelude::*;

verus! {

/// Errors in building interface records.
#[derive(Debug)]
pub enum IfConfigError {
    /// A value the record needs was absent.
    ValueNotFound { msg: String },
    /// The underlying system interface failed.
    UnderlyingApiFailed { msg: String },
}

/// `e` is a `ValueNotFound` error with the message `msg`.
pub open spec fn is_value_not_found(e: IfConfigError, msg: Seq<char>) -> bool {
    e matches IfConfigError::ValueNotFound { msg: m } && m@ == msg
}

/// `e` is an `UnderlyingApiFailed` error with the message `msg`.
pub open spec fn is_api_failure(e: IfConfigError, msg: Seq<char>) -> bool {
    e matches IfConfigError::UnderlyingApiFailed { msg: m } && m@ == msg
}

} // verus!
