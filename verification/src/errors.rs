//! The driver's error taxonomy and its mapping to the numeric codes the
//! device layer reports to callers.

use vstd::prelude::*;

verus! {

/// Every failure the driver surfaces. Benign conditions (double close,
/// writing towards a closed peer, room on a closed slot) are not errors;
/// they yield zero or no-op results instead.
#[derive(Clone, Copy, PartialEq, Eq, Structural, Debug)]
pub enum DriverError {
    /// Slot allocation failed on first open.
    OutOfMemory,
    /// An ioctl was handed a null destination to copy into.
    InvalidDestination,
    /// A status-change wait was cancelled by a pending signal.
    Interrupted,
    /// A status-change wait woke although no counter moved at all.
    NoChange,
    /// An ioctl command the driver does not recognise.
    NotSupported,
}

/// The numeric code each error is reported as.
pub open spec fn spec_errno(e: DriverError) -> i32 {
    match e {
        DriverError::OutOfMemory => -12i32,
        DriverError::InvalidDestination => -14i32,
        DriverError::Interrupted => -512i32,
        DriverError::NoChange => -5i32,
        DriverError::NotSupported => -515i32,
    }
}

impl DriverError {
    /// The numeric code the device layer relays for this error.
    pub fn errno(&self) -> (r: i32)
        ensures
            r == spec_errno(*self),
    {
        match self {
            DriverError::OutOfMemory => -12,
            DriverError::InvalidDestination => -14,
            DriverError::Interrupted => -512,
            DriverError::NoChange => -5,
            DriverError::NotSupported => -515,
        }
    }
}

} // verus!
