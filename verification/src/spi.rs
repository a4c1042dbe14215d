//! Device-id records and device handles for the SPI bus glue that sits next
//! to the null-modem driver. Building the fixed-width id table is pure logic
//! and verified here; registering the driver and moving bytes over the bus
//! belong to the host layer and stay outside the library.

use vstd::prelude::*;

use crate::errors::DriverError;

verus! {

/// Width of the name field of a device-id record.
pub const SPI_ID_NAME_LEN: usize = 32;

/// Handle to a bus-owned device object, carried as its raw address. The
/// library never dereferences it; it only passes the handle through between
/// the host layer's calls.
#[derive(Clone, Copy, PartialEq, Eq, Structural, Debug)]
pub struct SpiDevice {
    addr: usize,
}

impl SpiDevice {
    /// The raw address this handle carries.
    pub closed spec fn spec_addr(&self) -> usize {
        self.addr
    }

    /// Wraps a raw device address handed over by the bus layer.
    pub fn new(addr: usize) -> (r: SpiDevice)
        ensures
            r.spec_addr() == addr,
    {
        SpiDevice { addr }
    }

    /// Hands the raw device address back, for calls into the bus layer.
    pub fn to_ptr(&mut self) -> (r: usize)
        ensures
            r == old(self).spec_addr(),
            *final(self) == *old(self),
    {
        self.addr
    }
}

/// Driver methods a bus implementation may provide. A method left at its
/// default yields a well-defined "not supported" result or no-op rather than
/// ever being reachable-but-undefined.
pub trait SpiMethods {
    /// Called when the bus matches a device to the driver.
    fn probe(spi_dev: &mut SpiDevice) -> Result<i32, DriverError> {
        Err(DriverError::NotSupported)
    }

    /// Called when the device is removed.
    fn remove(spi_dev: &mut SpiDevice) {
    }

    /// Called when the system shuts the device down.
    fn shutdown(spi_dev: &mut SpiDevice) {
    }
}

/// One entry of a driver's device-id table: a fixed-width name and a numeric
/// driver-data word.
pub struct SpiDeviceId {
    name: Vec<i8>,
    driver_data: usize,
}

impl SpiDeviceId {
    /// The bytes of the fixed-width name field.
    pub closed spec fn spec_name(&self) -> Seq<i8> {
        self.name@
    }

    /// The driver-data word.
    pub closed spec fn spec_data(&self) -> usize {
        self.driver_data
    }

    /// A record is well formed when its name field has exactly the fixed
    /// width.
    pub open spec fn wf(&self) -> bool {
        self.spec_name().len() == SPI_ID_NAME_LEN
    }

    /// Creates a device-id record named by `name`, given as the id string's
    /// bytes including its trailing nul. At most the first 32 bytes enter
    /// the record — a longer name is truncated — and the rest of the field
    /// is zero-filled. The driver-data word starts at zero.
    pub fn new(name: &[u8]) -> (r: SpiDeviceId)
        ensures
            r.wf(),
            r.spec_data() == 0,
            forall|k: int|
                0 <= k < SPI_ID_NAME_LEN ==> r.spec_name()[k] == (if k < name@.len() {
                    name@[k] as i8
                } else {
                    0i8
                }),
    {
        let mut field: Vec<i8> = Vec::new();
        let mut k: usize = 0;
        while k < SPI_ID_NAME_LEN
            invariant
                k <= SPI_ID_NAME_LEN,
                field@.len() == k,
                forall|j: int|
                    0 <= j < k ==> field@[j] == (if j < name@.len() {
                        name@[j] as i8
                    } else {
                        0i8
                    }),
            decreases SPI_ID_NAME_LEN - k,
        {
            if k < name.len() {
                field.push(#[verifier::truncate] (name[k] as i8));
            } else {
                field.push(0);
            }
            k = k + 1;
        }
        SpiDeviceId { name: field, driver_data: 0 }
    }

    /// The record with its driver-data word replaced by `driver_data`.
    pub fn with_driver_data_number(self, driver_data: usize) -> (r: SpiDeviceId)
        ensures
            r.spec_name() == self.spec_name(),
            r.spec_data() == driver_data,
    {
        SpiDeviceId { driver_data, ..self }
    }

    /// The all-zero record placed at the end of a device-id table.
    pub fn sentinel() -> (r: SpiDeviceId)
        ensures
            r.wf(),
            r.spec_data() == 0,
            forall|k: int| 0 <= k < SPI_ID_NAME_LEN ==> r.spec_name()[k] == 0i8,
    {
        SpiDeviceId::new(&[0u8])
    }

    /// The name byte at `k`, for reading a record back.
    pub fn name_byte(&self, k: usize) -> (b: i8)
        requires
            k < self.spec_name().len(),
        ensures
            b == self.spec_name()[k as int],
    {
        self.name[k]
    }

    /// The driver-data word, for reading a record back.
    pub fn data(&self) -> (d: usize)
        ensures
            d == self.spec_data(),
    {
        self.driver_data
    }
}

} // verus!
