//! Device-id records for the SPI bus glue: fixed-width names, driver data,
//! the sentinel, and the default driver methods.

use tty0tty::errors::DriverError;
use tty0tty::spi::{SpiDevice, SpiDeviceId, SpiMethods, SPI_ID_NAME_LEN};

fn name_bytes(id: &SpiDeviceId) -> Vec<i8> {
    (0..SPI_ID_NAME_LEN).map(|k| id.name_byte(k)).collect()
}

#[test]
fn new_copies_name_and_zero_fills() {
    let id = SpiDeviceId::new(b"test1\0");
    let bytes = name_bytes(&id);
    assert_eq!(&bytes[..6], &[b't' as i8, b'e' as i8, b's' as i8, b't' as i8, b'1' as i8, 0]);
    for k in 6..SPI_ID_NAME_LEN {
        assert_eq!(bytes[k], 0);
    }
    assert_eq!(id.data(), 0);
}

#[test]
fn new_truncates_a_long_name_at_the_field_width() {
    let long = [b'x'; 40];
    let id = SpiDeviceId::new(&long);
    let bytes = name_bytes(&id);
    for k in 0..SPI_ID_NAME_LEN {
        assert_eq!(bytes[k], b'x' as i8);
    }
}

#[test]
fn driver_data_number_replaces_only_the_data_word() {
    let id = SpiDeviceId::new(b"test3\0").with_driver_data_number(42);
    assert_eq!(id.data(), 42);
    let bytes = name_bytes(&id);
    assert_eq!(bytes[0], b't' as i8);
    assert_eq!(bytes[4], b'3' as i8);
    assert_eq!(bytes[5], 0);
}

#[test]
fn sentinel_is_all_zero() {
    let id = SpiDeviceId::sentinel();
    assert_eq!(id.data(), 0);
    for b in name_bytes(&id) {
        assert_eq!(b, 0);
    }
}

#[test]
fn device_handle_round_trips_its_address() {
    let mut dev = SpiDevice::new(0x1234_5678);
    assert_eq!(dev.to_ptr(), 0x1234_5678);
    assert_eq!(dev.to_ptr(), 0x1234_5678);
}

struct NoMethods;

impl SpiMethods for NoMethods {}

#[test]
fn unset_driver_methods_report_not_supported() {
    let mut dev = SpiDevice::new(0x1000);
    assert_eq!(NoMethods::probe(&mut dev), Err(DriverError::NotSupported));
    // The default remove and shutdown are well-defined no-ops.
    NoMethods::remove(&mut dev);
    NoMethods::shutdown(&mut dev);
    assert_eq!(dev.to_ptr(), 0x1000);
}
