use ds_battery::battery::{
    read_battery_state_ds4, read_battery_state_dualsense, Battery, ChargeState, Level,
};
use ds_battery::controller::{ConnType, ControllerType, ReadyState};
use ds_battery::device::{
    BusType, Controller, ControllerStatus, DeviceDescriptor, DeviceError, TypedDevice,
    FEATURE_REPORT_LEN,
};
use ds_battery::filter::{is_listed, DeviceFilterer};
use ds_battery::layout::BUF_SIZE;
use ds_battery::plug::{read_plug_state_ds4, read_plug_state_dualsense, PlugState};
use ds_battery::report::ShortReport;

fn descriptor(product_id: u16, bus_type: BusType, serial: Option<&str>) -> DeviceDescriptor {
    DeviceDescriptor {
        vendor_id: 0x054c,
        product_id,
        bus_type,
        serial_number: serial.map(str::to_owned),
    }
}

/// A buffer of one read with the given report ID and the given bytes at the
/// given places.
fn buffer(report_id: u8, bytes: &[(usize, u8)]) -> [u8; BUF_SIZE] {
    let mut raw = [0u8; BUF_SIZE];
    raw[0] = report_id;
    for &(at, byte) in bytes {
        raw[at] = byte;
    }
    raw
}

#[test]
fn classifies_dualsense_over_usb_as_ready() {
    let d = descriptor(0x0ce6, BusType::Usb, None);
    let typed = TypedDevice::make_device(&d).unwrap();
    assert_eq!(typed.controller_type, ControllerType::DualSense);
    assert_eq!(typed.conn_type, ConnType::Usb);
    assert_eq!(typed.ready_state, ReadyState::Ready);
    assert_eq!(typed.device, &d);
}

#[test]
fn classifies_dualsense_over_bluetooth_as_not_ready() {
    let d = descriptor(0x0ce6, BusType::Bluetooth, Some("a1b2"));
    let typed = TypedDevice::make_device(&d).unwrap();
    assert_eq!(typed.controller_type, ControllerType::DualSense);
    assert_eq!(typed.conn_type, ConnType::Bluetooth);
    assert_eq!(typed.ready_state, ReadyState::NotReady);
}

#[test]
fn classifies_every_supported_model() {
    let models = [
        (0x0ce6u16, ControllerType::DualSense),
        (0x0df2u16, ControllerType::DualSenseEdge),
        (0x05c4u16, ControllerType::DualShock4),
        (0x09ccu16, ControllerType::DualShock4Slim),
    ];
    for (product_id, model) in models {
        for (bus, conn) in [(BusType::Usb, ConnType::Usb), (BusType::Bluetooth, ConnType::Bluetooth)]
        {
            let d = descriptor(product_id, bus, None);
            let typed = TypedDevice::make_device(&d).unwrap();
            assert_eq!(typed.controller_type, model);
            assert_eq!(typed.conn_type, conn);
        }
    }
}

#[test]
fn other_vendor_is_not_a_controller() {
    for product_id in [0x0ce6u16, 0x0df2u16, 0x05c4u16, 0x09ccu16, 0x0000u16] {
        for bus in [BusType::Usb, BusType::Bluetooth, BusType::Unknown] {
            let d = DeviceDescriptor {
                vendor_id: 0x1234,
                product_id,
                bus_type: bus,
                serial_number: None,
            };
            assert!(TypedDevice::make_device(&d).is_none());
        }
    }
}

#[test]
fn unknown_product_is_not_a_controller() {
    let d = descriptor(0x0ce7, BusType::Usb, None);
    assert!(TypedDevice::make_device(&d).is_none());
}

#[test]
fn other_bus_is_not_a_controller() {
    for bus in [BusType::Unknown, BusType::I2c, BusType::Spi] {
        let d = descriptor(0x0ce6, bus, None);
        assert!(TypedDevice::make_device(&d).is_none());
    }
}

#[test]
fn serial_number_is_the_descriptors() {
    let with = descriptor(0x0ce6, BusType::Usb, Some("00:11:22"));
    assert_eq!(TypedDevice::make_device(&with).unwrap().serial_number(), Some("00:11:22"));
    let without = descriptor(0x0ce6, BusType::Usb, None);
    assert_eq!(TypedDevice::make_device(&without).unwrap().serial_number(), None);
}

#[test]
fn feature_report_of_each_family() {
    let mut expected = [0u8; FEATURE_REPORT_LEN];
    for (product_id, report_id) in
        [(0x0ce6u16, 0x05u8), (0x0df2u16, 0x05u8), (0x05c4u16, 0x02u8), (0x09ccu16, 0x02u8)]
    {
        let d = descriptor(product_id, BusType::Bluetooth, None);
        let typed = TypedDevice::make_device(&d).unwrap();
        expected[0] = report_id;
        assert_eq!(typed.feature_report(), expected);
        assert_eq!(typed.init_request(), Some(expected));
    }
}

#[test]
fn handshake_is_needed_over_bluetooth_until_ready() {
    let d = descriptor(0x0ce6, BusType::Bluetooth, None);
    let mut typed = TypedDevice::make_device(&d).unwrap();
    assert!(typed.needs_handshake());
    assert!(typed.init_request().is_some());
    assert!(typed.read_request().is_some());

    typed.ready_state = ReadyState::Pending;
    assert!(typed.needs_handshake());
    assert!(typed.init_request().is_some());
    assert!(typed.read_request().is_none());

    typed.ready_state = ReadyState::Ready;
    assert!(!typed.needs_handshake());
    assert!(typed.init_request().is_none());
    assert!(typed.read_request().is_none());
}

#[test]
fn handshake_is_never_needed_over_usb() {
    let d = descriptor(0x05c4, BusType::Usb, None);
    let mut typed = TypedDevice::make_device(&d).unwrap();
    for state in [ReadyState::Ready, ReadyState::Pending, ReadyState::NotReady] {
        typed.ready_state = state;
        assert!(!typed.needs_handshake());
        assert!(typed.init_request().is_none());
        assert!(typed.read_request().is_none());
        assert_eq!(typed.init_device(Ok(())), Ok(()));
        assert_eq!(typed.ready_state, state);
    }
}

#[test]
fn init_moves_bluetooth_device_to_pending() {
    let d = descriptor(0x0ce6, BusType::Bluetooth, None);
    let mut typed = TypedDevice::make_device(&d).unwrap();
    assert_eq!(typed.init_device(Ok(())), Ok(()));
    assert_eq!(typed.ready_state, ReadyState::Pending);
    assert_eq!(typed.init_device(Ok(())), Ok(()));
    assert_eq!(typed.ready_state, ReadyState::Pending);
}

#[test]
fn init_of_a_ready_device_changes_nothing() {
    let d = descriptor(0x0ce6, BusType::Bluetooth, None);
    let mut typed = TypedDevice::make_device(&d).unwrap();
    typed.ready_state = ReadyState::Ready;
    assert_eq!(typed.init_device(Err(DeviceError::NotFound)), Ok(()));
    assert_eq!(typed.ready_state, ReadyState::Ready);
}

#[test]
fn failed_handshake_is_the_error_and_changes_nothing() {
    let d = descriptor(0x0ce6, BusType::Bluetooth, None);
    let mut typed = TypedDevice::make_device(&d).unwrap();
    assert_eq!(typed.init_device(Err(DeviceError::NotFound)), Err(DeviceError::NotFound));
    assert_eq!(typed.ready_state, ReadyState::NotReady);
    let failed = DeviceError::Transfer("timed out".to_owned());
    assert_eq!(typed.init_device(Err(failed.clone())), Err(failed));
    assert_eq!(typed.ready_state, ReadyState::NotReady);
}

#[test]
fn handshake_then_full_report_then_other_report() {
    let d = descriptor(0x0ce6, BusType::Bluetooth, Some("sn"));
    let mut typed = TypedDevice::make_device(&d).unwrap();
    assert_eq!(typed.ready_state, ReadyState::NotReady);

    assert_eq!(typed.init_device(Ok(())), Ok(()));
    assert_eq!(typed.ready_state, ReadyState::Pending);

    let full = buffer(0x31, &[(54, 0x28), (55, 0x20)]);
    let controller = typed.read_controller(Ok(&full)).unwrap();
    assert!(controller.status.is_some());
    assert_eq!(typed.ready_state, ReadyState::Ready);

    let other = buffer(0x01, &[(54, 0x28), (55, 0x20)]);
    let controller = typed.read_controller(Ok(&other)).unwrap();
    assert_eq!(
        controller,
        Controller {
            serial_number: Some("sn".to_owned()),
            type_: ControllerType::DualSense,
            conn_type: ConnType::Bluetooth,
            status: None,
        }
    );
    assert_eq!(typed.ready_state, ReadyState::NotReady);
}

#[test]
fn pending_device_without_full_report_is_not_ready() {
    let d = descriptor(0x05c4, BusType::Bluetooth, None);
    let mut typed = TypedDevice::make_device(&d).unwrap();
    typed.ready_state = ReadyState::Pending;
    let reduced = buffer(0x01, &[]);
    let controller = typed.read_controller(Ok(&reduced)).unwrap();
    assert_eq!(controller.status, None);
    assert_eq!(typed.ready_state, ReadyState::NotReady);
}

#[test]
fn round_trip_dualsense_usb() {
    let d = descriptor(0x0ce6, BusType::Usb, Some("usb-sn"));
    let mut typed = TypedDevice::make_device(&d).unwrap();
    let raw = buffer(0x01, &[(53, 0x15), (54, 0x70)]);
    let controller = typed.read_controller(Ok(&raw)).unwrap();
    assert_eq!(
        controller,
        Controller {
            serial_number: Some("usb-sn".to_owned()),
            type_: ControllerType::DualSense,
            conn_type: ConnType::Usb,
            status: Some(ControllerStatus {
                plug: PlugState {
                    headphones: true,
                    mic: true,
                    usb_power: true,
                    ..PlugState::default()
                },
                battery: Battery {
                    state: ChargeState::Charging,
                    level: Level { numerator: 5, denominator: 8 },
                },
            }),
        }
    );
    assert_eq!(typed.ready_state, ReadyState::Ready);
}

#[test]
fn round_trip_dualsense_bluetooth() {
    let d = descriptor(0x0df2, BusType::Bluetooth, None);
    let mut typed = TypedDevice::make_device(&d).unwrap();
    let raw = buffer(0x31, &[(54, 0x2F), (55, 0x80)]);
    let status = typed.read_controller(Ok(&raw)).unwrap().status.unwrap();
    assert_eq!(
        status,
        ControllerStatus {
            plug: PlugState { plugged_unk1: true, ..PlugState::default() },
            battery: Battery {
                state: ChargeState::Full,
                level: Level { numerator: 8, denominator: 8 },
            },
        }
    );
    assert_eq!(typed.ready_state, ReadyState::Ready);
}

#[test]
fn round_trip_ds4_usb() {
    let d = descriptor(0x05c4, BusType::Usb, None);
    let mut typed = TypedDevice::make_device(&d).unwrap();
    let raw = buffer(0x01, &[(30, 0x07)]);
    let status = typed.read_controller(Ok(&raw)).unwrap().status.unwrap();
    assert_eq!(
        status,
        ControllerStatus {
            plug: PlugState { headphones: true, mic: true, muted: true, ..PlugState::default() },
            battery: Battery {
                state: ChargeState::Discharging,
                level: Level { numerator: 7, denominator: 8 },
            },
        }
    );
}

#[test]
fn round_trip_ds4_bluetooth() {
    let d = descriptor(0x09cc, BusType::Bluetooth, None);
    let mut typed = TypedDevice::make_device(&d).unwrap();
    let raw = buffer(0x11, &[(33, 0x5A)]);
    let status = typed.read_controller(Ok(&raw)).unwrap().status.unwrap();
    assert_eq!(
        status,
        ControllerStatus {
            plug: PlugState {
                mic: true,
                usb_data: true,
                usb_power: true,
                plugged_dock: true,
                ..PlugState::default()
            },
            battery: Battery {
                state: ChargeState::Charging,
                level: Level { numerator: 10, denominator: 11 },
            },
        }
    );
    assert_eq!(typed.ready_state, ReadyState::Ready);
}

#[test]
fn round_trip_of_every_status_byte() {
    let cases = [
        (0x0ce6u16, BusType::Usb, 0x01u8, 53usize, 54usize, true),
        (0x0ce6u16, BusType::Bluetooth, 0x31u8, 54usize, 55usize, true),
        (0x05c4u16, BusType::Usb, 0x01u8, 30usize, 30usize, false),
        (0x05c4u16, BusType::Bluetooth, 0x11u8, 33usize, 33usize, false),
    ];
    for (product_id, bus, report_id, battery_at, plug_at, dualsense) in cases {
        let d = descriptor(product_id, bus, None);
        for byte in 0u8..=255 {
            let mut typed = TypedDevice::make_device(&d).unwrap();
            let other: u8 = if dualsense { byte.wrapping_mul(7) } else { byte };
            let raw = buffer(report_id, &[(battery_at, byte), (plug_at, other)]);
            let status = typed.read_controller(Ok(&raw)).unwrap().status.unwrap();
            if dualsense {
                assert_eq!(status.battery, read_battery_state_dualsense(byte));
                assert_eq!(status.plug, read_plug_state_dualsense(other));
            } else {
                assert_eq!(status.battery, read_battery_state_ds4(byte));
                assert_eq!(status.plug, read_plug_state_ds4(other));
            }
        }
    }
}

#[test]
fn failed_read_is_the_error_and_changes_nothing() {
    let d = descriptor(0x0ce6, BusType::Bluetooth, None);
    let mut typed = TypedDevice::make_device(&d).unwrap();
    typed.ready_state = ReadyState::Pending;
    assert_eq!(typed.read_controller(Err(DeviceError::NotFound)), Err(DeviceError::NotFound));
    assert_eq!(typed.ready_state, ReadyState::Pending);
    let failed = DeviceError::Transfer("read failed".to_owned());
    assert_eq!(typed.read_controller(Err(failed.clone())), Err(failed));
    assert_eq!(typed.ready_state, ReadyState::Pending);
}

#[test]
fn short_read_is_malformed_and_changes_nothing() {
    let d = descriptor(0x0ce6, BusType::Bluetooth, None);
    let mut typed = TypedDevice::make_device(&d).unwrap();
    typed.ready_state = ReadyState::Pending;
    let raw = buffer(0x31, &[]);
    assert_eq!(
        typed.read_controller(Ok(&raw[..77])),
        Err(DeviceError::Malformed(ShortReport { needed: 78, len: 77 }))
    );
    assert_eq!(typed.ready_state, ReadyState::Pending);
    // Too short is an error whatever the first byte says.
    let raw = buffer(0x01, &[]);
    assert_eq!(
        typed.read_controller(Ok(&raw[..10])),
        Err(DeviceError::Malformed(ShortReport { needed: 78, len: 10 }))
    );
    assert_eq!(typed.ready_state, ReadyState::Pending);
}

#[test]
fn usb_device_stays_ready() {
    let d = descriptor(0x0ce6, BusType::Usb, None);
    let mut typed = TypedDevice::make_device(&d).unwrap();
    for report_id in [0x00u8, 0x01u8, 0x31u8, 0xFFu8] {
        assert_eq!(typed.init_device(Ok(())), Ok(()));
        let raw = buffer(report_id, &[]);
        assert!(typed.read_controller(Ok(&raw)).unwrap().status.is_some());
        assert_eq!(typed.ready_state, ReadyState::Ready);
    }
}

#[test]
fn filter_without_list_selects_every_controller() {
    let filter = DeviceFilterer { serial_numbers: None };
    let with = descriptor(0x0ce6, BusType::Usb, Some("one"));
    let without = descriptor(0x05c4, BusType::Bluetooth, None);
    assert_eq!(filter.predicate(&with).unwrap().controller_type, ControllerType::DualSense);
    let typed = filter.predicate(&without).unwrap();
    assert_eq!(typed.controller_type, ControllerType::DualShock4);
    assert_eq!(typed.conn_type, ConnType::Bluetooth);
    assert_eq!(typed.ready_state, ReadyState::NotReady);
}

#[test]
fn filter_rejects_what_is_not_a_controller() {
    let list = vec!["one".to_owned()];
    let other = DeviceDescriptor {
        vendor_id: 0x1234,
        product_id: 0x0ce6,
        bus_type: BusType::Usb,
        serial_number: Some("one".to_owned()),
    };
    assert!(DeviceFilterer { serial_numbers: None }.predicate(&other).is_none());
    assert!(DeviceFilterer { serial_numbers: Some(&list) }.predicate(&other).is_none());
    let spi = descriptor(0x0ce6, BusType::Spi, Some("one"));
    assert!(DeviceFilterer { serial_numbers: Some(&list) }.predicate(&spi).is_none());
}

#[test]
fn filter_with_list_selects_listed_serial_numbers_only() {
    let list = vec!["one".to_owned(), "two".to_owned()];
    let filter = DeviceFilterer { serial_numbers: Some(&list) };
    let one = descriptor(0x0ce6, BusType::Usb, Some("one"));
    let two = descriptor(0x0ce6, BusType::Bluetooth, Some("two"));
    let three = descriptor(0x0ce6, BusType::Usb, Some("three"));
    let prefix = descriptor(0x0ce6, BusType::Usb, Some("on"));
    let upper = descriptor(0x0ce6, BusType::Usb, Some("ONE"));
    let nameless = descriptor(0x0ce6, BusType::Usb, None);
    assert_eq!(filter.predicate(&one).unwrap().serial_number(), Some("one"));
    assert_eq!(filter.predicate(&two).unwrap().ready_state, ReadyState::NotReady);
    assert!(filter.predicate(&three).is_none());
    assert!(filter.predicate(&prefix).is_none());
    assert!(filter.predicate(&upper).is_none());
    assert!(filter.predicate(&nameless).is_none());
}

#[test]
fn filter_with_empty_list_selects_nothing() {
    let list: Vec<String> = Vec::new();
    let filter = DeviceFilterer { serial_numbers: Some(&list) };
    assert!(filter.predicate(&descriptor(0x0ce6, BusType::Usb, Some("one"))).is_none());
    assert!(filter.predicate(&descriptor(0x0ce6, BusType::Usb, None)).is_none());
}

#[test]
fn listed_serial_numbers() {
    let list = vec!["a".to_owned(), "b".to_owned(), "".to_owned()];
    assert!(is_listed(&list, &"a".to_owned()));
    assert!(is_listed(&list, &"b".to_owned()));
    assert!(is_listed(&list, &"".to_owned()));
    assert!(!is_listed(&list, &"c".to_owned()));
    assert!(!is_listed(&[], &"a".to_owned()));
}
