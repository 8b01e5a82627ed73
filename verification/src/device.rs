//! Classified devices, the handshake that makes a Bluetooth controller send
//! full reports, and the decoding of what one read returned.
//!
//! A [`TypedDevice`] never touches the transport. It says which transfer is
//! due, and takes what the transfer gave as a plain value.

use vstd::prelude::*;

use crate::battery::{spec_read_battery_state_ds4, spec_read_battery_state_dualsense, Battery};
use crate::controller::{ConnType, ControllerType, Family, ReadyState};
use crate::layout::{spec_accepts_report_id, spec_report_layout, spec_required_len};
use crate::plug::{spec_read_plug_state_ds4, spec_read_plug_state_dualsense, PlugState};
use crate::report::{get_report, holds_report, Report, ShortReport};

verus! {

/// The vendor ID of every supported controller.
pub const VENDOR_ID: u16 = 0x054c;

pub const PRODUCT_ID_DUALSENSE: u16 = 0x0ce6;

pub const PRODUCT_ID_DSEDGE: u16 = 0x0DF2;

pub const PRODUCT_ID_DS4: u16 = 0x05C4;

pub const PRODUCT_ID_DS4SLIM: u16 = 0x09CC;

/// Length of the feature report that the handshake transfers.
pub const FEATURE_REPORT_LEN: usize = 64;

/// The feature report that a DualSense answers by sending full reports.
pub const DS_FEATURE_REPORT_ID: u8 = 0x05;

/// The feature report that a DualShock 4 answers by sending full reports.
pub const DS4_FEATURE_REPORT_ID: u8 = 0x02;

/// The bus a HID device is attached to.
#[derive(Debug, Clone, Copy, PartialEq, Eq, Structural)]
pub enum BusType {
    Unknown,
    Usb,
    Bluetooth,
    I2c,
    Spi,
}

/// What the enumeration of HID devices tells about one device.
#[derive(Debug, Clone, PartialEq, Eq)]
pub struct DeviceDescriptor {
    pub vendor_id: u16,
    pub product_id: u16,
    pub bus_type: BusType,
    pub serial_number: Option<String>,
}

/// Why a device could not be initialised or read.
#[derive(Debug, Clone, PartialEq, Eq)]
pub enum DeviceError {
    /// The device could not be opened.
    NotFound,
    /// A transfer failed or timed out. Holds the transport's message.
    Transfer(String),
    /// The read returned fewer bytes than a report needs.
    Malformed(ShortReport),
}

/// Plug and battery state of a controller.
#[derive(Debug, Clone, Copy, PartialEq, Eq, Structural)]
pub struct ControllerStatus {
    pub plug: PlugState,
    pub battery: Battery,
}

/// What one read told about a controller.
#[derive(Debug, Clone, PartialEq, Eq)]
pub struct Controller {
    pub serial_number: Option<String>,
    pub type_: ControllerType,
    pub conn_type: ConnType,
    /// `None` where the read produced no full report: the device is not
    /// ready yet, and the read is to be repeated.
    pub status: Option<ControllerStatus>,
}

/// A device that was recognised as a supported controller.
pub struct TypedDevice<'a> {
    pub controller_type: ControllerType,
    /// What the enumeration told about the device.
    pub device: &'a DeviceDescriptor,
    pub ready_state: ReadyState,
    pub conn_type: ConnType,
}

/// The model behind a pair of vendor and product ID.
pub open spec fn spec_controller_type(vendor_id: u16, product_id: u16) -> Option<ControllerType> {
    if vendor_id != 0x054c {
        None
    } else if product_id == 0x0ce6 {
        Some(ControllerType::DualSense)
    } else if product_id == 0x05c4 {
        Some(ControllerType::DualShock4)
    } else if product_id == 0x09cc {
        Some(ControllerType::DualShock4Slim)
    } else if product_id == 0x0df2 {
        Some(ControllerType::DualSenseEdge)
    } else {
        None
    }
}

/// The transport behind a bus, where reports can be read over it.
pub open spec fn spec_conn_type(bus_type: BusType) -> Option<ConnType> {
    match bus_type {
        BusType::Bluetooth => Some(ConnType::Bluetooth),
        BusType::Usb => Some(ConnType::Usb),
        _ => None,
    }
}

/// The readiness of a device that was just classified. Over USB no
/// handshake is needed.
pub open spec fn initial_ready_state(conn_type: ConnType) -> ReadyState {
    match conn_type {
        ConnType::Bluetooth => ReadyState::NotReady,
        ConnType::Usb => ReadyState::Ready,
    }
}

/// The ID of the feature report that the handshake transfers.
pub open spec fn spec_feature_report_id(controller_type: ControllerType) -> u8 {
    match controller_type.family() {
        Family::DualSense => 0x05,
        Family::DualShock4 => 0x02,
    }
}

/// The buffer of the handshake: the report ID, then zeros.
pub open spec fn spec_feature_report(controller_type: ControllerType) -> Seq<u8> {
    Seq::new(
        64,
        |i: int|
            if i == 0 {
                spec_feature_report_id(controller_type)
            } else {
                0u8
            },
    )
}

/// The battery state that a status byte means in the given report format.
pub open spec fn battery_of(family: Family, battery_byte: u8) -> Battery {
    match family {
        Family::DualSense => spec_read_battery_state_dualsense(battery_byte),
        Family::DualShock4 => spec_read_battery_state_ds4(battery_byte),
    }
}

/// The plug state that a status byte means in the given report format.
pub open spec fn plug_of(family: Family, plug_byte: u8) -> PlugState {
    match family {
        Family::DualSense => spec_read_plug_state_dualsense(plug_byte),
        Family::DualShock4 => spec_read_plug_state_ds4(plug_byte),
    }
}

/// The status that the bytes of one read hold: the two status bytes at
/// their places in the raw buffer, decoded, where the buffer holds a full
/// report.
pub open spec fn spec_status(raw: Seq<u8>, family: Family, conn_type: ConnType) -> Option<
    ControllerStatus,
> {
    let layout = spec_report_layout(family, conn_type);
    if holds_report(raw, family, conn_type) {
        Some(
            ControllerStatus {
                plug: plug_of(family, raw[layout.raw_plug_index()]),
                battery: battery_of(family, raw[layout.raw_battery_index()]),
            },
        )
    } else {
        None
    }
}

/// The readiness after a read that was long enough.
pub open spec fn ready_state_after(status: Option<ControllerStatus>) -> ReadyState {
    if status is Some {
        ReadyState::Ready
    } else {
        ReadyState::NotReady
    }
}

impl<'a> TypedDevice<'a> {
    /// Model and transport are those of the descriptor.
    pub open spec fn wf(&self) -> bool {
        &&& spec_controller_type(self.device.vendor_id, self.device.product_id)
            == Some(self.controller_type)
        &&& spec_conn_type(self.device.bus_type) == Some(self.conn_type)
    }

    /// This device is what classification makes of `device`.
    pub open spec fn classified_from(&self, device: DeviceDescriptor) -> bool {
        &&& *self.device == device
        &&& self.wf()
        &&& self.ready_state == initial_ready_state(self.conn_type)
    }

    /// Whether `device` is a supported controller on a supported bus.
    pub open spec fn supported(device: DeviceDescriptor) -> bool {
        &&& spec_controller_type(device.vendor_id, device.product_id) is Some
        &&& spec_conn_type(device.bus_type) is Some
    }

    /// Classifies a device. Devices of other vendors or models, and
    /// devices on another bus than USB or Bluetooth, are not controllers.
    pub fn make_device(device: &'a DeviceDescriptor) -> (res: Option<Self>)
        ensures
            res is Some <==> Self::supported(*device),
            res matches Some(typed) ==> typed.classified_from(*device),
    {
        if device.vendor_id != VENDOR_ID {
            return None;
        }
        let controller_type = if device.product_id == PRODUCT_ID_DUALSENSE {
            ControllerType::DualSense
        } else if device.product_id == PRODUCT_ID_DS4 {
            ControllerType::DualShock4
        } else if device.product_id == PRODUCT_ID_DS4SLIM {
            ControllerType::DualShock4Slim
        } else if device.product_id == PRODUCT_ID_DSEDGE {
            ControllerType::DualSenseEdge
        } else {
            return None;
        };
        let (conn_type, ready_state) = match device.bus_type {
            BusType::Bluetooth => (ConnType::Bluetooth, ReadyState::NotReady),
            BusType::Usb => (ConnType::Usb, ReadyState::Ready),
            _ => return None,
        };

        Some(TypedDevice { controller_type, device, ready_state, conn_type })
    }

    /// The serial number of the device, where the enumeration gave one.
    pub fn serial_number(&self) -> (res: Option<&str>)
        ensures
            res is Some <==> self.device.serial_number is Some,
            res matches Some(s) ==> s@ == self.device.serial_number->0@,
    {
        match &self.device.serial_number {
            Some(s) => Some(s.as_str()),
            None => None,
        }
    }

    /// Whether initialising the device takes a handshake: only over
    /// Bluetooth, and only until a read has produced a report.
    pub open spec fn spec_needs_handshake(&self) -> bool {
        self.ready_state != ReadyState::Ready && self.conn_type == ConnType::Bluetooth
    }

    /// Whether initialising the device takes a handshake.
    #[verifier::when_used_as_spec(spec_needs_handshake)]
    pub fn needs_handshake(&self) -> (b: bool)
        ensures
            b == self.spec_needs_handshake(),
    {
        self.ready_state != ReadyState::Ready && self.conn_type == ConnType::Bluetooth
    }

    /// The feature report that the handshake transfers.
    pub fn feature_report(&self) -> (report: [u8; FEATURE_REPORT_LEN])
        ensures
            report@ == spec_feature_report(self.controller_type),
    {
        let report_id: u8 = match self.controller_type {
            ControllerType::DualSense | ControllerType::DualSenseEdge => DS_FEATURE_REPORT_ID,
            ControllerType::DualShock4 | ControllerType::DualShock4Slim => DS4_FEATURE_REPORT_ID,
        };
        let mut buf = [0u8; FEATURE_REPORT_LEN];
        buf[0] = report_id;
        assert(buf@ =~= spec_feature_report(self.controller_type));
        buf
    }

    /// What initialising the device asks of the transport: to open the
    /// device and transfer this feature report, or, with `None`, nothing.
    pub fn init_request(&self) -> (req: Option<[u8; FEATURE_REPORT_LEN]>)
        ensures
            req is Some <==> self.needs_handshake(),
            req matches Some(report) ==> report@ == spec_feature_report(self.controller_type),
    {
        if self.needs_handshake() {
            Some(self.feature_report())
        } else {
            None
        }
    }

    /// The device after `init_device`, where `delivered` tells whether the
    /// transfer of the feature report succeeded.
    pub open spec fn after_init(self, delivered: bool) -> TypedDevice<'a> {
        if self.needs_handshake() && delivered {
            TypedDevice { ready_state: ReadyState::Pending, ..self }
        } else {
            self
        }
    }

    /// Initialises the device, given in `transfer` how the transport fared
    /// with `init_request`.
    ///
    /// Where no handshake is needed, `transfer` is not looked at and
    /// nothing changes. Otherwise a transfer that succeeded leaves the
    /// device pending, and one that failed leaves it as it was and is
    /// handed back as the error.
    pub fn init_device(&mut self, transfer: Result<(), DeviceError>) -> (res: Result<
        (),
        DeviceError,
    >)
        ensures
            *final(self) == old(self).after_init(transfer is Ok),
            !old(self).needs_handshake() ==> res is Ok,
            old(self).needs_handshake() ==> res == transfer,
    {
        if !self.needs_handshake() {
            return Ok(());
        }
        if transfer.is_ok() {
            self.ready_state = ReadyState::Pending;
        }
        transfer
    }

    /// Whether a read begins by initialising the device.
    pub open spec fn spec_read_starts_with_init(&self) -> bool {
        self.ready_state == ReadyState::NotReady
    }

    /// What a read asks of the transport before the read itself: the
    /// handshake of `init_request` where the device is not ready, else
    /// nothing. The outcome of the transfer goes to `init_device`.
    pub fn read_request(&self) -> (req: Option<[u8; FEATURE_REPORT_LEN]>)
        ensures
            req is Some <==> self.spec_read_starts_with_init() && self.needs_handshake(),
            req matches Some(report) ==> report@ == spec_feature_report(self.controller_type),
    {
        if self.ready_state == ReadyState::NotReady {
            self.init_request()
        } else {
            None
        }
    }

    /// The error of a read that returned `len` bytes, where that is too
    /// few for a report.
    pub open spec fn short_read(&self, len: nat) -> Option<ShortReport> {
        let needed = spec_required_len(self.controller_type.family(), self.conn_type);
        if len < needed {
            Some(ShortReport { needed, len: len as usize })
        } else {
            None
        }
    }

    /// The status that a read which returned `raw` shows.
    pub open spec fn status_of(&self, raw: Seq<u8>) -> Option<ControllerStatus> {
        spec_status(raw, self.controller_type.family(), self.conn_type)
    }

    /// The device after `read_controller`, where the read returned `raw`.
    pub open spec fn after_read(self, raw: Seq<u8>) -> TypedDevice<'a> {
        if self.short_read(raw.len()) is Some {
            self
        } else {
            TypedDevice { ready_state: ready_state_after(self.status_of(raw)), ..self }
        }
    }

    /// Decodes what one read of `BUF_SIZE` bytes returned, given in `read`.
    ///
    /// A read that failed is handed back as the error, and a buffer that is
    /// too short for a report is an error too; neither changes the device.
    /// A buffer without a full report makes the device not ready and gives
    /// a controller without status. A full report makes the device ready
    /// and gives the status it holds.
    pub fn read_controller(&mut self, read: Result<&[u8], DeviceError>) -> (res: Result<
        Controller,
        DeviceError,
    >)
        ensures
            match read {
                Err(e) => {
                    &&& res == Err::<Controller, DeviceError>(e)
                    &&& *final(self) == *old(self)
                },
                Ok(raw) => {
                    &&& *final(self) == old(self).after_read(raw@)
                    &&& match old(self).short_read(raw@.len()) {
                        Some(short) => res == Err::<Controller, DeviceError>(
                            DeviceError::Malformed(short),
                        ),
                        None => {
                            &&& res matches Ok(controller)
                            &&& controller.serial_number == old(self).device.serial_number
                            &&& controller.type_ == old(self).controller_type
                            &&& controller.conn_type == old(self).conn_type
                            &&& controller.status == old(self).status_of(raw@)
                        },
                    }
                },
            },
    {
        let raw = match read {
            Ok(raw) => raw,
            Err(e) => {
                return Err(e);
            },
        };
        let status = match get_report(raw, self.conn_type, self.controller_type) {
            Err(short) => {
                return Err(DeviceError::Malformed(short));
            },
            Ok(Some(report)) => {
                self.ready_state = ReadyState::Ready;

                let plug = report.get_plug();
                let battery = report.get_battery();
                Some(ControllerStatus { plug, battery })
            },
            Ok(None) => {
                self.ready_state = ReadyState::NotReady;
                None
            },
        };
        let serial_number = match &self.device.serial_number {
            Some(s) => Some(s.clone()),
            None => None,
        };
        Ok(
            Controller {
                serial_number,
                conn_type: self.conn_type,
                type_: self.controller_type,
                status,
            },
        )
    }
}

/// A device is a supported controller exactly when it has the vendor ID
/// of the controllers, one of their four product IDs, and is attached over
/// USB or Bluetooth. Once classified it is ready over USB and not ready
/// over Bluetooth.
pub proof fn lemma_classification(device: DeviceDescriptor, typed: TypedDevice)
    ensures
        TypedDevice::supported(device) <==> {
            &&& device.vendor_id == 0x054c
            &&& (device.product_id == 0x0ce6 || device.product_id == 0x0df2 || device.product_id
                == 0x05c4 || device.product_id == 0x09cc)
            &&& (device.bus_type == BusType::Usb || device.bus_type == BusType::Bluetooth)
        },
        typed.classified_from(device) ==> {
            &&& TypedDevice::supported(device)
            &&& (typed.conn_type == ConnType::Usb <==> device.bus_type == BusType::Usb)
            &&& (typed.ready_state == ReadyState::Ready <==> typed.conn_type == ConnType::Usb)
            &&& (typed.ready_state == ReadyState::NotReady <==> typed.conn_type
                == ConnType::Bluetooth)
            &&& (typed.controller_type.family() == Family::DualSense <==> (device.product_id
                == 0x0ce6 || device.product_id == 0x0df2))
        },
{
}

/// Where the battery byte and the plug byte lie in the raw buffer of one
/// read, in that order.
pub open spec fn status_positions(family: Family, conn_type: ConnType) -> (int, int) {
    match (family, conn_type) {
        (Family::DualSense, ConnType::Usb) => (53, 54),
        (Family::DualSense, ConnType::Bluetooth) => (54, 55),
        (Family::DualShock4, ConnType::Usb) => (30, 30),
        (Family::DualShock4, ConnType::Bluetooth) => (33, 33),
    }
}

/// A raw buffer that holds a full report, with `battery_byte` and
/// `plug_byte` at their places, decodes to what the two bytes mean, both as
/// the status of the read and through the report that is carved from it.
pub proof fn lemma_status_round_trip(
    raw: Seq<u8>,
    family: Family,
    conn_type: ConnType,
    battery_byte: u8,
    plug_byte: u8,
    report: Report,
)
    requires
        holds_report(raw, family, conn_type),
        raw[status_positions(family, conn_type).0] == battery_byte,
        raw[status_positions(family, conn_type).1] == plug_byte,
        report.carved_from(raw, family, conn_type),
    ensures
        spec_status(raw, family, conn_type) == Some(
            ControllerStatus {
                plug: plug_of(family, plug_byte),
                battery: battery_of(family, battery_byte),
            },
        ),
        report.spec_get_battery() == battery_of(family, battery_byte),
        report.spec_get_plug() == plug_of(family, plug_byte),
{
}

/// A Bluetooth device that is not ready is pending once its handshake was
/// delivered. A read that then returns a full report makes it ready, and a
/// later read that is long enough and begins with another report ID makes
/// it not ready again.
pub proof fn lemma_handshake_then_reads(device: TypedDevice, full: Seq<u8>, other: Seq<u8>)
    requires
        device.ready_state == ReadyState::NotReady,
        device.conn_type == ConnType::Bluetooth,
        holds_report(full, device.controller_type.family(), device.conn_type),
        other.len() >= spec_required_len(device.controller_type.family(), device.conn_type),
        !spec_accepts_report_id(device.controller_type.family(), device.conn_type, other[0]),
    ensures
        device.after_init(true).ready_state == ReadyState::Pending,
        device.after_init(true).after_read(full).ready_state == ReadyState::Ready,
        device.after_init(true).after_read(full).after_read(other).ready_state
            == ReadyState::NotReady,
{
}

/// The handshake and a read change nothing of a device but its readiness,
/// and a read never leaves a device pending unless it was too short.
pub proof fn lemma_steps_keep_classification(device: TypedDevice, delivered: bool, raw: Seq<u8>)
    ensures
        device.after_init(delivered) == (TypedDevice {
            ready_state: device.after_init(delivered).ready_state,
            ..device
        }),
        device.after_read(raw) == (TypedDevice {
            ready_state: device.after_read(raw).ready_state,
            ..device
        }),
        device.wf() ==> device.after_init(delivered).wf() && device.after_read(raw).wf(),
        device.after_init(delivered).ready_state == ReadyState::NotReady ==> device.ready_state
            == ReadyState::NotReady,
        device.short_read(raw.len()) is None ==> device.after_read(raw).ready_state
            != ReadyState::Pending,
        device.short_read(raw.len()) is None ==> (device.after_read(raw).ready_state
            == ReadyState::Ready <==> holds_report(
            raw,
            device.controller_type.family(),
            device.conn_type,
        )),
{
}

/// A device on USB is ready from its classification on: it needs no
/// handshake, and every read that is long enough gives a status.
pub proof fn lemma_usb_stays_ready(device: TypedDevice, delivered: bool, raw: Seq<u8>)
    requires
        device.conn_type == ConnType::Usb,
        device.ready_state == ReadyState::Ready,
    ensures
        !device.needs_handshake(),
        device.after_init(delivered) == device,
        device.after_read(raw) == device,
        device.short_read(raw.len()) is None ==> device.status_of(raw) is Some,
{
}

} // verus!
