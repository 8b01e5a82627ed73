//! Where the logical report and its status bytes lie in a raw read buffer,
//! for each report format and transport.

use vstd::prelude::*;

use crate::controller::{ConnType, Family};

verus! {

/// Size of the buffer one read fills.
pub const BUF_SIZE: usize = 200;

/// How long one read may block, in milliseconds.
pub const READ_TIMEOUT_MS: i32 = 1000;

/// Length of a DualSense report.
pub const REPORT_LEN: usize = 63;

/// Length of a DualShock 4 report.
pub const DS4_REPORT_LEN: usize = 33;

/// Length of the block that trails a DualSense report over Bluetooth.
pub const BT_EXTRA_LEN: usize = 13;

pub const DS4_BT_OFFSET: usize = 4;

pub const DS4_USB_OFFSET: usize = 1;

pub const DS_BT_OFFSET: usize = 2;

pub const DS_USB_OFFSET: usize = 1;

/// Index of the battery byte in a DualSense report.
pub const DS_BATTERY_INDEX: usize = 52;

/// Index of the plug byte in a DualSense report.
pub const DS_PLUG_INDEX: usize = 53;

/// Index of the byte that holds both battery and plug status in a
/// DualShock 4 report.
pub const DS4_STATUS_INDEX: usize = 29;

/// The report ID of a full DualSense report over Bluetooth.
pub const DS_BT_REPORT_ID: u8 = 0x31;

/// The report ID of the reduced report that a DualShock 4 sends over
/// Bluetooth until it has been initialised.
pub const DS4_BT_REDUCED_REPORT_ID: u8 = 0x01;

/// One row of the layout table.
#[derive(Debug, Clone, Copy, PartialEq, Eq, Structural)]
pub struct ReportLayout {
    /// Index in the raw buffer at which the logical report begins.
    pub offset: usize,
    /// Length of the logical report.
    pub len: usize,
    /// Length of the block that follows the logical report.
    pub extra_len: usize,
    /// Index of the battery byte within the logical report.
    pub battery_index: usize,
    /// Index of the plug byte within the logical report.
    pub plug_index: usize,
}

impl ReportLayout {
    /// Number of bytes a raw buffer must hold for this layout.
    pub open spec fn required_len(self) -> int {
        self.offset + self.len + self.extra_len
    }

    /// Index of the battery byte in the raw buffer.
    pub open spec fn raw_battery_index(self) -> int {
        self.offset + self.battery_index
    }

    /// Index of the plug byte in the raw buffer.
    pub open spec fn raw_plug_index(self) -> int {
        self.offset + self.plug_index
    }

    /// Both status bytes lie inside the logical report.
    pub open spec fn wf(self) -> bool {
        &&& self.battery_index < self.len
        &&& self.plug_index < self.len
    }
}

/// The layout table.
pub open spec fn spec_report_layout(family: Family, conn_type: ConnType) -> ReportLayout {
    match (family, conn_type) {
        (Family::DualSense, ConnType::Usb) => ReportLayout {
            offset: 1,
            len: 63,
            extra_len: 0,
            battery_index: 52,
            plug_index: 53,
        },
        (Family::DualSense, ConnType::Bluetooth) => ReportLayout {
            offset: 2,
            len: 63,
            extra_len: 13,
            battery_index: 52,
            plug_index: 53,
        },
        (Family::DualShock4, ConnType::Usb) => ReportLayout {
            offset: 1,
            len: 33,
            extra_len: 0,
            battery_index: 29,
            plug_index: 29,
        },
        (Family::DualShock4, ConnType::Bluetooth) => ReportLayout {
            offset: 4,
            len: 33,
            extra_len: 0,
            battery_index: 29,
            plug_index: 29,
        },
    }
}

/// Looks up the row of the layout table.
#[verifier::when_used_as_spec(spec_report_layout)]
pub fn report_layout(family: Family, conn_type: ConnType) -> (layout: ReportLayout)
    ensures
        layout == spec_report_layout(family, conn_type),
{
    match family {
        Family::DualSense => {
            let (offset, extra_len) = match conn_type {
                ConnType::Usb => (DS_USB_OFFSET, 0),
                ConnType::Bluetooth => (DS_BT_OFFSET, BT_EXTRA_LEN),
            };
            ReportLayout {
                offset,
                len: REPORT_LEN,
                extra_len,
                battery_index: DS_BATTERY_INDEX,
                plug_index: DS_PLUG_INDEX,
            }
        },
        Family::DualShock4 => {
            let offset = match conn_type {
                ConnType::Usb => DS4_USB_OFFSET,
                ConnType::Bluetooth => DS4_BT_OFFSET,
            };
            ReportLayout {
                offset,
                len: DS4_REPORT_LEN,
                extra_len: 0,
                battery_index: DS4_STATUS_INDEX,
                plug_index: DS4_STATUS_INDEX,
            }
        },
    }
}

/// Number of bytes a raw buffer must hold before a report is carved from it.
pub open spec fn spec_required_len(family: Family, conn_type: ConnType) -> usize {
    spec_report_layout(family, conn_type).required_len() as usize
}

/// Number of bytes a raw buffer must hold before a report is carved from it.
#[verifier::when_used_as_spec(spec_required_len)]
pub fn required_len(family: Family, conn_type: ConnType) -> (n: usize)
    ensures
        n == spec_required_len(family, conn_type),
        n == spec_report_layout(family, conn_type).required_len(),
{
    let layout = report_layout(family, conn_type);
    layout.offset + layout.len + layout.extra_len
}

/// Whether a raw buffer that begins with `report_id` holds a full report.
///
/// Over Bluetooth a DualSense marks the full report with one ID, and a
/// DualShock 4 marks the reduced report with another. Over USB every
/// report is full.
pub open spec fn spec_accepts_report_id(
    family: Family,
    conn_type: ConnType,
    report_id: u8,
) -> bool {
    match (family, conn_type) {
        (Family::DualSense, ConnType::Bluetooth) => report_id == 0x31,
        (Family::DualShock4, ConnType::Bluetooth) => report_id != 0x01,
        (_, ConnType::Usb) => true,
    }
}

/// Whether a raw buffer that begins with `report_id` holds a full report.
#[verifier::when_used_as_spec(spec_accepts_report_id)]
pub fn accepts_report_id(family: Family, conn_type: ConnType, report_id: u8) -> (ok: bool)
    ensures
        ok == spec_accepts_report_id(family, conn_type, report_id),
{
    match conn_type {
        ConnType::Usb => true,
        ConnType::Bluetooth => match family {
            Family::DualSense => report_id == DS_BT_REPORT_ID,
            Family::DualShock4 => report_id != DS4_BT_REDUCED_REPORT_ID,
        },
    }
}

/// Every row of the table keeps its status bytes inside the logical report
/// and fits the buffer that one read fills.
pub proof fn lemma_layout_fits(family: Family, conn_type: ConnType)
    ensures
        spec_report_layout(family, conn_type).wf(),
        spec_report_layout(family, conn_type).required_len() <= BUF_SIZE,
{
}

} // verus!
