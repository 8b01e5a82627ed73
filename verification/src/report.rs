//! Carving the logical report out of a raw read buffer.

use vstd::prelude::*;

use crate::battery::{
    read_battery_state_ds4, read_battery_state_dualsense, spec_read_battery_state_ds4,
    spec_read_battery_state_dualsense, Battery,
};
use crate::controller::{ConnType, ControllerType, Family};
use crate::layout::{
    accepts_report_id, report_layout, required_len, spec_accepts_report_id, spec_report_layout,
    spec_required_len, BT_EXTRA_LEN, DS4_REPORT_LEN, DS4_STATUS_INDEX, DS_BATTERY_INDEX,
    DS_PLUG_INDEX, REPORT_LEN,
};
use crate::plug::{
    read_plug_state_ds4, read_plug_state_dualsense, spec_read_plug_state_ds4,
    spec_read_plug_state_dualsense, PlugState,
};

verus! {

/// The logical report of one read, by report format and transport.
#[derive(Debug, PartialEq, Eq)]
pub enum Report {
    /// A DualSense report over Bluetooth, and the block that trails it.
    DsBluetooth([u8; REPORT_LEN], [u8; BT_EXTRA_LEN]),
    DsUSB([u8; REPORT_LEN]),
    D4Bluetooth([u8; DS4_REPORT_LEN]),
    D4USB([u8; DS4_REPORT_LEN]),
}

/// A raw buffer holds fewer bytes than the report layout needs.
#[derive(Debug, Clone, Copy, PartialEq, Eq, Structural)]
pub struct ShortReport {
    /// Number of bytes the layout needs.
    pub needed: usize,
    /// Number of bytes the buffer holds.
    pub len: usize,
}

impl Report {
    /// The report format.
    pub open spec fn family(&self) -> Family {
        match self {
            Report::DsBluetooth(_, _) | Report::DsUSB(_) => Family::DualSense,
            Report::D4Bluetooth(_) | Report::D4USB(_) => Family::DualShock4,
        }
    }

    /// The transport the report came over.
    pub open spec fn conn_type(&self) -> ConnType {
        match self {
            Report::DsBluetooth(_, _) | Report::D4Bluetooth(_) => ConnType::Bluetooth,
            Report::DsUSB(_) | Report::D4USB(_) => ConnType::Usb,
        }
    }

    /// The bytes of the logical report.
    pub open spec fn body(&self) -> Seq<u8> {
        match self {
            Report::DsBluetooth(body, _) => body@,
            Report::DsUSB(body) => body@,
            Report::D4Bluetooth(body) => body@,
            Report::D4USB(body) => body@,
        }
    }

    /// The bytes of the block that trails the logical report.
    pub open spec fn extra(&self) -> Seq<u8> {
        match self {
            Report::DsBluetooth(_, extra) => extra@,
            _ => Seq::empty(),
        }
    }

    /// This report is the one that the layout table cuts out of `raw` for
    /// the given format and transport.
    pub open spec fn carved_from(&self, raw: Seq<u8>, family: Family, conn_type: ConnType) -> bool {
        let layout = spec_report_layout(family, conn_type);
        &&& self.family() == family
        &&& self.conn_type() == conn_type
        &&& self.body() == raw.subrange(layout.offset as int, layout.offset + layout.len)
        &&& self.extra() == raw.subrange(layout.offset + layout.len, layout.required_len())
    }

    /// The plug state that the report holds.
    pub open spec fn spec_get_plug(&self) -> PlugState {
        let layout = spec_report_layout(self.family(), self.conn_type());
        match self.family() {
            Family::DualSense => spec_read_plug_state_dualsense(
                self.body()[layout.plug_index as int],
            ),
            Family::DualShock4 => spec_read_plug_state_ds4(self.body()[layout.plug_index as int]),
        }
    }

    /// The battery state that the report holds.
    pub open spec fn spec_get_battery(&self) -> Battery {
        let layout = spec_report_layout(self.family(), self.conn_type());
        match self.family() {
            Family::DualSense => spec_read_battery_state_dualsense(
                self.body()[layout.battery_index as int],
            ),
            Family::DualShock4 => spec_read_battery_state_ds4(
                self.body()[layout.battery_index as int],
            ),
        }
    }

    /// Decodes the plug byte of the report.
    #[verifier::when_used_as_spec(spec_get_plug)]
    pub fn get_plug(&self) -> (plug: PlugState)
        ensures
            plug == self.spec_get_plug(),
    {
        match self {
            Report::DsUSB(ds_report) | Report::DsBluetooth(ds_report, _) => {
                read_plug_state_dualsense(ds_report[DS_PLUG_INDEX])
            },
            Report::D4Bluetooth(d4_report) | Report::D4USB(d4_report) => {
                read_plug_state_ds4(d4_report[DS4_STATUS_INDEX])
            },
        }
    }

    /// Decodes the battery byte of the report.
    #[verifier::when_used_as_spec(spec_get_battery)]
    pub fn get_battery(&self) -> (battery: Battery)
        ensures
            battery == self.spec_get_battery(),
    {
        match self {
            Report::DsUSB(ds_report) | Report::DsBluetooth(ds_report, _) => {
                read_battery_state_dualsense(ds_report[DS_BATTERY_INDEX])
            },
            Report::D4Bluetooth(d4_report) | Report::D4USB(d4_report) => {
                read_battery_state_ds4(d4_report[DS4_STATUS_INDEX])
            },
        }
    }
}

/// Copies `N` bytes of `raw`, from index `start` on, into an array.
fn carve<const N: usize>(raw: &[u8], start: usize) -> (out: [u8; N])
    requires
        start + N <= raw.len(),
    ensures
        out@ == raw@.subrange(start as int, start + N),
{
    let mut out = [0u8; N];
    let mut i: usize = 0;
    while i < N
        invariant
            i <= N,
            start + N <= raw.len(),
            forall|j: int| 0 <= j < i ==> out@[j] == raw@[start + j],
        decreases N - i,
    {
        out[i] = raw[start + i];
        i = i + 1;
    }
    out
}

/// Whether `raw` holds a full report for the given format and transport:
/// it is long enough and begins with a report ID that marks a full report.
pub open spec fn holds_report(raw: Seq<u8>, family: Family, conn_type: ConnType) -> bool {
    &&& raw.len() >= spec_required_len(family, conn_type)
    &&& spec_accepts_report_id(family, conn_type, raw[0])
}

/// Carves the logical report out of the bytes of one read.
///
/// A buffer shorter than the layout needs is an error, whatever it holds.
/// A buffer that is long enough and whose first byte does not mark a full
/// report yields `None`: the device is not sending full reports yet.
pub fn get_report(raw_report: &[u8], conn_type: ConnType, controller_type: ControllerType) -> (res:
    Result<Option<Report>, ShortReport>)
    ensures
        match res {
            Err(e) => {
                &&& raw_report@.len() < spec_required_len(controller_type.family(), conn_type)
                &&& e.needed == spec_required_len(controller_type.family(), conn_type)
                &&& e.len == raw_report@.len()
            },
            Ok(None) => {
                &&& raw_report@.len() >= spec_required_len(controller_type.family(), conn_type)
                &&& !spec_accepts_report_id(controller_type.family(), conn_type, raw_report@[0])
            },
            Ok(Some(report)) => {
                &&& holds_report(raw_report@, controller_type.family(), conn_type)
                &&& report.carved_from(raw_report@, controller_type.family(), conn_type)
            },
        },
{
    let family = controller_type.family();
    let needed: usize = required_len(family, conn_type);
    if raw_report.len() < needed {
        return Err(ShortReport { needed, len: raw_report.len() });
    }
    if !accepts_report_id(family, conn_type, raw_report[0]) {
        return Ok(None);
    }
    let layout = report_layout(family, conn_type);
    assert(raw_report@.subrange(needed as int, needed as int) == Seq::<u8>::empty());
    Ok(
        Some(
            match (family, conn_type) {
                (Family::DualSense, ConnType::Bluetooth) => Report::DsBluetooth(
                    carve(raw_report, layout.offset),
                    carve(raw_report, layout.offset + layout.len),
                ),
                (Family::DualSense, ConnType::Usb) => Report::DsUSB(
                    carve(raw_report, layout.offset),
                ),
                (Family::DualShock4, ConnType::Usb) => Report::D4USB(
                    carve(raw_report, layout.offset),
                ),
                (Family::DualShock4, ConnType::Bluetooth) => Report::D4Bluetooth(
                    carve(raw_report, layout.offset),
                ),
            },
        ),
    )
}

/// A raw buffer holds at most one report: the layout table fixes every
/// byte of what is carved from it.
pub proof fn lemma_carved_report_is_unique(
    a: Report,
    b: Report,
    raw: Seq<u8>,
    family: Family,
    conn_type: ConnType,
)
    requires
        a.carved_from(raw, family, conn_type),
        b.carved_from(raw, family, conn_type),
    ensures
        a == b,
{
    match (a, b) {
        (Report::DsBluetooth(body_a, extra_a), Report::DsBluetooth(body_b, extra_b)) => {
            assert(body_a =~= body_b);
            assert(extra_a =~= extra_b);
        },
        (Report::DsUSB(body_a), Report::DsUSB(body_b)) => {
            assert(body_a =~= body_b);
        },
        (Report::D4Bluetooth(body_a), Report::D4Bluetooth(body_b)) => {
            assert(body_a =~= body_b);
        },
        (Report::D4USB(body_a), Report::D4USB(body_b)) => {
            assert(body_a =~= body_b);
        },
        _ => {},
    }
}

} // verus!
