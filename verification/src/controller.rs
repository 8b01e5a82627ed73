//! Controller models, transports and the readiness of a device.

use vstd::prelude::*;

verus! {

/// The controller models whose reports are understood.
#[derive(PartialEq, Eq, Structural, Debug, Clone, Copy)]
pub enum ControllerType {
    DualSense,
    DualSenseEdge,
    DualShock4,
    DualShock4Slim,
}

/// Models that share one report format.
#[derive(PartialEq, Eq, Structural, Debug, Clone, Copy)]
pub enum Family {
    DualSense,
    DualShock4,
}

/// The transport a controller is attached through.
#[derive(Debug, Clone, Copy, PartialEq, Eq, Structural, PartialOrd, Ord, Hash)]
pub enum ConnType {
    Bluetooth,
    Usb,
}

/// Whether a device is known to send full input reports.
#[derive(PartialEq, Eq, Structural, Debug, Clone, Copy)]
pub enum ReadyState {
    /// The last read produced a report.
    Ready,
    /// The handshake was sent and no read has confirmed it yet.
    Pending,
    /// No handshake was sent, or the last read produced no report.
    NotReady,
}

impl ControllerType {
    /// The report format of this model.
    pub open spec fn spec_family(self) -> Family {
        match self {
            ControllerType::DualSense | ControllerType::DualSenseEdge => Family::DualSense,
            ControllerType::DualShock4 | ControllerType::DualShock4Slim => Family::DualShock4,
        }
    }

    /// The report format of this model.
    #[verifier::when_used_as_spec(spec_family)]
    pub fn family(self) -> (f: Family)
        ensures
            f == self.spec_family(),
    {
        match self {
            ControllerType::DualSense | ControllerType::DualSenseEdge => Family::DualSense,
            ControllerType::DualShock4 | ControllerType::DualShock4Slim => Family::DualShock4,
        }
    }

    /// The name a model is shown under. Both DualShock 4 models share one.
    pub open spec fn spec_name(self) -> Seq<char> {
        match self {
            ControllerType::DualSense => "Dualsense"@,
            ControllerType::DualSenseEdge => "Dualsense Edge"@,
            ControllerType::DualShock4 | ControllerType::DualShock4Slim => "DualShock 4"@,
        }
    }

    /// The name this model is shown under.
    pub fn name(self) -> (s: String)
        ensures
            s@ == self.spec_name(),
    {
        match self {
            ControllerType::DualSense => "Dualsense".to_owned(),
            ControllerType::DualSenseEdge => "Dualsense Edge".to_owned(),
            ControllerType::DualShock4 | ControllerType::DualShock4Slim => "DualShock 4".to_owned(),
        }
    }
}

} // verus!
