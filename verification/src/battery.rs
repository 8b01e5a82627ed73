//! Decoding of the battery status byte.

use vstd::prelude::*;

verus! {

/// What the battery is doing.
#[derive(Debug, Clone, Copy, PartialEq, Eq, Structural)]
pub enum ChargeState {
    Discharging,
    Charging,
    Full,
    ChargingError,
    AbnormalVoltage,
    AbnormalTemp,
    Unknown,
}

/// A charge level, as the fraction `numerator / denominator` of a full
/// battery.
#[derive(Debug, Clone, Copy, PartialEq, Eq, Structural)]
pub struct Level {
    pub numerator: u8,
    pub denominator: u8,
}

/// Charge state and level of a battery.
#[derive(Debug, Clone, Copy, PartialEq, Eq, Structural)]
pub struct Battery {
    pub state: ChargeState,
    pub level: Level,
}

impl Level {
    /// The fraction is defined.
    pub open spec fn wf(self) -> bool {
        self.denominator > 0
    }

    /// The fraction lies between zero and one.
    pub open spec fn in_unit_range(self) -> bool {
        self.wf() && self.numerator <= self.denominator
    }
}

impl ChargeState {
    /// The state's name, as it is shown.
    pub open spec fn spec_name(self) -> Seq<char> {
        match self {
            ChargeState::Discharging => "Discharging"@,
            ChargeState::Charging => "Charging"@,
            ChargeState::Full => "Full"@,
            ChargeState::ChargingError => "ChargingError"@,
            ChargeState::AbnormalVoltage => "AbnormalVoltage"@,
            ChargeState::AbnormalTemp => "AbnormalTemp"@,
            ChargeState::Unknown => "Unknown"@,
        }
    }

    /// The state's name, as it is shown.
    pub fn name(&self) -> (s: String)
        ensures
            s@ == self.spec_name(),
    {
        match self {
            ChargeState::Discharging => "Discharging".to_owned(),
            ChargeState::Charging => "Charging".to_owned(),
            ChargeState::Full => "Full".to_owned(),
            ChargeState::ChargingError => "ChargingError".to_owned(),
            ChargeState::AbnormalVoltage => "AbnormalVoltage".to_owned(),
            ChargeState::AbnormalTemp => "AbnormalTemp".to_owned(),
            ChargeState::Unknown => "Unknown".to_owned(),
        }
    }
}

/// The four low bits of a status byte.
pub open spec fn low_nibble(byte: u8) -> u8 {
    byte & 0x0F
}

/// The four high bits of a status byte.
pub open spec fn high_nibble(byte: u8) -> u8 {
    byte >> 4
}

/// The charge state that a DualSense encodes in the high nibble.
pub open spec fn charge_state_of_nibble(nibble: u8) -> ChargeState {
    if nibble == 0x0 {
        ChargeState::Discharging
    } else if nibble == 0x1 {
        ChargeState::Charging
    } else if nibble == 0x2 {
        ChargeState::Full
    } else if nibble == 0xF {
        ChargeState::ChargingError
    } else if nibble == 0xA {
        ChargeState::AbnormalVoltage
    } else if nibble == 0xB {
        ChargeState::AbnormalTemp
    } else {
        ChargeState::Unknown
    }
}

/// What a DualSense battery byte means: the low nibble, capped at 8, in
/// eighths, and the state from the high nibble.
pub open spec fn spec_read_battery_state_dualsense(battery_byte: u8) -> Battery {
    Battery {
        state: charge_state_of_nibble(high_nibble(battery_byte)),
        level: Level {
            numerator: if low_nibble(battery_byte) < 8 {
                low_nibble(battery_byte)
            } else {
                8
            },
            denominator: 8,
        },
    }
}

/// What a DualShock 4 battery byte means. Bit 4 tells whether the cable is
/// plugged in. Without the cable the low nibble counts eighths, with it
/// elevenths.
pub open spec fn spec_read_battery_state_ds4(battery_byte: u8) -> Battery {
    if battery_byte & 0x10 == 0 {
        Battery {
            state: ChargeState::Discharging,
            level: Level { numerator: low_nibble(battery_byte), denominator: 8 },
        }
    } else {
        Battery {
            state: ChargeState::Charging,
            level: Level { numerator: low_nibble(battery_byte), denominator: 11 },
        }
    }
}

/// Decodes the battery byte of a DualSense report.
#[verifier::when_used_as_spec(spec_read_battery_state_dualsense)]
pub fn read_battery_state_dualsense(battery_byte: u8) -> (battery: Battery)
    ensures
        battery == spec_read_battery_state_dualsense(battery_byte),
        battery.level.in_unit_range(),
{
    let level_byte: u8 = battery_byte & 0x0F;
    let level: u8 = if level_byte < 8 {
        level_byte
    } else {
        8
    };
    let state_byte: u8 = battery_byte >> 4;

    let state = match state_byte {
        0x0 => ChargeState::Discharging,
        0x1 => ChargeState::Charging,
        0x2 => ChargeState::Full,
        0x0f => ChargeState::ChargingError,
        0x0A => ChargeState::AbnormalVoltage,
        0x0b => ChargeState::AbnormalTemp,
        _ => ChargeState::Unknown,
    };
    Battery { state, level: Level { numerator: level, denominator: 8 } }
}

/// Decodes the battery byte of a DualShock 4 report.
#[verifier::when_used_as_spec(spec_read_battery_state_ds4)]
pub fn read_battery_state_ds4(battery_byte: u8) -> (battery: Battery)
    ensures
        battery == spec_read_battery_state_ds4(battery_byte),
        battery.level.wf(),
{
    let level_byte: u8 = battery_byte & 0x0F;
    if battery_byte & 0x10 == 0 {
        Battery {
            state: ChargeState::Discharging,
            level: Level { numerator: level_byte, denominator: 8 },
        }
    } else {
        Battery {
            state: ChargeState::Charging,
            level: Level { numerator: level_byte, denominator: 11 },
        }
    }
}

/// The nibbles of a byte are its remainder and its quotient by sixteen,
/// and bit 4 is set when that quotient is odd.
pub proof fn lemma_nibbles(byte: u8)
    ensures
        low_nibble(byte) == byte % 16,
        high_nibble(byte) == byte / 16,
        (byte & 0x10 == 0) <==> (byte / 16) % 2 == 0,
{
    assert(byte & 0x0F == byte % 16) by (bit_vector);
    assert(byte >> 4 == byte / 16) by (bit_vector);
    assert((byte & 0x10 == 0) <==> (byte / 16) % 2 == 0) by (bit_vector);
}

/// The level of a DualSense is the low nibble capped at 8, in eighths, and
/// so never more than a full battery.
pub proof fn lemma_dualsense_level(battery_byte: u8)
    ensures
        spec_read_battery_state_dualsense(battery_byte).level.denominator == 8,
        spec_read_battery_state_dualsense(battery_byte).level.numerator == vstd::math::min(
            8,
            (battery_byte % 16) as int,
        ),
        0 <= spec_read_battery_state_dualsense(battery_byte).level.numerator <= 8,
        spec_read_battery_state_dualsense(battery_byte).level.in_unit_range(),
{
    lemma_nibbles(battery_byte);
}

/// A DualShock 4 without the cable is discharging and counts eighths; with
/// the cable it is charging and counts elevenths. The level is the low
/// nibble as it stands, so it is no more than a full battery only while the
/// nibble is no more than the denominator.
pub proof fn lemma_ds4_level(battery_byte: u8)
    ensures
        (battery_byte / 16) % 2 == 0 ==> spec_read_battery_state_ds4(battery_byte) == (Battery {
            state: ChargeState::Discharging,
            level: Level { numerator: battery_byte % 16, denominator: 8 },
        }),
        (battery_byte / 16) % 2 == 1 ==> spec_read_battery_state_ds4(battery_byte) == (Battery {
            state: ChargeState::Charging,
            level: Level { numerator: battery_byte % 16, denominator: 11 },
        }),
        spec_read_battery_state_ds4(battery_byte).level.wf(),
        spec_read_battery_state_ds4(battery_byte).level.in_unit_range() <==> battery_byte % 16
            <= spec_read_battery_state_ds4(battery_byte).level.denominator,
{
    lemma_nibbles(battery_byte);
}

} // verus!
