//! Decoding of the plug status byte, and its rendering as text.

use vstd::prelude::*;

use crate::text::{join, spec_join, views};

verus! {

/// Which accessories and cables are attached to a controller.
#[derive(Debug, Clone, Copy, PartialEq, Eq, Structural, PartialOrd, Ord, Hash)]
pub struct PlugState {
    pub headphones: bool,
    pub mic: bool,
    pub muted: bool,
    pub usb_data: bool,
    pub usb_power: bool,
    /// A flag that the hardware reports and whose meaning is not known.
    pub plugged_unk1: bool,
    pub plugged_dock: bool,
}

impl Default for PlugState {
    fn default() -> (p: Self)
        ensures
            p == PlugState::none(),
    {
        PlugState {
            headphones: false,
            mic: false,
            muted: false,
            usb_data: false,
            usb_power: false,
            plugged_unk1: false,
            plugged_dock: false,
        }
    }
}

/// What a DualShock 4 plug byte means: bits 0 to 6 are the seven flags, in
/// the order of the fields.
pub open spec fn spec_read_plug_state_ds4(plug_byte: u8) -> PlugState {
    PlugState {
        headphones: plug_byte & 0x01 != 0,
        mic: plug_byte & 0x02 != 0,
        muted: plug_byte & 0x04 != 0,
        usb_data: plug_byte & 0x08 != 0,
        usb_power: plug_byte & 0x10 != 0,
        plugged_unk1: plug_byte & 0x20 != 0,
        plugged_dock: plug_byte & 0x40 != 0,
    }
}

/// What a DualSense plug byte means: bit 4 is USB power, bit 5 the
/// headphones, bit 6 the microphone and bit 7 the unknown flag. The other
/// flags cannot be observed and are never set.
pub open spec fn spec_read_plug_state_dualsense(plug_byte: u8) -> PlugState {
    PlugState {
        headphones: plug_byte & 0x20 != 0,
        mic: plug_byte & 0x40 != 0,
        muted: false,
        usb_data: false,
        usb_power: plug_byte & 0x10 != 0,
        plugged_unk1: plug_byte & 0x80 != 0,
        plugged_dock: false,
    }
}

/// Decodes the plug byte of a DualShock 4 report.
#[verifier::when_used_as_spec(spec_read_plug_state_ds4)]
pub fn read_plug_state_ds4(plug_byte: u8) -> (plug: PlugState)
    ensures
        plug == spec_read_plug_state_ds4(plug_byte),
{
    let headphones = (plug_byte & 0x01) != 0;
    let mic = (plug_byte & 0x02) != 0;
    let muted = (plug_byte & 0x04) != 0;
    let usb_data = (plug_byte & 0x08) != 0;
    let usb_power = (plug_byte & 0x10) != 0;
    let plugged_unk1 = (plug_byte & 0x20) != 0;
    let plugged_dock = (plug_byte & 0x40) != 0;
    PlugState { headphones, mic, muted, usb_data, usb_power, plugged_unk1, plugged_dock }
}

/// Decodes the plug byte of a DualSense report.
#[verifier::when_used_as_spec(spec_read_plug_state_dualsense)]
pub fn read_plug_state_dualsense(plug_byte: u8) -> (plug: PlugState)
    ensures
        plug == spec_read_plug_state_dualsense(plug_byte),
{
    let usb_power = (plug_byte & 0x10) != 0;
    let headphones = (plug_byte & 0x20) != 0;
    let mic = (plug_byte & 0x40) != 0;

    let plugged_unk1 = (plug_byte & 0x80) != 0;
    PlugState {
        headphones,
        mic,
        muted: false,
        usb_data: false,
        usb_power,
        plugged_unk1,
        plugged_dock: false,
    }
}

impl PlugState {
    /// Nothing is plugged in.
    pub open spec fn none() -> PlugState {
        PlugState {
            headphones: false,
            mic: false,
            muted: false,
            usb_data: false,
            usb_power: false,
            plugged_unk1: false,
            plugged_dock: false,
        }
    }

    /// The phrases for the flags that are set, in the order in which they
    /// are shown. The unknown flag and the dock share one phrase.
    pub open spec fn phrases(self) -> Seq<Seq<char>> {
        let p0 = Seq::<Seq<char>>::empty();
        let p1 = if self.headphones {
            p0.push("headphones plugged"@)
        } else {
            p0
        };
        let p2 = if self.mic {
            p1.push("mic plugged"@)
        } else {
            p1
        };
        let p3 = if self.muted {
            p2.push("mic muted"@)
        } else {
            p2
        };
        let p4 = if self.usb_data {
            p3.push("data usb plugged"@)
        } else {
            p3
        };
        let p5 = if self.usb_power {
            p4.push("power usb plugged"@)
        } else {
            p4
        };
        if self.plugged_unk1 || self.plugged_dock {
            p5.push("power docked"@)
        } else {
            p5
        }
    }

    /// The text a plug state is shown as: its phrases joined by `"; "`, or
    /// `"None"` where no flag is set.
    pub open spec fn spec_summary(self) -> Seq<char> {
        if self.phrases().len() == 0 {
            "None"@
        } else {
            spec_join(self.phrases(), "; "@)
        }
    }

    /// The text this plug state is shown as.
    pub fn summary(&self) -> (s: String)
        ensures
            s@ == self.spec_summary(),
    {
        let mut out: Vec<&'static str> = Vec::new();
        if self.headphones {
            push_phrase(&mut out, "headphones plugged");
        }
        if self.mic {
            push_phrase(&mut out, "mic plugged");
        }
        if self.muted {
            push_phrase(&mut out, "mic muted");
        }
        if self.usb_data {
            push_phrase(&mut out, "data usb plugged");
        }
        if self.usb_power {
            push_phrase(&mut out, "power usb plugged");
        }
        if self.plugged_unk1 || self.plugged_dock {
            push_phrase(&mut out, "power docked");
        }
        assert(views(out@) == self.phrases());
        if out.is_empty() {
            "None".to_owned()
        } else {
            join(&out, "; ")
        }
    }
}

/// Appends one phrase to the list that `summary` joins.
fn push_phrase(out: &mut Vec<&'static str>, phrase: &'static str)
    ensures
        views(final(out)@) == views(old(out)@).push(phrase@),
{
    out.push(phrase);
}

/// Flipping bit `bit` of a DualShock 4 plug byte changes the flag that is
/// read from that bit and no other flag. Bit 7 carries no flag.
pub proof fn lemma_ds4_bit_flip(plug_byte: u8, bit: u8)
    requires
        bit < 8,
    ensures
        ({
            let before = spec_read_plug_state_ds4(plug_byte);
            let after = spec_read_plug_state_ds4(plug_byte ^ (1u8 << bit));
            &&& after.headphones == (before.headphones != (bit == 0))
            &&& after.mic == (before.mic != (bit == 1))
            &&& after.muted == (before.muted != (bit == 2))
            &&& after.usb_data == (before.usb_data != (bit == 3))
            &&& after.usb_power == (before.usb_power != (bit == 4))
            &&& after.plugged_unk1 == (before.plugged_unk1 != (bit == 5))
            &&& after.plugged_dock == (before.plugged_dock != (bit == 6))
        }),
{
    let flipped: u8 = plug_byte ^ (1u8 << bit);
    assert({
        &&& (flipped & 0x01 != 0) == ((plug_byte & 0x01 != 0) != (bit == 0))
        &&& (flipped & 0x02 != 0) == ((plug_byte & 0x02 != 0) != (bit == 1))
        &&& (flipped & 0x04 != 0) == ((plug_byte & 0x04 != 0) != (bit == 2))
        &&& (flipped & 0x08 != 0) == ((plug_byte & 0x08 != 0) != (bit == 3))
        &&& (flipped & 0x10 != 0) == ((plug_byte & 0x10 != 0) != (bit == 4))
        &&& (flipped & 0x20 != 0) == ((plug_byte & 0x20 != 0) != (bit == 5))
        &&& (flipped & 0x40 != 0) == ((plug_byte & 0x40 != 0) != (bit == 6))
    }) by (bit_vector)
        requires
            bit < 8,
            flipped == plug_byte ^ (1u8 << bit),
    ;
}

/// Flipping bit `bit` of a DualSense plug byte changes the flag that is
/// read from that bit and no other flag. Bits 0 to 3 carry no flag.
pub proof fn lemma_dualsense_bit_flip(plug_byte: u8, bit: u8)
    requires
        bit < 8,
    ensures
        ({
            let before = spec_read_plug_state_dualsense(plug_byte);
            let after = spec_read_plug_state_dualsense(plug_byte ^ (1u8 << bit));
            &&& after.headphones == (before.headphones != (bit == 5))
            &&& after.mic == (before.mic != (bit == 6))
            &&& after.muted == before.muted
            &&& after.usb_data == before.usb_data
            &&& after.usb_power == (before.usb_power != (bit == 4))
            &&& after.plugged_unk1 == (before.plugged_unk1 != (bit == 7))
            &&& after.plugged_dock == before.plugged_dock
        }),
{
    let flipped: u8 = plug_byte ^ (1u8 << bit);
    assert({
        &&& (flipped & 0x10 != 0) == ((plug_byte & 0x10 != 0) != (bit == 4))
        &&& (flipped & 0x20 != 0) == ((plug_byte & 0x20 != 0) != (bit == 5))
        &&& (flipped & 0x40 != 0) == ((plug_byte & 0x40 != 0) != (bit == 6))
        &&& (flipped & 0x80 != 0) == ((plug_byte & 0x80 != 0) != (bit == 7))
    }) by (bit_vector)
        requires
            bit < 8,
            flipped == plug_byte ^ (1u8 << bit),
    ;
}

/// Two DualShock 4 plug bytes decode to the same flags exactly when they
/// agree on bits 0 to 6.
pub proof fn lemma_ds4_plug_injective(a: u8, b: u8)
    ensures
        spec_read_plug_state_ds4(a) == spec_read_plug_state_ds4(b) <==> a & 0x7F == b & 0x7F,
{
    assert(a & 0x7F == b & 0x7F <==> {
        &&& (a & 0x01 != 0) == (b & 0x01 != 0)
        &&& (a & 0x02 != 0) == (b & 0x02 != 0)
        &&& (a & 0x04 != 0) == (b & 0x04 != 0)
        &&& (a & 0x08 != 0) == (b & 0x08 != 0)
        &&& (a & 0x10 != 0) == (b & 0x10 != 0)
        &&& (a & 0x20 != 0) == (b & 0x20 != 0)
        &&& (a & 0x40 != 0) == (b & 0x40 != 0)
    }) by (bit_vector);
}

/// Two DualSense plug bytes decode to the same flags exactly when they
/// agree on bits 4 to 7.
pub proof fn lemma_dualsense_plug_injective(a: u8, b: u8)
    ensures
        spec_read_plug_state_dualsense(a) == spec_read_plug_state_dualsense(b) <==> a & 0xF0 == b
            & 0xF0,
{
    assert(a & 0xF0 == b & 0xF0 <==> {
        &&& (a & 0x10 != 0) == (b & 0x10 != 0)
        &&& (a & 0x20 != 0) == (b & 0x20 != 0)
        &&& (a & 0x40 != 0) == (b & 0x40 != 0)
        &&& (a & 0x80 != 0) == (b & 0x80 != 0)
    }) by (bit_vector);
}

/// A plug state is shown as `"None"` exactly when no flag is set.
pub proof fn lemma_summary_none(plug: PlugState)
    ensures
        plug == PlugState::none() ==> plug.spec_summary() == "None"@,
        plug.spec_summary() == "None"@ ==> plug == PlugState::none(),
{
    if plug != PlugState::none() {
        lemma_summary_of_flags(plug);
        reveal_strlit("None");
        reveal_strlit("headphones plugged");
        reveal_strlit("mic plugged");
        reveal_strlit("mic muted");
        reveal_strlit("data usb plugged");
        reveal_strlit("power usb plugged");
        reveal_strlit("power docked");
        let first = plug.phrases()[0];
        lemma_join_starts_with_first(plug.phrases(), "; "@);
        assert(first.len() > 4);
    }
}

/// With at least one flag set, the text is the phrases joined.
proof fn lemma_summary_of_flags(plug: PlugState)
    requires
        plug != PlugState::none(),
    ensures
        plug.phrases().len() > 0,
        plug.spec_summary() == spec_join(plug.phrases(), "; "@),
        plug.phrases()[0] == "headphones plugged"@ || plug.phrases()[0] == "mic plugged"@
            || plug.phrases()[0] == "mic muted"@ || plug.phrases()[0] == "data usb plugged"@
            || plug.phrases()[0] == "power usb plugged"@ || plug.phrases()[0] == "power docked"@,
{
}

/// A joined text begins with its first part.
proof fn lemma_join_starts_with_first(parts: Seq<Seq<char>>, sep: Seq<char>)
    requires
        parts.len() > 0,
    ensures
        spec_join(parts, sep).len() >= parts[0].len(),
        spec_join(parts, sep).take(parts[0].len() as int) == parts[0],
    decreases parts.len(),
{
    if parts.len() > 1 {
        lemma_join_starts_with_first(parts.drop_last(), sep);
        assert(parts.drop_last()[0] == parts[0]);
    }
}

} // verus!
