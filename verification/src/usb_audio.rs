//! Choosing the audio output from the USB audio detection pin.
use vstd::prelude::*;

use vstd::std_specs::convert::FromSpecImpl;

verus! {

/// Where sound goes.
#[derive(Debug, Clone, Copy, PartialEq, Eq, Structural)]
pub enum AudioOutput {
    Usb,
    InternalSpeaker,
}

/// The output that a reading of the detection pin selects: a low pin means a
/// USB audio device is present.
pub open spec fn output_for_value(value: u8) -> AudioOutput {
    if value == 0 {
        AudioOutput::Usb
    } else {
        AudioOutput::InternalSpeaker
    }
}

impl From<u8> for AudioOutput {
    /// `0` is USB audio; any other reading is the internal speaker.
    fn from(value: u8) -> (out: AudioOutput) {
        match value {
            0 => AudioOutput::Usb,
            _ => AudioOutput::InternalSpeaker,
        }
    }
}

impl FromSpecImpl<u8> for AudioOutput {
    open spec fn obeys_from_spec() -> bool {
        true
    }

    open spec fn from_spec(v: u8) -> AudioOutput {
        output_for_value(v)
    }
}

impl AudioOutput {
    /// The value written to the output selection pin: `0` for USB, `1` for
    /// the internal speaker.
    pub open spec fn pin_value(self) -> u8 {
        match self {
            AudioOutput::Usb => 0,
            AudioOutput::InternalSpeaker => 1,
        }
    }

    /// The value to write to the output selection pin.
    pub fn gpio_value(&self) -> (v: u8)
        ensures
            v == self.pin_value(),
    {
        match self {
            AudioOutput::Usb => 0,
            AudioOutput::InternalSpeaker => 1,
        }
    }

    /// The name of the output, as shown in the log.
    pub open spec fn spec_label(self) -> Seq<char> {
        match self {
            AudioOutput::Usb => "USB Audio"@,
            AudioOutput::InternalSpeaker => "Internal Speaker"@,
        }
    }

    /// The name of the output, as shown in the log.
    pub fn label(&self) -> (s: String)
        ensures
            s@ == self.spec_label(),
    {
        match self {
            AudioOutput::Usb => String::from_str("USB Audio"),
            AudioOutput::InternalSpeaker => String::from_str("Internal Speaker"),
        }
    }
}

/// The output to switch to after a reading of the detection pin: the one the
/// value selects, or none when the pin could not be read.
pub fn output_for_reading(reading: Option<u8>) -> (out: Option<AudioOutput>)
    ensures
        match reading {
            Some(v) => out == Some(output_for_value(v)),
            None => out is None,
        },
{
    match reading {
        Some(v) => Some(AudioOutput::from(v)),
        None => None,
    }
}

/// Writing an output's pin value and reading it back selects the same output.
pub proof fn lemma_pin_value_roundtrip(out: AudioOutput)
    ensures
        output_for_value(out.pin_value()) == out,
{
}

} // verus!
