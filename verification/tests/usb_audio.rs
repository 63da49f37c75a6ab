use allium::usb_audio::{output_for_reading, AudioOutput};

#[test]
fn zero_means_usb() {
    assert_eq!(AudioOutput::from(0u8), AudioOutput::Usb);
    let out: AudioOutput = 0u8.into();
    assert_eq!(out, AudioOutput::Usb);
}

#[test]
fn nonzero_means_internal_speaker() {
    assert_eq!(AudioOutput::from(1u8), AudioOutput::InternalSpeaker);
    assert_eq!(AudioOutput::from(255u8), AudioOutput::InternalSpeaker);
}

#[test]
fn pin_values_round_trip() {
    for out in [AudioOutput::Usb, AudioOutput::InternalSpeaker] {
        assert_eq!(AudioOutput::from(out.gpio_value()), out);
    }
    assert_eq!(AudioOutput::Usb.gpio_value(), 0);
    assert_eq!(AudioOutput::InternalSpeaker.gpio_value(), 1);
}

#[test]
fn labels() {
    assert_eq!(AudioOutput::Usb.label(), "USB Audio");
    assert_eq!(AudioOutput::InternalSpeaker.label(), "Internal Speaker");
}

#[test]
fn unreadable_pin_changes_nothing() {
    assert_eq!(output_for_reading(None), None);
    assert_eq!(output_for_reading(Some(0)), Some(AudioOutput::Usb));
    assert_eq!(output_for_reading(Some(1)), Some(AudioOutput::InternalSpeaker));
}
