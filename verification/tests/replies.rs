use steady_rs::{CommandFault, SteadyError, SteadyReply};

#[test]
fn firmware_id() {
    assert_eq!(SteadyReply::from_str("Gstartok123"), Ok(SteadyReply { firmware_id: 123 }));
    assert_eq!(SteadyReply::from_str("Gstartok0"), Ok(SteadyReply { firmware_id: 0 }));
    assert_eq!(SteadyReply::from_str("Gstartok255"), Ok(SteadyReply { firmware_id: 255 }));
    assert_eq!(SteadyReply::from_str("Gstartok007"), Ok(SteadyReply { firmware_id: 7 }));
    assert_eq!(SteadyReply::from_str("Gstartok+42"), Ok(SteadyReply { firmware_id: 42 }));
}

#[test]
fn reply_without_number() {
    assert_eq!(SteadyReply::from_str("Gstartokabc"), Err(SteadyError::InvalidReply));
    assert_eq!(SteadyReply::from_str("Gstartok"), Err(SteadyError::InvalidReply));
    assert_eq!(SteadyReply::from_str("Gstartok+"), Err(SteadyError::InvalidReply));
    assert_eq!(SteadyReply::from_str("Gstartok12a"), Err(SteadyError::InvalidReply));
    assert_eq!(SteadyReply::from_str("Gstartok 12"), Err(SteadyError::InvalidReply));
    assert_eq!(SteadyReply::from_str("Gstartok12\n"), Err(SteadyError::InvalidReply));
}

#[test]
fn reply_out_of_range() {
    assert_eq!(SteadyReply::from_str("Gstartok256"), Err(SteadyError::InvalidReply));
    assert_eq!(SteadyReply::from_str("Gstartok-1"), Err(SteadyError::InvalidReply));
    assert_eq!(SteadyReply::from_str("Gstartok-0"), Err(SteadyError::InvalidReply));
    assert_eq!(
        SteadyReply::from_str("Gstartok99999999999999999999999"),
        Err(SteadyError::InvalidReply)
    );
}

#[test]
fn reply_with_another_prefix() {
    assert_eq!(SteadyReply::from_str(""), Err(SteadyError::InvalidReply));
    assert_eq!(SteadyReply::from_str("123"), Err(SteadyError::InvalidReply));
    assert_eq!(SteadyReply::from_str("gstartok123"), Err(SteadyError::InvalidReply));
    assert_eq!(SteadyReply::from_str(" Gstartok123"), Err(SteadyError::InvalidReply));
    assert_eq!(SteadyReply::from_str("Gstarto123"), Err(SteadyError::InvalidReply));
    assert_eq!(SteadyReply::from_str("Gstartfail"), Err(SteadyError::InvalidReply));
}

#[test]
fn every_firmware_id() {
    for id in 0..=255u8 {
        assert_eq!(
            SteadyReply::from_str(&format!("Gstartok{}", id)),
            Ok(SteadyReply { firmware_id: id })
        );
    }
    for above in 256..1000u32 {
        assert_eq!(
            SteadyReply::from_str(&format!("Gstartok{}", above)),
            Err(SteadyError::InvalidReply)
        );
    }
}

#[test]
fn messages() {
    assert_eq!(SteadyError::PacketTooShort.message(), "packet too short");
    assert_eq!(
        SteadyError::PacketTooShortForVariant.message(),
        "packet too short for its rolling message"
    );
    assert_eq!(SteadyError::MissingMetadataSection.message(), "missing metadata section");
    assert_eq!(
        SteadyError::UnsupportedFraming.message(),
        "unsupported framing: no binary packet"
    );
    assert_eq!(SteadyError::InvalidReply.message(), "invalid reply");
    assert_eq!(
        SteadyError::MalformedMetadata("Grssi?".to_string()).message(),
        "malformed metadata token: Grssi?"
    );
    assert_eq!(
        SteadyError::InvalidCommandFormat(CommandFault::UnknownBand(7)).message(),
        "invalid band value: 7"
    );
    assert_eq!(CommandFault::UnknownBand(255).message(), "invalid band value: 255");
    assert_eq!(CommandFault::UnknownBand(40).message(), "invalid band value: 40");
    assert_eq!(
        CommandFault::UnexpectedText.message(),
        "invalid command format: unexpected text"
    );
    assert_eq!(CommandFault::MissingBand.message(), "missing band value");
    assert_eq!(CommandFault::BandNotDigit.message(), "invalid band character");
    assert_eq!(CommandFault::UnknownBandName.message(), "invalid band string");
    assert_eq!(CommandFault::BadChannel.message(), "invalid channel format");
    assert_eq!(
        CommandFault::MissingNewline.message(),
        "missing newline at the end of the command"
    );
    assert_eq!(CommandFault::ChannelOutOfRange.message(), "channel value out of range");
    assert_eq!(CommandFault::UnknownDevice.message(), "invalid device name");
}
