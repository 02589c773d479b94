use bta30ctl::bta30::{
    Capability, CommandBuilderError, CommandDescriptor, CommandIdentity, CommandKind,
    ParameterType,
};

fn all_identities() -> Vec<CommandIdentity> {
    vec![
        CommandIdentity::DeviceVersion,
        CommandIdentity::CurrentConnectionCodec,
        CommandIdentity::BootMode,
        CommandIdentity::LedMode,
        CommandIdentity::LedPattern,
        CommandIdentity::TxLdacQualitySetting,
        CommandIdentity::SpdifVolumeAdjustmentSetting,
        CommandIdentity::UpsamplingSetting,
        CommandIdentity::VolumeSetting,
        CommandIdentity::DacLowpassSetting,
        CommandIdentity::OutputBalance,
        CommandIdentity::Name,
        CommandIdentity::InputSources,
        CommandIdentity::VolumeMode,
        CommandIdentity::EnabledCodecs,
        CommandIdentity::FactoryReset,
        CommandIdentity::PowerOff,
        CommandIdentity::ClearPairing,
    ]
}

fn all_capabilities() -> Vec<Capability> {
    vec![
        Capability::Readable,
        Capability::ModeReadable,
        Capability::Writable,
        Capability::ModeWritable,
        Capability::ParameterlessWritable,
        Capability::Toggleable,
    ]
}

fn row(id: CommandIdentity) -> (Option<u8>, Option<u8>, Option<ParameterType>, bool) {
    let d: CommandDescriptor = id.descriptor();
    (d.read_opcode, d.write_opcode, d.parameter, d.mode_scoped)
}

#[test]
fn table_lists_eighteen_commands() {
    assert_eq!(all_identities().len(), 18);
}

#[test]
fn table_rows_of_read_only_commands() {
    assert_eq!(row(CommandIdentity::DeviceVersion), (Some(0x18), None, None, false));
    assert_eq!(row(CommandIdentity::CurrentConnectionCodec), (Some(0x16), None, None, false));
    assert_eq!(row(CommandIdentity::Name), (Some(0x45), None, None, false));
}

#[test]
fn table_rows_of_settings() {
    assert_eq!(
        row(CommandIdentity::BootMode),
        (Some(0x1C), Some(0x0B), Some(ParameterType::State), false)
    );
    assert_eq!(
        row(CommandIdentity::LedMode),
        (Some(0x3D), Some(0x3E), Some(ParameterType::State), false)
    );
    assert_eq!(
        row(CommandIdentity::LedPattern),
        (Some(0x4A), Some(0x4B), Some(ParameterType::LedPattern), false)
    );
    assert_eq!(
        row(CommandIdentity::TxLdacQualitySetting),
        (Some(0x4C), Some(0x4D), Some(ParameterType::TxLdacQuality), false)
    );
    assert_eq!(
        row(CommandIdentity::SpdifVolumeAdjustmentSetting),
        (Some(0x52), Some(0x53), Some(ParameterType::State), false)
    );
    assert_eq!(
        row(CommandIdentity::UpsamplingSetting),
        (Some(0x50), Some(0x51), Some(ParameterType::State), false)
    );
    assert_eq!(
        row(CommandIdentity::VolumeSetting),
        (Some(0x12), Some(0x02), Some(ParameterType::Volume), false)
    );
    assert_eq!(
        row(CommandIdentity::DacLowpassSetting),
        (Some(0x11), Some(0x01), Some(ParameterType::DacLowpass), false)
    );
    assert_eq!(
        row(CommandIdentity::OutputBalance),
        (Some(0x13), Some(0x03), Some(ParameterType::OutputBalance), false)
    );
}

#[test]
fn table_rows_of_mode_scoped_settings() {
    assert_eq!(
        row(CommandIdentity::InputSources),
        (Some(0x48), Some(0x49), Some(ParameterType::InputSources), true)
    );
    assert_eq!(
        row(CommandIdentity::VolumeMode),
        (Some(0x4E), Some(0x4F), Some(ParameterType::VolumeMode), true)
    );
    assert_eq!(
        row(CommandIdentity::EnabledCodecs),
        (Some(0x17), Some(0x07), Some(ParameterType::EnabledCodecs), true)
    );
}

#[test]
fn table_rows_of_actions() {
    assert_eq!(row(CommandIdentity::FactoryReset), (None, Some(0x04), None, true));
    assert_eq!(row(CommandIdentity::PowerOff), (None, Some(0x25), None, true));
    assert_eq!(row(CommandIdentity::ClearPairing), (None, Some(0x43), None, true));
}

#[test]
fn read_opcodes_are_distinct() {
    let ids = all_identities();
    for a in ids.iter() {
        for b in ids.iter() {
            let (ra, rb) = (a.descriptor().read_opcode, b.descriptor().read_opcode);
            if ra.is_some() && ra == rb {
                assert_eq!(a, b);
            }
        }
    }
}

#[test]
fn write_opcodes_are_distinct() {
    let ids = all_identities();
    for a in ids.iter() {
        for b in ids.iter() {
            let (wa, wb) = (a.descriptor().write_opcode, b.descriptor().write_opcode);
            if wa.is_some() && wa == wb {
                assert_eq!(a, b);
            }
        }
    }
}

#[test]
fn read_and_write_opcodes_differ() {
    for id in all_identities() {
        let d = id.descriptor();
        if d.read_opcode.is_some() {
            assert_ne!(d.read_opcode, d.write_opcode);
        }
    }
}

#[test]
fn capabilities_of_each_kind_of_command() {
    let id = CommandIdentity::DeviceVersion;
    assert!(id.supports(Capability::Readable));
    assert!(!id.supports(Capability::ModeReadable));
    assert!(!id.supports(Capability::Writable));
    assert!(!id.supports(Capability::ModeWritable));
    assert!(!id.supports(Capability::ParameterlessWritable));
    assert!(!id.supports(Capability::Toggleable));

    let id = CommandIdentity::VolumeSetting;
    assert!(id.supports(Capability::Readable));
    assert!(id.supports(Capability::Writable));
    assert!(id.supports(Capability::Toggleable));
    assert!(!id.supports(Capability::ModeReadable));
    assert!(!id.supports(Capability::ModeWritable));
    assert!(!id.supports(Capability::ParameterlessWritable));

    let id = CommandIdentity::EnabledCodecs;
    assert!(id.supports(Capability::ModeReadable));
    assert!(id.supports(Capability::ModeWritable));
    assert!(!id.supports(Capability::Readable));
    assert!(!id.supports(Capability::Writable));
    assert!(!id.supports(Capability::ParameterlessWritable));
    assert!(!id.supports(Capability::Toggleable));

    let id = CommandIdentity::PowerOff;
    assert!(id.supports(Capability::ParameterlessWritable));
    assert!(!id.supports(Capability::Readable));
    assert!(!id.supports(Capability::ModeReadable));
    assert!(!id.supports(Capability::Writable));
    assert!(!id.supports(Capability::ModeWritable));
    assert!(!id.supports(Capability::Toggleable));
}

#[test]
fn toggleable_is_readable_and_writable() {
    for id in all_identities() {
        assert_eq!(
            id.supports(Capability::Toggleable),
            id.supports(Capability::Readable) && id.supports(Capability::Writable)
        );
    }
    let toggleable: Vec<CommandIdentity> =
        all_identities().into_iter().filter(|id| id.supports(Capability::Toggleable)).collect();
    assert_eq!(toggleable.len(), 9);
}

#[test]
fn descriptor_and_identity_agree_on_capabilities() {
    for id in all_identities() {
        for capability in all_capabilities() {
            assert_eq!(id.supports(capability), id.descriptor().supports(capability));
        }
    }
}

#[test]
fn read_only_commands_have_no_write() {
    for id in [
        CommandIdentity::DeviceVersion,
        CommandIdentity::CurrentConnectionCodec,
        CommandIdentity::Name,
    ] {
        for capability in [
            Capability::Writable,
            Capability::ModeWritable,
            Capability::ParameterlessWritable,
            Capability::Toggleable,
        ] {
            assert!(!id.supports(capability));
            assert_eq!(id.opcode(capability), Err(CommandBuilderError::UnsupportedCapability));
        }
    }
    assert_eq!(
        CommandIdentity::DeviceVersion.opcode(Capability::Writable),
        Err(CommandBuilderError::UnsupportedCapability)
    );
    assert_eq!(CommandIdentity::DeviceVersion.opcode(Capability::Readable), Ok(0x18));
}

#[test]
fn opcode_follows_the_capability() {
    assert_eq!(CommandIdentity::VolumeSetting.opcode(Capability::Readable), Ok(0x12));
    assert_eq!(CommandIdentity::VolumeSetting.opcode(Capability::Writable), Ok(0x02));
    assert_eq!(
        CommandIdentity::VolumeSetting.opcode(Capability::ModeWritable),
        Err(CommandBuilderError::UnsupportedCapability)
    );
    assert_eq!(
        CommandIdentity::VolumeSetting.opcode(Capability::Toggleable),
        Err(CommandBuilderError::UnsupportedCapability)
    );
    assert_eq!(CommandIdentity::InputSources.opcode(Capability::ModeReadable), Ok(0x48));
    assert_eq!(CommandIdentity::InputSources.opcode(Capability::ModeWritable), Ok(0x49));
    assert_eq!(
        CommandIdentity::InputSources.opcode(Capability::Readable),
        Err(CommandBuilderError::UnsupportedCapability)
    );
    assert_eq!(CommandIdentity::FactoryReset.opcode(Capability::ParameterlessWritable), Ok(0x04));
    assert_eq!(CommandIdentity::ClearPairing.opcode(Capability::ParameterlessWritable), Ok(0x43));
    assert_eq!(
        CommandIdentity::PowerOff.opcode(Capability::Readable),
        Err(CommandBuilderError::UnsupportedCapability)
    );
}

#[test]
fn opcode_is_given_exactly_for_operations_the_command_has() {
    for id in all_identities() {
        for capability in all_capabilities() {
            let expected = id.supports(capability) && capability != Capability::Toggleable;
            assert_eq!(id.opcode(capability).is_ok(), expected);
        }
    }
}

#[test]
fn only_power_off_is_not_acknowledged() {
    for id in all_identities() {
        if id == CommandIdentity::PowerOff {
            assert_eq!(id.kind(), CommandKind::Command);
            assert!(!id.kind().needs_acknowledgement());
        } else {
            assert_eq!(id.kind(), CommandKind::Request);
            assert!(id.kind().needs_acknowledgement());
        }
    }
}

#[test]
fn encoded_length_of_each_parameter_type() {
    assert_eq!(ParameterType::OutputBalance.encoded_len(), 2);
    for t in [
        ParameterType::State,
        ParameterType::LedPattern,
        ParameterType::TxLdacQuality,
        ParameterType::Volume,
        ParameterType::DacLowpass,
        ParameterType::InputSources,
        ParameterType::VolumeMode,
        ParameterType::EnabledCodecs,
    ] {
        assert_eq!(t.encoded_len(), 1);
    }
}
