use bta30ctl::bta30::{
    DeviceVersion, EnabledCodecs, EnabledCodecsParameter, InputSources, PowerOff, StateParameter,
    UpsamplingSetting, VolumeModeParameter, VolumeSetting, VolumeSettingParameter,
};
use bta30ctl::{
    power_off_commqnd, set_boot_mode_command, set_led_indicator_command, set_volume_command,
    set_volume_mode_setting_command, BootOnPowerOn, Command, CommandBuilderError, CommandKind,
    LedIndicator, OperationalMode, VolumeModeSetting,
};

#[test]
fn set_volume_command_in_range() {
    for v in 0..=60u8 {
        let c = set_volume_command(v).unwrap();
        assert_eq!(c.payload(), &vec![0x00, 0x0a, 0x04, 0x02, v]);
        assert_eq!(c.kind(), CommandKind::Request);
        assert!(c.needs_acknowledgement());
    }
}

#[test]
fn set_volume_command_out_of_range() {
    for v in 61..=255u8 {
        assert_eq!(
            set_volume_command(v).unwrap_err(),
            CommandBuilderError::IncorrectVolumeValue
        );
    }
}

#[test]
fn set_volume_mode_setting_command_bytes() {
    let c = set_volume_mode_setting_command(OperationalMode::Rx, VolumeModeSetting::Adjustable)
        .unwrap();
    assert_eq!(c.payload(), &vec![0x00, 0x0a, 0x04, 0x4f, 0x01, 0x01]);
    assert_eq!(c.kind(), CommandKind::Request);
    let c = set_volume_mode_setting_command(OperationalMode::Tx, VolumeModeSetting::HundredPercent)
        .unwrap();
    assert_eq!(c.payload(), &vec![0x00, 0x0a, 0x04, 0x4f, 0x02, 0x05]);
    let c = set_volume_mode_setting_command(OperationalMode::Tx, VolumeModeSetting::ThirtyPercent)
        .unwrap();
    assert_eq!(c.payload(), &vec![0x00, 0x0a, 0x04, 0x4f, 0x02, 0x02]);
    let c = set_volume_mode_setting_command(OperationalMode::Rx, VolumeModeSetting::FiftyPercent)
        .unwrap();
    assert_eq!(c.payload(), &vec![0x00, 0x0a, 0x04, 0x4f, 0x01, 0x03]);
    let c = set_volume_mode_setting_command(OperationalMode::Rx, VolumeModeSetting::SeventyPercent)
        .unwrap();
    assert_eq!(c.payload(), &vec![0x00, 0x0a, 0x04, 0x4f, 0x01, 0x04]);
}

#[test]
fn settings_map_to_their_parameters() {
    assert_eq!(VolumeModeSetting::Adjustable.parameter(), VolumeModeParameter::Adjustable);
    assert_eq!(VolumeModeSetting::HundredPercent.parameter(), VolumeModeParameter::HundredPercent);
    assert_eq!(LedIndicator::Off.parameter(), StateParameter::Off);
    assert_eq!(LedIndicator::On.parameter(), StateParameter::On);
    assert_eq!(BootOnPowerOn::Off.parameter(), StateParameter::Off);
    assert_eq!(BootOnPowerOn::On.parameter(), StateParameter::On);
}

#[test]
fn set_led_indicator_command_bytes() {
    let on = set_led_indicator_command(LedIndicator::On).unwrap();
    assert_eq!(on.payload(), &vec![0x00, 0x0a, 0x04, 0x3e, 0x01]);
    assert_eq!(on.kind(), CommandKind::Request);
    let off = set_led_indicator_command(LedIndicator::Off).unwrap();
    assert_eq!(off.payload(), &vec![0x00, 0x0a, 0x04, 0x3e, 0x00]);
}

#[test]
fn set_boot_mode_command_bytes() {
    let on = set_boot_mode_command(BootOnPowerOn::On).unwrap();
    assert_eq!(on.payload(), &vec![0x00, 0x0a, 0x04, 0x0b, 0x01]);
    assert_eq!(on.kind(), CommandKind::Request);
    let off = set_boot_mode_command(BootOnPowerOn::Off).unwrap();
    assert_eq!(off.payload(), &vec![0x00, 0x0a, 0x04, 0x0b, 0x00]);
}

#[test]
fn power_off_is_sent_and_not_waited_for() {
    let c = power_off_commqnd(OperationalMode::Tx).unwrap();
    assert_eq!(c.payload(), &vec![0x00, 0x0a, 0x04, 0x25, 0x02]);
    assert_eq!(c.kind(), CommandKind::Command);
    assert!(!c.needs_acknowledgement());
    let c = power_off_commqnd(OperationalMode::Rx).unwrap();
    assert_eq!(c.payload(), &vec![0x00, 0x0a, 0x04, 0x25, 0x01]);
    assert!(!c.needs_acknowledgement());
}

#[test]
fn commands_built_from_command_types() {
    let c = Command::get::<DeviceVersion>();
    assert_eq!(c.payload(), &vec![0x00, 0x0a, 0x04, 0x18]);
    assert!(c.needs_acknowledgement());

    let c = Command::mode_get::<InputSources>(OperationalMode::Tx);
    assert_eq!(c.payload(), &vec![0x00, 0x0a, 0x04, 0x48, 0x02]);
    assert_eq!(c.kind(), CommandKind::Request);

    let c = Command::set::<VolumeSetting>(&VolumeSettingParameter::new(60).unwrap());
    assert_eq!(c.payload(), &vec![0x00, 0x0a, 0x04, 0x02, 60]);
    assert_eq!(c.kind(), CommandKind::Request);

    let c = Command::set::<UpsamplingSetting>(&StateParameter::On);
    assert_eq!(c.payload(), &vec![0x00, 0x0a, 0x04, 0x51, 0x01]);

    let flags = EnabledCodecsParameter::aac().union(EnabledCodecsParameter::ldac());
    let c = Command::mode_set::<EnabledCodecs>(OperationalMode::Rx, &flags);
    assert_eq!(c.payload(), &vec![0x00, 0x0a, 0x04, 0x07, 0x01, 0x06]);
    assert!(c.needs_acknowledgement());

    let c = Command::parameterless_set::<PowerOff>(OperationalMode::Tx);
    assert_eq!(c.payload(), &vec![0x00, 0x0a, 0x04, 0x25, 0x02]);
    assert_eq!(c.kind(), CommandKind::Command);
    assert!(!c.needs_acknowledgement());
}

#[test]
fn ready_made_commands_are_the_same_each_time() {
    let a = set_volume_command(20).unwrap();
    let b = set_volume_command(20).unwrap();
    assert_eq!(a.payload(), b.payload());
    assert_eq!(a.kind(), b.kind());
    let a = power_off_commqnd(OperationalMode::Tx).unwrap();
    let b = power_off_commqnd(OperationalMode::Tx).unwrap();
    assert_eq!(a.payload(), b.payload());
    assert_eq!(a.kind(), b.kind());
    assert_eq!(
        set_volume_command(99).unwrap_err(),
        set_volume_command(99).unwrap_err()
    );
}

#[test]
fn acknowledgement_follows_the_kind() {
    assert!(CommandKind::Request.needs_acknowledgement());
    assert!(!CommandKind::Command.needs_acknowledgement());
}
