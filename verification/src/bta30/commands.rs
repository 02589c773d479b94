//! One type per command, with the operations the registry grants it.
//!
//! A command that the registry does not list as writable has no write here,
//! and a write takes the type of value that the registry names and no other:
//! both are checked when this file is verified.

use crate::bta30::capability::{Command, Get, ModeGet, ModeSet, ParameterlessSet, SetValue};
use crate::bta30::enabled_codecs::EnabledCodecsParameter;
use crate::bta30::parameter::{
    DacLowpassSettingParametter, InputSourcesParameter, LedPatternParameter,
    OutputBalanceParameter, Parameter, StateParameter, TxLdacQualitySettingParameter,
    VolumeModeParameter, VolumeSettingParameter,
};
use crate::bta30::registry::{CommandIdentity, ParameterType};
use vstd::prelude::*;

verus! {

/// The version of the device's firmware.
pub struct DeviceVersion;

impl Command for DeviceVersion {
    open spec fn identity() -> CommandIdentity {
        CommandIdentity::DeviceVersion
    }

    fn id() -> (id: CommandIdentity) {
        CommandIdentity::DeviceVersion
    }
}

impl Get for DeviceVersion {
    proof fn readable() {
    }
}

/// The codec of the connection that is up.
pub struct CurrentConnectionCodec;

impl Command for CurrentConnectionCodec {
    open spec fn identity() -> CommandIdentity {
        CommandIdentity::CurrentConnectionCodec
    }

    fn id() -> (id: CommandIdentity) {
        CommandIdentity::CurrentConnectionCodec
    }
}

impl Get for CurrentConnectionCodec {
    proof fn readable() {
    }
}

/// Whether the device switches on when it gets power.
pub struct BootMode;

impl Command for BootMode {
    open spec fn identity() -> CommandIdentity {
        CommandIdentity::BootMode
    }

    fn id() -> (id: CommandIdentity) {
        CommandIdentity::BootMode
    }
}

impl Get for BootMode {
    proof fn readable() {
    }
}

impl SetValue for BootMode {
    type Parameter = StateParameter;

    proof fn writable() {
        assert(StateParameter::parameter_type() == ParameterType::State);
    }
}

/// Whether the indicator is lit.
pub struct LedMode;

impl Command for LedMode {
    open spec fn identity() -> CommandIdentity {
        CommandIdentity::LedMode
    }

    fn id() -> (id: CommandIdentity) {
        CommandIdentity::LedMode
    }
}

impl Get for LedMode {
    proof fn readable() {
    }
}

impl SetValue for LedMode {
    type Parameter = StateParameter;

    proof fn writable() {
        assert(StateParameter::parameter_type() == ParameterType::State);
    }
}

/// The colours of the indicator.
pub struct LedPattern;

impl Command for LedPattern {
    open spec fn identity() -> CommandIdentity {
        CommandIdentity::LedPattern
    }

    fn id() -> (id: CommandIdentity) {
        CommandIdentity::LedPattern
    }
}

impl Get for LedPattern {
    proof fn readable() {
    }
}

impl SetValue for LedPattern {
    type Parameter = LedPatternParameter;

    proof fn writable() {
        assert(LedPatternParameter::parameter_type() == ParameterType::LedPattern);
    }
}

/// What the LDAC encoder favours when the device transmits.
pub struct TxLdacQualitySetting;

impl Command for TxLdacQualitySetting {
    open spec fn identity() -> CommandIdentity {
        CommandIdentity::TxLdacQualitySetting
    }

    fn id() -> (id: CommandIdentity) {
        CommandIdentity::TxLdacQualitySetting
    }
}

impl Get for TxLdacQualitySetting {
    proof fn readable() {
    }
}

impl SetValue for TxLdacQualitySetting {
    type Parameter = TxLdacQualitySettingParameter;

    proof fn writable() {
        assert(TxLdacQualitySettingParameter::parameter_type() == ParameterType::TxLdacQuality);
    }
}

/// Whether the volume applies to the digital output.
pub struct SpdifVolumeAdjustmentSetting;

impl Command for SpdifVolumeAdjustmentSetting {
    open spec fn identity() -> CommandIdentity {
        CommandIdentity::SpdifVolumeAdjustmentSetting
    }

    fn id() -> (id: CommandIdentity) {
        CommandIdentity::SpdifVolumeAdjustmentSetting
    }
}

impl Get for SpdifVolumeAdjustmentSetting {
    proof fn readable() {
    }
}

impl SetValue for SpdifVolumeAdjustmentSetting {
    type Parameter = StateParameter;

    proof fn writable() {
        assert(StateParameter::parameter_type() == ParameterType::State);
    }
}

/// Whether the device upsamples.
pub struct UpsamplingSetting;

impl Command for UpsamplingSetting {
    open spec fn identity() -> CommandIdentity {
        CommandIdentity::UpsamplingSetting
    }

    fn id() -> (id: CommandIdentity) {
        CommandIdentity::UpsamplingSetting
    }
}

impl Get for UpsamplingSetting {
    proof fn readable() {
    }
}

impl SetValue for UpsamplingSetting {
    type Parameter = StateParameter;

    proof fn writable() {
        assert(StateParameter::parameter_type() == ParameterType::State);
    }
}

/// The volume.
pub struct VolumeSetting;

impl Command for VolumeSetting {
    open spec fn identity() -> CommandIdentity {
        CommandIdentity::VolumeSetting
    }

    fn id() -> (id: CommandIdentity) {
        CommandIdentity::VolumeSetting
    }
}

impl Get for VolumeSetting {
    proof fn readable() {
    }
}

impl SetValue for VolumeSetting {
    type Parameter = VolumeSettingParameter;

    proof fn writable() {
        assert(VolumeSettingParameter::parameter_type() == ParameterType::Volume);
    }
}

/// The low-pass filter of the converter.
pub struct DacLowpassSetting;

impl Command for DacLowpassSetting {
    open spec fn identity() -> CommandIdentity {
        CommandIdentity::DacLowpassSetting
    }

    fn id() -> (id: CommandIdentity) {
        CommandIdentity::DacLowpassSetting
    }
}

impl Get for DacLowpassSetting {
    proof fn readable() {
    }
}

impl SetValue for DacLowpassSetting {
    type Parameter = DacLowpassSettingParametter;

    proof fn writable() {
        assert(DacLowpassSettingParametter::parameter_type() == ParameterType::DacLowpass);
    }
}

/// The balance between the two output channels.
pub struct OutputBalance;

impl Command for OutputBalance {
    open spec fn identity() -> CommandIdentity {
        CommandIdentity::OutputBalance
    }

    fn id() -> (id: CommandIdentity) {
        CommandIdentity::OutputBalance
    }
}

impl Get for OutputBalance {
    proof fn readable() {
    }
}

impl SetValue for OutputBalance {
    type Parameter = OutputBalanceParameter;

    proof fn writable() {
        assert(OutputBalanceParameter::parameter_type() == ParameterType::OutputBalance);
    }
}

/// The name of the device. Writing it is not supported.
pub struct Name;

impl Command for Name {
    open spec fn identity() -> CommandIdentity {
        CommandIdentity::Name
    }

    fn id() -> (id: CommandIdentity) {
        CommandIdentity::Name
    }
}

impl Get for Name {
    proof fn readable() {
    }
}

/// The inputs from which the device takes audio.
pub struct InputSources;

impl Command for InputSources {
    open spec fn identity() -> CommandIdentity {
        CommandIdentity::InputSources
    }

    fn id() -> (id: CommandIdentity) {
        CommandIdentity::InputSources
    }
}

impl ModeGet for InputSources {
    proof fn mode_readable() {
    }
}

impl ModeSet for InputSources {
    type Parameter = InputSourcesParameter;

    proof fn mode_writable() {
        assert(InputSourcesParameter::parameter_type() == ParameterType::InputSources);
    }
}

/// Whether the volume can be adjusted.
pub struct VolumeMode;

impl Command for VolumeMode {
    open spec fn identity() -> CommandIdentity {
        CommandIdentity::VolumeMode
    }

    fn id() -> (id: CommandIdentity) {
        CommandIdentity::VolumeMode
    }
}

impl ModeGet for VolumeMode {
    proof fn mode_readable() {
    }
}

impl ModeSet for VolumeMode {
    type Parameter = VolumeModeParameter;

    proof fn mode_writable() {
        assert(VolumeModeParameter::parameter_type() == ParameterType::VolumeMode);
    }
}

/// The codecs the device is allowed to negotiate.
pub struct EnabledCodecs;

impl Command for EnabledCodecs {
    open spec fn identity() -> CommandIdentity {
        CommandIdentity::EnabledCodecs
    }

    fn id() -> (id: CommandIdentity) {
        CommandIdentity::EnabledCodecs
    }
}

impl ModeGet for EnabledCodecs {
    proof fn mode_readable() {
    }
}

impl ModeSet for EnabledCodecs {
    type Parameter = EnabledCodecsParameter;

    proof fn mode_writable() {
        assert(EnabledCodecsParameter::parameter_type() == ParameterType::EnabledCodecs);
    }
}

/// Resets the device to the state it was shipped in.
pub struct FactoryReset;

impl Command for FactoryReset {
    open spec fn identity() -> CommandIdentity {
        CommandIdentity::FactoryReset
    }

    fn id() -> (id: CommandIdentity) {
        CommandIdentity::FactoryReset
    }
}

impl ParameterlessSet for FactoryReset {
    proof fn parameterless_writable() {
    }
}

/// Switches the device off.
pub struct PowerOff;

impl Command for PowerOff {
    open spec fn identity() -> CommandIdentity {
        CommandIdentity::PowerOff
    }

    fn id() -> (id: CommandIdentity) {
        CommandIdentity::PowerOff
    }
}

impl ParameterlessSet for PowerOff {
    proof fn parameterless_writable() {
    }
}

/// Forgets the devices that were paired.
pub struct ClearPairing;

impl Command for ClearPairing {
    open spec fn identity() -> CommandIdentity {
        CommandIdentity::ClearPairing
    }

    fn id() -> (id: CommandIdentity) {
        CommandIdentity::ClearPairing
    }
}

impl ParameterlessSet for ClearPairing {
    proof fn parameterless_writable() {
    }
}

} // verus!
