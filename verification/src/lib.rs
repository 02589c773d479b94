//! Command encoding for the FiiO BTA30 Pro Bluetooth audio receiver.
//!
//! The device is controlled by short byte sequences written to one Bluetooth
//! Low Energy characteristic. This crate builds those sequences and says, for
//! each, whether the write has to wait for the device's acknowledgement. It
//! performs no I/O: the caller hands the bytes to its transport.
//!
//! [`bta30`] holds the protocol: the commands, the values they carry and how
//! they are framed. The items of this module are ready-made commands on top
//! of it: a payload together with its acknowledgement discipline.

use vstd::prelude::*;

pub mod bta30;
pub mod session;

pub use bta30::{CommandBuilderError, CommandKind, OperationalMode};

use bta30::capability::{read_payload, write_payload};
use bta30::{
    BootMode, CommandIdentity, Get, LedMode, ModeGet, ModeSet, Parameter, ParameterlessSet,
    PowerOff, SetValue, StateParameter, VolumeMode, VolumeModeParameter, VolumeSetting,
    VolumeSettingParameter,
};

verus! {

/// Whether the volume can be adjusted, or the fixed level it is held at.
#[derive(Clone, Copy, Debug, PartialEq, Eq, Structural)]
pub enum VolumeModeSetting {
    Adjustable,
    ThirtyPercent,
    FiftyPercent,
    SeventyPercent,
    HundredPercent,
}

/// Whether the indicator is lit.
#[derive(Clone, Copy, Debug, PartialEq, Eq, Structural)]
pub enum LedIndicator {
    Off,
    On,
}

/// Whether the device switches on when it gets power.
#[derive(Clone, Copy, Debug, PartialEq, Eq, Structural)]
pub enum BootOnPowerOn {
    Off,
    On,
}

impl VolumeModeSetting {
    /// The value that the volume-mode command carries for this setting.
    pub open spec fn spec_parameter(self) -> VolumeModeParameter {
        match self {
            VolumeModeSetting::Adjustable => VolumeModeParameter::Adjustable,
            VolumeModeSetting::ThirtyPercent => VolumeModeParameter::ThirtyPercent,
            VolumeModeSetting::FiftyPercent => VolumeModeParameter::FiftyPercent,
            VolumeModeSetting::SeventyPercent => VolumeModeParameter::SeventyPercent,
            VolumeModeSetting::HundredPercent => VolumeModeParameter::HundredPercent,
        }
    }

    /// The value that the volume-mode command carries for this setting.
    #[verifier::when_used_as_spec(spec_parameter)]
    pub fn parameter(self) -> (p: VolumeModeParameter)
        ensures
            p == self.spec_parameter(),
    {
        match self {
            VolumeModeSetting::Adjustable => VolumeModeParameter::Adjustable,
            VolumeModeSetting::ThirtyPercent => VolumeModeParameter::ThirtyPercent,
            VolumeModeSetting::FiftyPercent => VolumeModeParameter::FiftyPercent,
            VolumeModeSetting::SeventyPercent => VolumeModeParameter::SeventyPercent,
            VolumeModeSetting::HundredPercent => VolumeModeParameter::HundredPercent,
        }
    }
}

impl LedIndicator {
    /// The value that the indicator command carries for this setting.
    pub open spec fn spec_parameter(self) -> StateParameter {
        match self {
            LedIndicator::Off => StateParameter::Off,
            LedIndicator::On => StateParameter::On,
        }
    }

    /// The value that the indicator command carries for this setting.
    #[verifier::when_used_as_spec(spec_parameter)]
    pub fn parameter(self) -> (p: StateParameter)
        ensures
            p == self.spec_parameter(),
    {
        match self {
            LedIndicator::Off => StateParameter::Off,
            LedIndicator::On => StateParameter::On,
        }
    }
}

impl BootOnPowerOn {
    /// The value that the boot-mode command carries for this setting.
    pub open spec fn spec_parameter(self) -> StateParameter {
        match self {
            BootOnPowerOn::Off => StateParameter::Off,
            BootOnPowerOn::On => StateParameter::On,
        }
    }

    /// The value that the boot-mode command carries for this setting.
    #[verifier::when_used_as_spec(spec_parameter)]
    pub fn parameter(self) -> (p: StateParameter)
        ensures
            p == self.spec_parameter(),
    {
        match self {
            BootOnPowerOn::Off => StateParameter::Off,
            BootOnPowerOn::On => StateParameter::On,
        }
    }
}

/// A command ready to be sent: the bytes to write, and whether the write is
/// acknowledged.
#[derive(Debug)]
pub struct Command {
    kind: CommandKind,
    payload: Vec<u8>,
}

/// What a [`Command`] holds.
pub struct CommandView {
    /// Whether the write is acknowledged.
    pub kind: CommandKind,
    /// The bytes to write.
    pub payload: Seq<u8>,
}

impl View for Command {
    type V = CommandView;

    closed spec fn view(&self) -> CommandView {
        CommandView { kind: self.kind, payload: self.payload@ }
    }
}

/// What the builders of this module return.
pub type CommandResult = Result<Command, CommandBuilderError>;

impl Command {
    /// Whether the write is acknowledged.
    pub fn kind(&self) -> (kind: CommandKind)
        ensures
            kind == self@.kind,
    {
        self.kind
    }

    /// The bytes to write.
    pub fn payload(&self) -> (payload: &Vec<u8>)
        ensures
            payload@ == self@.payload,
    {
        &self.payload
    }

    /// Whether the transport has to wait for the device's acknowledgement:
    /// it has to for a request, and must not for a command that is sent and
    /// forgotten.
    pub fn needs_acknowledgement(&self) -> (wait: bool)
        ensures
            wait == (self@.kind == CommandKind::Request),
    {
        self.kind.needs_acknowledgement()
    }

    /// The command that reads `C`.
    pub fn get<C: Get>() -> (c: Command)
        ensures
            c@.kind == C::identity().kind(),
            c@.payload == read_payload(C::identity(), None),
    {
        Command { kind: C::id().kind(), payload: C::request_payload() }
    }

    /// The command that reads `C` for one operational mode.
    pub fn mode_get<C: ModeGet>(mode: OperationalMode) -> (c: Command)
        ensures
            c@.kind == C::identity().kind(),
            c@.payload == read_payload(C::identity(), Some(mode)),
    {
        Command { kind: C::id().kind(), payload: C::request_payload(mode) }
    }

    /// The command that writes a value to `C`.
    pub fn set<C: SetValue>(parameter: &C::Parameter) -> (c: Command)
        ensures
            c@.kind == C::identity().kind(),
            c@.payload == write_payload(C::identity(), None, parameter.encoding()),
    {
        Command { kind: C::id().kind(), payload: C::request_payload(parameter) }
    }

    /// The command that writes a value to `C` for one operational mode.
    pub fn mode_set<C: ModeSet>(mode: OperationalMode, parameter: &C::Parameter) -> (c: Command)
        ensures
            c@.kind == C::identity().kind(),
            c@.payload == write_payload(C::identity(), Some(mode), parameter.encoding()),
    {
        Command { kind: C::id().kind(), payload: C::request_payload(mode, parameter) }
    }

    /// The command that triggers the action `C` in one operational mode.
    pub fn parameterless_set<C: ParameterlessSet>(mode: OperationalMode) -> (c: Command)
        ensures
            c@.kind == C::identity().kind(),
            c@.payload == write_payload(C::identity(), Some(mode), Seq::empty()),
    {
        Command { kind: C::id().kind(), payload: C::request_payload(mode) }
    }
}

/// Sets the volume. Fails with `IncorrectVolumeValue` above 60.
pub fn set_volume_command(volume: u8) -> (r: CommandResult)
    ensures
        volume <= 60 ==> r is Ok && r->Ok_0@.kind == CommandKind::Request && r->Ok_0@.payload
            == seq![0x00u8, 0x0a, 0x04, 0x02, volume],
        volume > 60 ==> r is Err && r->Err_0 == CommandBuilderError::IncorrectVolumeValue,
{
    match VolumeSettingParameter::new(volume) {
        Ok(parameter) => {
            let command = Command::set::<VolumeSetting>(&parameter);
            assert(command@.payload =~= seq![0x00u8, 0x0a, 0x04, 0x02, volume]);
            Ok(command)
        },
        Err(e) => Err(e),
    }
}

/// Sets whether the volume can be adjusted in an operational mode. Always
/// succeeds.
pub fn set_volume_mode_setting_command(mode: OperationalMode, vms: VolumeModeSetting) -> (r:
    CommandResult)
    ensures
        r is Ok,
        r->Ok_0@.kind == CommandKind::Request,
        r->Ok_0@.payload == seq![0x00u8, 0x0a, 0x04, 0x4f, mode.byte(), vms.parameter().byte()],
{
    let parameter = vms.parameter();
    let command = Command::mode_set::<VolumeMode>(mode, &parameter);
    assert(command@.payload =~= seq![
        0x00u8,
        0x0a,
        0x04,
        0x4f,
        mode.byte(),
        vms.parameter().byte(),
    ]);
    Ok(command)
}

/// Switches the indicator on or off. Always succeeds.
pub fn set_led_indicator_command(led_indicator: LedIndicator) -> (r: CommandResult)
    ensures
        r is Ok,
        r->Ok_0@.kind == CommandKind::Request,
        r->Ok_0@.payload == seq![0x00u8, 0x0a, 0x04, 0x3e, led_indicator.parameter().byte()],
{
    let parameter = led_indicator.parameter();
    let command = Command::set::<LedMode>(&parameter);
    assert(command@.payload =~= seq![0x00u8, 0x0a, 0x04, 0x3e, led_indicator.parameter().byte()]);
    Ok(command)
}

/// Sets whether the device switches on when it gets power. Always succeeds.
pub fn set_boot_mode_command(boot_mode: BootOnPowerOn) -> (r: CommandResult)
    ensures
        r is Ok,
        r->Ok_0@.kind == CommandKind::Request,
        r->Ok_0@.payload == seq![0x00u8, 0x0a, 0x04, 0x0b, boot_mode.parameter().byte()],
{
    let parameter = boot_mode.parameter();
    let command = Command::set::<BootMode>(&parameter);
    assert(command@.payload =~= seq![0x00u8, 0x0a, 0x04, 0x0b, boot_mode.parameter().byte()]);
    Ok(command)
}

/// Switches the device off in an operational mode. The device does not
/// answer: the command is sent and not waited for. Always succeeds.
pub fn power_off_commqnd(mode: OperationalMode) -> (r: CommandResult)
    ensures
        r is Ok,
        r->Ok_0@.kind == CommandKind::Command,
        r->Ok_0@.payload == seq![0x00u8, 0x0a, 0x04, 0x25, mode.byte()],
{
    let command = Command::parameterless_set::<PowerOff>(mode);
    assert(command@.payload =~= seq![0x00u8, 0x0a, 0x04, 0x25, mode.byte()]);
    Ok(command)
}

/// Only powering off is sent without waiting for an acknowledgement.
pub proof fn lemma_only_power_off_is_unacknowledged(id: CommandIdentity)
    ensures
        id.kind() == CommandKind::Command <==> id == CommandIdentity::PowerOff,
        id.kind().needs_acknowledgement() <==> id != CommandIdentity::PowerOff,
{
}

/// Building the volume command twice for the same volume gives the same
/// outcome: the same error, or the same bytes with the same acknowledgement
/// discipline.
pub proof fn lemma_set_volume_command_deterministic(
    volume: u8,
    first: CommandResult,
    second: CommandResult,
)
    requires
        call_ensures(set_volume_command, (volume,), first),
        call_ensures(set_volume_command, (volume,), second),
    ensures
        first is Ok <==> second is Ok,
        first is Ok ==> first->Ok_0@ == second->Ok_0@,
        first is Err ==> first->Err_0 == second->Err_0,
{
}

/// Building the volume-mode command twice for the same mode and setting gives
/// the same bytes with the same acknowledgement discipline.
pub proof fn lemma_set_volume_mode_setting_command_deterministic(
    mode: OperationalMode,
    vms: VolumeModeSetting,
    first: CommandResult,
    second: CommandResult,
)
    requires
        call_ensures(set_volume_mode_setting_command, (mode, vms), first),
        call_ensures(set_volume_mode_setting_command, (mode, vms), second),
    ensures
        first is Ok,
        second is Ok,
        first->Ok_0@ == second->Ok_0@,
{
}

/// Building the indicator command twice for the same setting gives the same
/// bytes with the same acknowledgement discipline.
pub proof fn lemma_set_led_indicator_command_deterministic(
    led_indicator: LedIndicator,
    first: CommandResult,
    second: CommandResult,
)
    requires
        call_ensures(set_led_indicator_command, (led_indicator,), first),
        call_ensures(set_led_indicator_command, (led_indicator,), second),
    ensures
        first is Ok,
        second is Ok,
        first->Ok_0@ == second->Ok_0@,
{
}

/// Building the boot-mode command twice for the same setting gives the same
/// bytes with the same acknowledgement discipline.
pub proof fn lemma_set_boot_mode_command_deterministic(
    boot_mode: BootOnPowerOn,
    first: CommandResult,
    second: CommandResult,
)
    requires
        call_ensures(set_boot_mode_command, (boot_mode,), first),
        call_ensures(set_boot_mode_command, (boot_mode,), second),
    ensures
        first is Ok,
        second is Ok,
        first->Ok_0@ == second->Ok_0@,
{
}

/// Building the power-off command twice for the same mode gives the same
/// bytes with the same acknowledgement discipline.
pub proof fn lemma_power_off_commqnd_deterministic(
    mode: OperationalMode,
    first: CommandResult,
    second: CommandResult,
)
    requires
        call_ensures(power_off_commqnd, (mode,), first),
        call_ensures(power_off_commqnd, (mode,), second),
    ensures
        first is Ok,
        second is Ok,
        first->Ok_0@ == second->Ok_0@,
{
}

} // verus!
