//! The table of commands.
//!
//! Each command the device understands has one entry: the opcode that reads
//! it, the opcode that writes it, the type of value a write carries, and
//! whether the command is scoped to an operational mode. What a command can
//! do follows from its entry and from nothing else.

use crate::bta30::CommandBuilderError;
use vstd::prelude::*;

verus! {

/// The commands of the device.
#[derive(Clone, Copy, Debug, PartialEq, Eq, Structural)]
pub enum CommandIdentity {
    DeviceVersion,
    CurrentConnectionCodec,
    BootMode,
    LedMode,
    LedPattern,
    TxLdacQualitySetting,
    SpdifVolumeAdjustmentSetting,
    UpsamplingSetting,
    VolumeSetting,
    DacLowpassSetting,
    OutputBalance,
    Name,
    InputSources,
    VolumeMode,
    EnabledCodecs,
    FactoryReset,
    PowerOff,
    ClearPairing,
}

/// What can be done with a command.
#[derive(Clone, Copy, Debug, PartialEq, Eq, Structural)]
pub enum Capability {
    /// The current value can be read.
    Readable,
    /// The current value can be read for one operational mode.
    ModeReadable,
    /// A value can be written.
    Writable,
    /// A value can be written for one operational mode.
    ModeWritable,
    /// The command is an action: its write carries the mode and no value.
    ParameterlessWritable,
    /// The value can be read and written. This names no operation of its own.
    Toggleable,
}

/// The types of value that a write can carry.
#[derive(Clone, Copy, Debug, PartialEq, Eq, Structural)]
pub enum ParameterType {
    State,
    LedPattern,
    TxLdacQuality,
    Volume,
    DacLowpass,
    OutputBalance,
    InputSources,
    VolumeMode,
    EnabledCodecs,
}

/// Whether the transport waits for the device to acknowledge a write.
#[derive(Clone, Copy, Debug, PartialEq, Eq, Structural)]
pub enum CommandKind {
    /// The write is complete once the device has acknowledged it.
    Request,
    /// The write is sent and not waited for.
    Command,
}

/// One entry of the table.
#[derive(Clone, Copy, Debug, PartialEq, Eq)]
pub struct CommandDescriptor {
    /// The opcode that reads the command, if it can be read.
    pub read_opcode: Option<u8>,
    /// The opcode that writes the command, if it can be written.
    pub write_opcode: Option<u8>,
    /// The type of value a write carries, if it carries one.
    pub parameter: Option<ParameterType>,
    /// Whether reads and writes carry the operational mode.
    pub mode_scoped: bool,
}

impl ParameterType {
    /// The number of bytes a value of this type takes on the wire.
    pub open spec fn spec_encoded_len(self) -> usize {
        match self {
            ParameterType::OutputBalance => 2,
            _ => 1,
        }
    }

    /// The number of bytes a value of this type takes on the wire.
    #[verifier::when_used_as_spec(spec_encoded_len)]
    pub fn encoded_len(self) -> (n: usize)
        ensures
            n == self.spec_encoded_len(),
    {
        match self {
            ParameterType::OutputBalance => 2,
            _ => 1,
        }
    }
}

impl CommandKind {
    /// Whether the transport has to wait for the device's acknowledgement.
    pub open spec fn spec_needs_acknowledgement(self) -> bool {
        self == CommandKind::Request
    }

    /// Whether the transport has to wait for the device's acknowledgement.
    #[verifier::when_used_as_spec(spec_needs_acknowledgement)]
    pub fn needs_acknowledgement(self) -> (wait: bool)
        ensures
            wait == self.spec_needs_acknowledgement(),
    {
        match self {
            CommandKind::Request => true,
            CommandKind::Command => false,
        }
    }
}

impl CommandDescriptor {
    /// What every entry of the table satisfies: it has an opcode; a value is
    /// carried only by a write; a write without a value carries the mode; and
    /// reading and writing use different opcodes.
    pub open spec fn well_formed(self) -> bool {
        &&& self.read_opcode is Some || self.write_opcode is Some
        &&& self.parameter is Some ==> self.write_opcode is Some
        &&& self.write_opcode is Some && self.parameter is None ==> self.mode_scoped
        &&& self.read_opcode is Some ==> self.read_opcode != self.write_opcode
    }

    /// Whether an entry grants a capability.
    pub open spec fn spec_supports(self, capability: Capability) -> bool {
        match capability {
            Capability::Readable => self.read_opcode is Some && !self.mode_scoped,
            Capability::ModeReadable => self.read_opcode is Some && self.mode_scoped,
            Capability::Writable => self.write_opcode is Some && self.parameter is Some
                && !self.mode_scoped,
            Capability::ModeWritable => self.write_opcode is Some && self.parameter is Some
                && self.mode_scoped,
            Capability::ParameterlessWritable => self.write_opcode is Some
                && self.parameter is None && self.mode_scoped,
            Capability::Toggleable => self.read_opcode is Some && self.write_opcode is Some
                && self.parameter is Some && !self.mode_scoped,
        }
    }

    /// Whether an entry grants a capability.
    #[verifier::when_used_as_spec(spec_supports)]
    pub fn supports(self, capability: Capability) -> (granted: bool)
        ensures
            granted == self.spec_supports(capability),
    {
        let readable = self.read_opcode.is_some() && !self.mode_scoped;
        let writable = self.write_opcode.is_some() && self.parameter.is_some()
            && !self.mode_scoped;
        match capability {
            Capability::Readable => readable,
            Capability::ModeReadable => self.read_opcode.is_some() && self.mode_scoped,
            Capability::Writable => writable,
            Capability::ModeWritable => self.write_opcode.is_some() && self.parameter.is_some()
                && self.mode_scoped,
            Capability::ParameterlessWritable => self.write_opcode.is_some()
                && self.parameter.is_none() && self.mode_scoped,
            Capability::Toggleable => readable && writable,
        }
    }

    /// The opcode of the operation that a capability names, where the entry
    /// grants it. Being toggleable names no operation, and so has no opcode.
    pub open spec fn opcode_of(self, capability: Capability) -> Option<u8> {
        if !self.supports(capability) {
            None
        } else {
            match capability {
                Capability::Readable | Capability::ModeReadable => self.read_opcode,
                Capability::Writable | Capability::ModeWritable
                | Capability::ParameterlessWritable => self.write_opcode,
                Capability::Toggleable => None,
            }
        }
    }
}

/// The entry of a command that can only be read.
pub open spec fn spec_read_only(read: u8) -> CommandDescriptor {
    CommandDescriptor {
        read_opcode: Some(read),
        write_opcode: None,
        parameter: None,
        mode_scoped: false,
    }
}

/// The entry of a command that can only be read.
#[verifier::when_used_as_spec(spec_read_only)]
pub fn read_only(read: u8) -> (d: CommandDescriptor)
    ensures
        d == spec_read_only(read),
{
    CommandDescriptor {
        read_opcode: Some(read),
        write_opcode: None,
        parameter: None,
        mode_scoped: false,
    }
}

/// The entry of a command whose value can be read and written.
pub open spec fn spec_read_write(
    read: u8,
    write: u8,
    parameter: ParameterType,
    mode_scoped: bool,
) -> CommandDescriptor {
    CommandDescriptor {
        read_opcode: Some(read),
        write_opcode: Some(write),
        parameter: Some(parameter),
        mode_scoped,
    }
}

/// The entry of a command whose value can be read and written.
#[verifier::when_used_as_spec(spec_read_write)]
pub fn read_write(read: u8, write: u8, parameter: ParameterType, mode_scoped: bool) -> (d:
    CommandDescriptor)
    ensures
        d == spec_read_write(read, write, parameter, mode_scoped),
{
    CommandDescriptor {
        read_opcode: Some(read),
        write_opcode: Some(write),
        parameter: Some(parameter),
        mode_scoped,
    }
}

/// The entry of an action: written with the mode, never read.
pub open spec fn spec_action(write: u8) -> CommandDescriptor {
    CommandDescriptor {
        read_opcode: None,
        write_opcode: Some(write),
        parameter: None,
        mode_scoped: true,
    }
}

/// The entry of an action: written with the mode, never read.
#[verifier::when_used_as_spec(spec_action)]
pub fn action(write: u8) -> (d: CommandDescriptor)
    ensures
        d == spec_action(write),
{
    CommandDescriptor {
        read_opcode: None,
        write_opcode: Some(write),
        parameter: None,
        mode_scoped: true,
    }
}

impl CommandIdentity {
    /// The table itself.
    pub open spec fn spec_descriptor(self) -> CommandDescriptor {
        match self {
            CommandIdentity::DeviceVersion => read_only(0x18),
            CommandIdentity::CurrentConnectionCodec => read_only(0x16),
            CommandIdentity::BootMode => read_write(0x1C, 0x0B, ParameterType::State, false),
            CommandIdentity::LedMode => read_write(0x3D, 0x3E, ParameterType::State, false),
            CommandIdentity::LedPattern => read_write(0x4A, 0x4B, ParameterType::LedPattern, false),
            CommandIdentity::TxLdacQualitySetting => read_write(
                0x4C,
                0x4D,
                ParameterType::TxLdacQuality,
                false,
            ),
            CommandIdentity::SpdifVolumeAdjustmentSetting => read_write(
                0x52,
                0x53,
                ParameterType::State,
                false,
            ),
            CommandIdentity::UpsamplingSetting => read_write(
                0x50,
                0x51,
                ParameterType::State,
                false,
            ),
            CommandIdentity::VolumeSetting => read_write(0x12, 0x02, ParameterType::Volume, false),
            CommandIdentity::DacLowpassSetting => read_write(
                0x11,
                0x01,
                ParameterType::DacLowpass,
                false,
            ),
            CommandIdentity::OutputBalance => read_write(
                0x13,
                0x03,
                ParameterType::OutputBalance,
                false,
            ),
            CommandIdentity::Name => read_only(0x45),
            CommandIdentity::InputSources => read_write(
                0x48,
                0x49,
                ParameterType::InputSources,
                true,
            ),
            CommandIdentity::VolumeMode => read_write(0x4E, 0x4F, ParameterType::VolumeMode, true),
            CommandIdentity::EnabledCodecs => read_write(
                0x17,
                0x07,
                ParameterType::EnabledCodecs,
                true,
            ),
            CommandIdentity::FactoryReset => action(0x04),
            CommandIdentity::PowerOff => action(0x25),
            CommandIdentity::ClearPairing => action(0x43),
        }
    }

    /// Looks a command up in the table.
    #[verifier::when_used_as_spec(spec_descriptor)]
    pub fn descriptor(self) -> (d: CommandDescriptor)
        ensures
            d == self.spec_descriptor(),
    {
        match self {
            CommandIdentity::DeviceVersion => read_only(0x18),
            CommandIdentity::CurrentConnectionCodec => read_only(0x16),
            CommandIdentity::BootMode => read_write(0x1C, 0x0B, ParameterType::State, false),
            CommandIdentity::LedMode => read_write(0x3D, 0x3E, ParameterType::State, false),
            CommandIdentity::LedPattern => read_write(0x4A, 0x4B, ParameterType::LedPattern, false),
            CommandIdentity::TxLdacQualitySetting => read_write(
                0x4C,
                0x4D,
                ParameterType::TxLdacQuality,
                false,
            ),
            CommandIdentity::SpdifVolumeAdjustmentSetting => read_write(
                0x52,
                0x53,
                ParameterType::State,
                false,
            ),
            CommandIdentity::UpsamplingSetting => read_write(
                0x50,
                0x51,
                ParameterType::State,
                false,
            ),
            CommandIdentity::VolumeSetting => read_write(0x12, 0x02, ParameterType::Volume, false),
            CommandIdentity::DacLowpassSetting => read_write(
                0x11,
                0x01,
                ParameterType::DacLowpass,
                false,
            ),
            CommandIdentity::OutputBalance => read_write(
                0x13,
                0x03,
                ParameterType::OutputBalance,
                false,
            ),
            CommandIdentity::Name => read_only(0x45),
            CommandIdentity::InputSources => read_write(
                0x48,
                0x49,
                ParameterType::InputSources,
                true,
            ),
            CommandIdentity::VolumeMode => read_write(0x4E, 0x4F, ParameterType::VolumeMode, true),
            CommandIdentity::EnabledCodecs => read_write(
                0x17,
                0x07,
                ParameterType::EnabledCodecs,
                true,
            ),
            CommandIdentity::FactoryReset => action(0x04),
            CommandIdentity::PowerOff => action(0x25),
            CommandIdentity::ClearPairing => action(0x43),
        }
    }

    /// Whether the table grants a command a capability.
    pub open spec fn spec_supports(self, capability: Capability) -> bool {
        self.descriptor().supports(capability)
    }

    /// Whether the table grants a command a capability.
    #[verifier::when_used_as_spec(spec_supports)]
    pub fn supports(self, capability: Capability) -> (granted: bool)
        ensures
            granted == self.spec_supports(capability),
    {
        self.descriptor().supports(capability)
    }

    /// The opcode of the operation that a capability names, for a command
    /// that has the capability.
    pub open spec fn opcode_of(self, capability: Capability) -> Option<u8> {
        self.descriptor().opcode_of(capability)
    }

    /// The opcode to use for an operation on a command.
    ///
    /// Fails with `UnsupportedCapability` where the table does not grant the
    /// command that capability, and for `Toggleable`, which names no
    /// operation.
    pub fn opcode(self, capability: Capability) -> (r: Result<u8, CommandBuilderError>)
        ensures
            self.opcode_of(capability) matches Some(op) ==> r == Ok::<u8, CommandBuilderError>(op),
            self.opcode_of(capability) is None ==> r == Err::<u8, CommandBuilderError>(
                CommandBuilderError::UnsupportedCapability,
            ),
    {
        let d = self.descriptor();
        if !d.supports(capability) {
            return Err(CommandBuilderError::UnsupportedCapability);
        }
        let registered = match capability {
            Capability::Readable | Capability::ModeReadable => d.read_opcode,
            Capability::Writable | Capability::ModeWritable
            | Capability::ParameterlessWritable => d.write_opcode,
            Capability::Toggleable => None,
        };
        match registered {
            Some(op) => Ok(op),
            None => Err(CommandBuilderError::UnsupportedCapability),
        }
    }

    /// The acknowledgement discipline of a command. It belongs to the command
    /// and does not depend on what a payload holds: powering off is sent and
    /// not waited for, everything else is acknowledged.
    pub open spec fn spec_kind(self) -> CommandKind {
        match self {
            CommandIdentity::PowerOff => CommandKind::Command,
            _ => CommandKind::Request,
        }
    }

    /// The acknowledgement discipline of a command.
    #[verifier::when_used_as_spec(spec_kind)]
    pub fn kind(self) -> (k: CommandKind)
        ensures
            k == self.spec_kind(),
    {
        match self {
            CommandIdentity::PowerOff => CommandKind::Command,
            _ => CommandKind::Request,
        }
    }
}

/// Every entry of the table is well formed.
pub proof fn lemma_table_well_formed(id: CommandIdentity)
    ensures
        id.descriptor().well_formed(),
{
}

/// No two commands are read with the same opcode.
pub proof fn lemma_read_opcodes_distinct(a: CommandIdentity, b: CommandIdentity)
    requires
        a.descriptor().read_opcode is Some,
        a.descriptor().read_opcode == b.descriptor().read_opcode,
    ensures
        a == b,
{
}

/// No two commands are written with the same opcode.
pub proof fn lemma_write_opcodes_distinct(a: CommandIdentity, b: CommandIdentity)
    requires
        a.descriptor().write_opcode is Some,
        a.descriptor().write_opcode == b.descriptor().write_opcode,
    ensures
        a == b,
{
}

/// No opcode is used both to read a command and to write one, be it the same
/// command or another.
pub proof fn lemma_directions_share_no_opcode(a: CommandIdentity, b: CommandIdentity)
    requires
        a.descriptor().read_opcode is Some,
    ensures
        a.descriptor().read_opcode != b.descriptor().write_opcode,
{
}

/// A command is toggleable exactly when it is readable and writable.
pub proof fn lemma_toggleable_is_readable_and_writable(id: CommandIdentity)
    ensures
        id.supports(Capability::Toggleable) <==> id.supports(Capability::Readable) && id.supports(
            Capability::Writable,
        ),
{
}

/// A command without a write opcode has none of the capabilities that write,
/// and asking for the opcode of one fails.
pub proof fn lemma_read_only_has_no_write(id: CommandIdentity)
    requires
        id.descriptor().write_opcode is None,
    ensures
        !id.supports(Capability::Writable),
        !id.supports(Capability::ModeWritable),
        !id.supports(Capability::ParameterlessWritable),
        !id.supports(Capability::Toggleable),
        id.opcode_of(Capability::Writable) is None,
        id.opcode_of(Capability::ModeWritable) is None,
        id.opcode_of(Capability::ParameterlessWritable) is None,
        id.opcode_of(Capability::Toggleable) is None,
{
}

/// A command has an opcode for a capability exactly when it has the
/// capability and the capability names an operation; the opcode is then the
/// one the table lists for that direction.
pub proof fn lemma_opcode_of(id: CommandIdentity, capability: Capability)
    ensures
        id.opcode_of(capability) is Some <==> id.supports(capability) && capability
            != Capability::Toggleable,
        id.opcode_of(capability) is Some && (capability == Capability::Readable || capability
            == Capability::ModeReadable) ==> id.opcode_of(capability)
            == id.descriptor().read_opcode,
        id.opcode_of(capability) is Some && capability != Capability::Readable && capability
            != Capability::ModeReadable ==> id.opcode_of(capability)
            == id.descriptor().write_opcode,
{
}

/// A command offers at most one way to read and at most one way to write.
pub proof fn lemma_one_operation_per_direction(id: CommandIdentity)
    ensures
        !(id.supports(Capability::Readable) && id.supports(Capability::ModeReadable)),
        !(id.supports(Capability::Writable) && id.supports(Capability::ModeWritable)),
        !(id.supports(Capability::Writable) && id.supports(Capability::ParameterlessWritable)),
        !(id.supports(Capability::ModeWritable) && id.supports(
            Capability::ParameterlessWritable,
        )),
{
}

/// Every command can be read or written in exactly the way its entry says:
/// a command that has a read opcode is readable, plainly or by mode, and a
/// command that has a write opcode is writable, plainly, by mode or as an
/// action.
pub proof fn lemma_every_opcode_is_reachable(id: CommandIdentity)
    ensures
        id.descriptor().read_opcode is Some <==> id.supports(Capability::Readable) || id.supports(
            Capability::ModeReadable,
        ),
        id.descriptor().write_opcode is Some <==> id.supports(Capability::Writable) || id.supports(
            Capability::ModeWritable,
        ) || id.supports(Capability::ParameterlessWritable),
{
}

} // verus!
