//! The control protocol of the device.
//!
//! A payload is a fixed three-byte prefix, a one-byte opcode and a body of
//! zero or more bytes. There is no length field, no padding and no checksum.
//!
//! * [`parameter`] and [`enabled_codecs`] hold the values a command can carry.
//! * [`registry`] is the table of commands: opcodes, parameter type, whether a
//!   command is scoped to an operational mode.
//! * [`capability`] holds one trait per kind of operation; [`commands`] holds
//!   one type per command, with the operations the registry grants it.

use vstd::prelude::*;

pub mod capability;
pub mod commands;
pub mod enabled_codecs;
pub mod parameter;
pub mod registry;

pub use capability::{Command, Get, ModeGet, ModeSet, ParameterlessSet, SetValue, Toggle};
pub use commands::{
    BootMode, ClearPairing, CurrentConnectionCodec, DacLowpassSetting, DeviceVersion,
    EnabledCodecs, FactoryReset, InputSources, LedMode, LedPattern, Name, OutputBalance, PowerOff,
    SpdifVolumeAdjustmentSetting, TxLdacQualitySetting, UpsamplingSetting, VolumeMode,
    VolumeSetting,
};
pub use enabled_codecs::EnabledCodecsParameter;
pub use parameter::{
    DacLowpassSettingParametter, InputSourcesParameter, LedPatternParameter, OutputBalanceAmout,
    OutputBalanceParameter, OutputBalancePosition, Parameter, StateParameter,
    TxLdacQualitySettingParameter, VolumeModeParameter, VolumeSettingParameter,
};
pub use registry::{Capability, CommandDescriptor, CommandIdentity, CommandKind, ParameterType};

verus! {

/// Prefix of every payload sent to the device.
pub const MAGIC_REQUEST: [u8; 3] = [0x00, 0x0a, 0x04];

/// Prefix of every payload the device sends back.
pub const MAGIC_REPLY: [u8; 3] = [0x00, 0x0a, 0x84];

/// The bytes written to the device for one command.
pub type Payload = Vec<u8>;

/// Why a command could not be built.
#[derive(Clone, Copy, Debug, PartialEq, Eq, Structural)]
pub enum CommandBuilderError {
    /// The requested volume is above 60.
    IncorrectVolumeValue,
    /// The requested balance amount is above 12.
    IncorrectOutputBalanceAmount,
    /// The bit pattern has a bit set that belongs to no codec flag.
    InvalidBitFlagCombination,
    /// The command has no opcode registered for the requested operation.
    UnsupportedCapability,
}

/// The direction in which the device operates. Commands that are scoped to a
/// mode carry it as one byte.
#[derive(Clone, Copy, Debug, PartialEq, Eq, Structural)]
pub enum OperationalMode {
    /// The device receives audio over Bluetooth.
    Rx,
    /// The device transmits audio over Bluetooth.
    Tx,
}

impl OperationalMode {
    /// The byte that stands for this mode on the wire.
    pub open spec fn spec_byte(self) -> u8 {
        match self {
            OperationalMode::Rx => 0x01,
            OperationalMode::Tx => 0x02,
        }
    }

    /// The byte that stands for this mode on the wire.
    #[verifier::when_used_as_spec(spec_byte)]
    pub fn byte(self) -> (b: u8)
        ensures
            b == self.spec_byte(),
    {
        match self {
            OperationalMode::Rx => 0x01,
            OperationalMode::Tx => 0x02,
        }
    }
}

/// The wire layout of a payload: prefix, opcode, body, with nothing between
/// them and nothing after.
pub open spec fn framed(magic: Seq<u8>, opcode: u8, body: Seq<u8>) -> Seq<u8> {
    magic + seq![opcode] + body
}

/// A payload in the request direction, the only one this library builds.
pub open spec fn request(opcode: u8, body: Seq<u8>) -> Seq<u8> {
    framed(MAGIC_REQUEST@, opcode, body)
}

/// The bytes of an optional body: none where there is no body.
pub open spec fn body_bytes(parameters: Option<&[u8]>) -> Seq<u8> {
    match parameters {
        Some(body) => body@,
        None => Seq::empty(),
    }
}

/// Assembles a payload from its prefix, its opcode and an optional body.
///
/// Every input is accepted: what can be wrong with a command is found when
/// its parameter is made, before any byte is framed.
pub fn payload(magic: &[u8; 3], opcode: u8, parameters: Option<&[u8]>) -> (p: Payload)
    ensures
        p@ == framed(magic@, opcode, body_bytes(parameters)),
{
    let mut payload: Vec<u8> = Vec::new();
    payload.extend_from_slice(magic.as_slice());
    payload.push(opcode);
    if let Some(parameters) = parameters {
        payload.extend_from_slice(parameters);
    }
    payload
}

/// A framed payload is four bytes longer than its body: the prefix comes
/// first, the opcode is the fourth byte, and the body follows unchanged.
pub proof fn lemma_framed_layout(magic: Seq<u8>, opcode: u8, body: Seq<u8>)
    requires
        magic.len() == 3,
    ensures
        framed(magic, opcode, body).len() == 4 + body.len(),
        framed(magic, opcode, body).subrange(0, 3) == magic,
        framed(magic, opcode, body)[3] == opcode,
        framed(magic, opcode, body).subrange(4, 4 + body.len() as int) == body,
{
    let f = framed(magic, opcode, body);
    assert(f.subrange(0, 3) =~= magic);
    assert(f.subrange(4, 4 + body.len() as int) =~= body);
}

/// A request starts with the bytes `00 0a 04`, has its opcode as fourth byte
/// and is four bytes longer than its body.
pub proof fn lemma_request_layout(opcode: u8, body: Seq<u8>)
    ensures
        request(opcode, body).len() == 4 + body.len(),
        request(opcode, body).subrange(0, 3) == seq![0x00u8, 0x0a, 0x04],
        request(opcode, body)[3] == opcode,
        request(opcode, body).subrange(4, 4 + body.len() as int) == body,
{
    lemma_framed_layout(MAGIC_REQUEST@, opcode, body);
    assert(MAGIC_REQUEST@ =~= seq![0x00u8, 0x0a, 0x04]);
}

/// Framing the same prefix, opcode and body twice gives the same bytes: the
/// payload depends on nothing else.
pub proof fn lemma_payload_deterministic(
    magic: &[u8; 3],
    opcode: u8,
    parameters: Option<&[u8]>,
    first: Payload,
    second: Payload,
)
    requires
        call_ensures(payload, (magic, opcode, parameters), first),
        call_ensures(payload, (magic, opcode, parameters), second),
    ensures
        first@ == second@,
{
}

} // verus!
