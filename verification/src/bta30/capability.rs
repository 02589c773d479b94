//! The operations of a command, one trait per kind of operation.
//!
//! A command type has an operation only if it implements the trait for it,
//! and it can implement the trait only if the registry grants its identity
//! the capability: each trait asks the implementor to prove just that. The
//! opcode is never written down again; it is looked up.

use crate::bta30::parameter::Parameter;
use crate::bta30::registry::{Capability, CommandIdentity};
use crate::bta30::{
    lemma_request_layout, payload, request, OperationalMode, Payload, MAGIC_REQUEST,
};
use vstd::pervasive::unreached;
use vstd::prelude::*;

verus! {

/// The byte of the mode where a payload carries one, else nothing.
pub open spec fn mode_bytes(mode: Option<OperationalMode>) -> Seq<u8> {
    match mode {
        Some(mode) => seq![mode.byte()],
        None => Seq::empty(),
    }
}

/// The payload that reads a command: the read opcode, then the mode where
/// the read is scoped to one.
pub open spec fn read_payload(id: CommandIdentity, mode: Option<OperationalMode>) -> Seq<u8> {
    request(id.descriptor().read_opcode->Some_0, mode_bytes(mode))
}

/// The payload that writes a command: the write opcode, then the mode where
/// the write is scoped to one, then the bytes of the value. The mode always
/// comes before the value.
pub open spec fn write_payload(
    id: CommandIdentity,
    mode: Option<OperationalMode>,
    parameter: Seq<u8>,
) -> Seq<u8> {
    request(id.descriptor().write_opcode->Some_0, mode_bytes(mode) + parameter)
}

/// A command of the device.
pub trait Command {
    /// The entry of the registry that this type stands for.
    spec fn identity() -> CommandIdentity;

    /// The entry of the registry that this type stands for.
    fn id() -> (id: CommandIdentity)
        ensures
            id == Self::identity(),
    ;
}

/// A command whose current value can be read.
pub trait Get: Command {
    /// The registry lists the command as readable.
    proof fn readable()
        ensures
            Self::identity().supports(Capability::Readable),
    ;

    /// The opcode that reads the command.
    fn opcode() -> (op: u8)
        ensures
            Self::identity().descriptor().read_opcode == Some(op),
    {
        proof {
            Self::readable();
        }
        match Self::id().opcode(Capability::Readable) {
            Ok(op) => op,
            Err(_) => unreached(),
        }
    }

    /// The payload that asks for the current value: the opcode and nothing
    /// after it.
    fn request_payload() -> (p: Payload)
        ensures
            p@ == read_payload(Self::identity(), None),
    {
        payload(&MAGIC_REQUEST, Self::opcode(), None)
    }
}

/// A command whose current value can be read for one operational mode.
pub trait ModeGet: Command {
    /// The registry lists the command as readable by mode.
    proof fn mode_readable()
        ensures
            Self::identity().supports(Capability::ModeReadable),
    ;

    /// The opcode that reads the command.
    fn opcode() -> (op: u8)
        ensures
            Self::identity().descriptor().read_opcode == Some(op),
    {
        proof {
            Self::mode_readable();
        }
        match Self::id().opcode(Capability::ModeReadable) {
            Ok(op) => op,
            Err(_) => unreached(),
        }
    }

    /// The payload that asks for the current value in a mode: the opcode,
    /// then the mode.
    fn request_payload(mode: OperationalMode) -> (p: Payload)
        ensures
            p@ == read_payload(Self::identity(), Some(mode)),
    {
        let body = vec![mode.byte()];
        payload(&MAGIC_REQUEST, Self::opcode(), Some(body.as_slice()))
    }
}

/// A command to which a value can be written.
pub trait SetValue: Command {
    /// The type of value that the command takes. A value of another type is
    /// refused by the compiler.
    type Parameter: Parameter;

    /// The registry lists the command as writable, with this type of value.
    proof fn writable()
        ensures
            Self::identity().supports(Capability::Writable),
            Self::identity().descriptor().parameter == Some(Self::Parameter::parameter_type()),
    ;

    /// The opcode that writes the command.
    fn opcode() -> (op: u8)
        ensures
            Self::identity().descriptor().write_opcode == Some(op),
    {
        proof {
            Self::writable();
        }
        match Self::id().opcode(Capability::Writable) {
            Ok(op) => op,
            Err(_) => unreached(),
        }
    }

    /// The bytes that follow the opcode: those of the value.
    fn request_payload_parameters(parameter: &Self::Parameter) -> (body: Vec<u8>)
        ensures
            body@ == parameter.encoding(),
    {
        parameter.value()
    }

    /// The payload that writes a value: the opcode, then the value.
    fn request_payload(parameter: &Self::Parameter) -> (p: Payload)
        ensures
            p@ == write_payload(Self::identity(), None, parameter.encoding()),
    {
        let body = Self::request_payload_parameters(parameter);
        assert(mode_bytes(None) + body@ =~= body@);
        payload(&MAGIC_REQUEST, Self::opcode(), Some(body.as_slice()))
    }
}

/// A command to which a value can be written for one operational mode.
pub trait ModeSet: Command {
    /// The type of value that the command takes. A value of another type is
    /// refused by the compiler.
    type Parameter: Parameter;

    /// The registry lists the command as writable by mode, with this type of
    /// value.
    proof fn mode_writable()
        ensures
            Self::identity().supports(Capability::ModeWritable),
            Self::identity().descriptor().parameter == Some(Self::Parameter::parameter_type()),
    ;

    /// The opcode that writes the command.
    fn opcode() -> (op: u8)
        ensures
            Self::identity().descriptor().write_opcode == Some(op),
    {
        proof {
            Self::mode_writable();
        }
        match Self::id().opcode(Capability::ModeWritable) {
            Ok(op) => op,
            Err(_) => unreached(),
        }
    }

    /// The bytes of the value, which follow the mode.
    fn request_payload_parameters(parameter: &Self::Parameter) -> (body: Vec<u8>)
        ensures
            body@ == parameter.encoding(),
    {
        parameter.value()
    }

    /// The payload that writes a value in a mode: the opcode, then the mode,
    /// then the value, in this order.
    fn request_payload(mode: OperationalMode, parameter: &Self::Parameter) -> (p: Payload)
        ensures
            p@ == write_payload(Self::identity(), Some(mode), parameter.encoding()),
    {
        let mut tail = Self::request_payload_parameters(parameter);
        tail.insert(0, mode.byte());
        assert(tail@ =~= mode_bytes(Some(mode)) + parameter.encoding());
        payload(&MAGIC_REQUEST, Self::opcode(), Some(tail.as_slice()))
    }
}

/// A command that is an action: its write carries the mode and no value.
pub trait ParameterlessSet: Command {
    /// The registry lists the command as an action.
    proof fn parameterless_writable()
        ensures
            Self::identity().supports(Capability::ParameterlessWritable),
    ;

    /// The opcode that writes the command.
    fn opcode() -> (op: u8)
        ensures
            Self::identity().descriptor().write_opcode == Some(op),
    {
        proof {
            Self::parameterless_writable();
        }
        match Self::id().opcode(Capability::ParameterlessWritable) {
            Ok(op) => op,
            Err(_) => unreached(),
        }
    }

    /// The payload that triggers the action in a mode: the opcode, then the
    /// mode.
    fn request_payload(mode: OperationalMode) -> (p: Payload)
        ensures
            p@ == write_payload(Self::identity(), Some(mode), Seq::empty()),
    {
        let body = vec![mode.byte()];
        assert(body@ =~= mode_bytes(Some(mode)) + Seq::<u8>::empty());
        payload(&MAGIC_REQUEST, Self::opcode(), Some(body.as_slice()))
    }
}

/// A command whose value can be read and written. This adds no operation:
/// every command that has both has this.
pub trait Toggle: Get + SetValue {
    /// The registry lists the command as toggleable.
    proof fn toggleable()
        ensures
            Self::identity().supports(Capability::Toggleable),
    {
        Self::readable();
        Self::writable();
    }
}

impl<C: Get + SetValue> Toggle for C {

}

/// Whatever is written, to whichever command that has a write opcode: the
/// payload starts with `00 0a 04`, its fourth byte is the write opcode of the
/// registry, then comes the mode where one is given, then the value, and
/// nothing else. So it is four bytes longer than the value, and five where it
/// carries a mode.
pub proof fn lemma_write_payload_layout(
    id: CommandIdentity,
    mode: Option<OperationalMode>,
    parameter: Seq<u8>,
)
    requires
        id.descriptor().write_opcode is Some,
    ensures
        mode is None ==> write_payload(id, mode, parameter).len() == 4 + parameter.len(),
        mode is Some ==> write_payload(id, mode, parameter).len() == 5 + parameter.len(),
        write_payload(id, mode, parameter).subrange(0, 3) == seq![0x00u8, 0x0a, 0x04],
        Some(write_payload(id, mode, parameter)[3]) == id.descriptor().write_opcode,
        mode matches Some(m) ==> write_payload(id, mode, parameter)[4] == m.byte(),
        write_payload(id, mode, parameter).subrange(
            4 + mode_bytes(mode).len() as int,
            write_payload(id, mode, parameter).len() as int,
        ) == parameter,
{
    let opcode = id.descriptor().write_opcode->Some_0;
    let body = mode_bytes(mode) + parameter;
    lemma_request_layout(opcode, body);
    let p = write_payload(id, mode, parameter);
    assert(p.subrange(4 + mode_bytes(mode).len() as int, p.len() as int) =~= parameter);
}

/// Whatever is read, from whichever command that has a read opcode: the
/// payload starts with `00 0a 04`, its fourth byte is the read opcode of the
/// registry, and only the mode follows, where one is given.
pub proof fn lemma_read_payload_layout(id: CommandIdentity, mode: Option<OperationalMode>)
    requires
        id.descriptor().read_opcode is Some,
    ensures
        mode is None ==> read_payload(id, mode).len() == 4,
        mode is Some ==> read_payload(id, mode).len() == 5,
        read_payload(id, mode).subrange(0, 3) == seq![0x00u8, 0x0a, 0x04],
        Some(read_payload(id, mode)[3]) == id.descriptor().read_opcode,
        mode matches Some(m) ==> read_payload(id, mode)[4] == m.byte(),
{
    lemma_request_layout(id.descriptor().read_opcode->Some_0, mode_bytes(mode));
}

/// The length of a write follows from the command alone: four bytes, one more
/// where the command is scoped to a mode, and as many as the registry gives
/// for the command's type of value.
pub proof fn lemma_set_payload_len<C: SetValue>(parameter: C::Parameter)
    ensures
        write_payload(C::identity(), None, parameter.encoding()).len() == 4
            + C::Parameter::parameter_type().encoded_len(),
        C::identity().descriptor().parameter == Some(C::Parameter::parameter_type()),
{
    C::writable();
    parameter.lemma_encoding_len();
    lemma_write_payload_layout(C::identity(), None, parameter.encoding());
}

/// The length of a write in a mode follows from the command alone: five
/// bytes, and as many as the registry gives for the command's type of value.
pub proof fn lemma_mode_set_payload_len<C: ModeSet>(mode: OperationalMode, parameter: C::Parameter)
    ensures
        write_payload(C::identity(), Some(mode), parameter.encoding()).len() == 5
            + C::Parameter::parameter_type().encoded_len(),
        C::identity().descriptor().parameter == Some(C::Parameter::parameter_type()),
{
    C::mode_writable();
    parameter.lemma_encoding_len();
    lemma_write_payload_layout(C::identity(), Some(mode), parameter.encoding());
}

/// Building the same read twice gives the same bytes.
pub proof fn lemma_get_deterministic<C: Get>(first: Payload, second: Payload)
    requires
        call_ensures(<C as Get>::request_payload, (), first),
        call_ensures(<C as Get>::request_payload, (), second),
    ensures
        first@ == second@,
{
}

/// Building the same read in the same mode twice gives the same bytes.
pub proof fn lemma_mode_get_deterministic<C: ModeGet>(
    mode: OperationalMode,
    first: Payload,
    second: Payload,
)
    requires
        call_ensures(<C as ModeGet>::request_payload, (mode,), first),
        call_ensures(<C as ModeGet>::request_payload, (mode,), second),
    ensures
        first@ == second@,
{
}

/// Building the same write of the same value twice gives the same bytes.
pub proof fn lemma_set_deterministic<C: SetValue>(
    parameter: &C::Parameter,
    first: Payload,
    second: Payload,
)
    requires
        call_ensures(<C as SetValue>::request_payload, (parameter,), first),
        call_ensures(<C as SetValue>::request_payload, (parameter,), second),
    ensures
        first@ == second@,
{
}

/// Building the same write of the same value in the same mode twice gives the
/// same bytes.
pub proof fn lemma_mode_set_deterministic<C: ModeSet>(
    mode: OperationalMode,
    parameter: &C::Parameter,
    first: Payload,
    second: Payload,
)
    requires
        call_ensures(<C as ModeSet>::request_payload, (mode, parameter), first),
        call_ensures(<C as ModeSet>::request_payload, (mode, parameter), second),
    ensures
        first@ == second@,
{
}

/// Building the same action in the same mode twice gives the same bytes.
pub proof fn lemma_parameterless_set_deterministic<C: ParameterlessSet>(
    mode: OperationalMode,
    first: Payload,
    second: Payload,
)
    requires
        call_ensures(<C as ParameterlessSet>::request_payload, (mode,), first),
        call_ensures(<C as ParameterlessSet>::request_payload, (mode,), second),
    ensures
        first@ == second@,
{
}

} // verus!
