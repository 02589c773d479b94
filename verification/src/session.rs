//! What a program that drives the device has to decide: which of the devices
//! that advertise themselves is the receiver, where commands are written, and
//! which commands set the volume. Doing it is the program's part.

use crate::bta30::{CommandBuilderError, OperationalMode};
use crate::{
    set_volume_command, set_volume_mode_setting_command, Command, CommandKind, VolumeModeSetting,
};
use vstd::prelude::*;

verus! {

/// The name under which the receiver advertises itself.
pub const BTA_NAME: &'static str = "FiiO BTA30 Pro";

/// The GATT service that takes the control protocol.
pub const CSR_GAIA_SERVICE_UUID: u128 = 0x00001100_d102_11e1_9b23_00025b00a5a5;

/// The characteristic of that service to which commands are written.
pub const CSR_GAIA_COMMAND_ENDPOINT_UUID: u128 = 0x00001101_d102_11e1_9b23_00025b00a5a5;

/// The characteristic of that service on which the device answers.
pub const CSR_GAIA_RESPONSE_ENDPOINT_UUID: u128 = 0x00001102_d102_11e1_9b23_00025b00a5a5;

/// Whether a device that was discovered is the receiver: it is if it
/// advertises a name, and the name is exactly [`BTA_NAME`].
pub fn is_bta30(local_name: &Option<String>) -> (found: bool)
    ensures
        found <==> local_name is Some && local_name->Some_0@ == BTA_NAME@,
{
    match local_name {
        Some(name) => {
            let expected = BTA_NAME.to_owned();
            *name == expected
        },
        None => false,
    }
}

/// The commands that set the volume, in the order in which they are sent:
/// first the volume is made adjustable in receive mode, then it is set.
///
/// Fails with `IncorrectVolumeValue` above 60, before anything could be sent.
pub fn volume_commands(volume: u8) -> (r: Result<Vec<Command>, CommandBuilderError>)
    ensures
        volume <= 60 ==> r is Ok && r->Ok_0@.len() == 2,
        volume <= 60 ==> r->Ok_0@[0]@.kind == CommandKind::Request && r->Ok_0@[0]@.payload
            == seq![0x00u8, 0x0a, 0x04, 0x4f, 0x01, 0x01],
        volume <= 60 ==> r->Ok_0@[1]@.kind == CommandKind::Request && r->Ok_0@[1]@.payload
            == seq![0x00u8, 0x0a, 0x04, 0x02, volume],
        volume > 60 ==> r is Err && r->Err_0 == CommandBuilderError::IncorrectVolumeValue,
{
    let set_volume = match set_volume_command(volume) {
        Ok(command) => command,
        Err(e) => {
            return Err(e);
        },
    };
    let adjustable = match set_volume_mode_setting_command(
        OperationalMode::Rx,
        VolumeModeSetting::Adjustable,
    ) {
        Ok(command) => command,
        Err(e) => {
            return Err(e);
        },
    };
    let mut commands: Vec<Command> = Vec::new();
    commands.push(adjustable);
    commands.push(set_volume);
    Ok(commands)
}

} // verus!
