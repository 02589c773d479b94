use bta30ctl::session::{
    is_bta30, volume_commands, BTA_NAME, CSR_GAIA_COMMAND_ENDPOINT_UUID,
    CSR_GAIA_RESPONSE_ENDPOINT_UUID, CSR_GAIA_SERVICE_UUID,
};
use bta30ctl::{CommandBuilderError, CommandKind};
use uuid::Uuid;

#[test]
fn receiver_is_found_by_its_exact_name() {
    assert_eq!(BTA_NAME, "FiiO BTA30 Pro");
    assert!(is_bta30(&Some("FiiO BTA30 Pro".to_string())));
    assert!(!is_bta30(&Some("FiiO BTA30".to_string())));
    assert!(!is_bta30(&Some("fiio bta30 pro".to_string())));
    assert!(!is_bta30(&Some("FiiO BTA30 Pro ".to_string())));
    assert!(!is_bta30(&Some(String::new())));
    assert!(!is_bta30(&None));
}

#[test]
fn endpoint_identifiers() {
    assert_eq!(
        Uuid::from_u128(CSR_GAIA_SERVICE_UUID).to_string(),
        "00001100-d102-11e1-9b23-00025b00a5a5"
    );
    assert_eq!(
        Uuid::from_u128(CSR_GAIA_COMMAND_ENDPOINT_UUID).to_string(),
        "00001101-d102-11e1-9b23-00025b00a5a5"
    );
    assert_eq!(
        Uuid::from_u128(CSR_GAIA_RESPONSE_ENDPOINT_UUID).to_string(),
        "00001102-d102-11e1-9b23-00025b00a5a5"
    );
}

#[test]
fn volume_is_made_adjustable_and_then_set() {
    for v in 0..=60u8 {
        let commands = volume_commands(v).unwrap();
        assert_eq!(commands.len(), 2);
        assert_eq!(commands[0].payload(), &vec![0x00, 0x0a, 0x04, 0x4f, 0x01, 0x01]);
        assert_eq!(commands[0].kind(), CommandKind::Request);
        assert_eq!(commands[1].payload(), &vec![0x00, 0x0a, 0x04, 0x02, v]);
        assert_eq!(commands[1].kind(), CommandKind::Request);
    }
}

#[test]
fn no_command_for_a_volume_out_of_range() {
    for v in 61..=255u8 {
        assert_eq!(volume_commands(v).unwrap_err(), CommandBuilderError::IncorrectVolumeValue);
    }
}
