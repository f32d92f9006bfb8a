use arrayvec::ArrayVec;
use cec_rs::{
    cec_command, cec_datapacket, CecCommand, CecDatapacket, CecLogicalAddress, CecOpcode,
    DurationOutOfRange, TryFromCecCommandError,
};
use std::time::Duration;

fn assert_eq_ffi_packet(packet: cec_datapacket, packet2: cec_datapacket) {
    assert_eq!(packet.size, packet2.size);
    assert!(&packet.data.iter().eq(packet2.data.iter()));
}

fn assert_eq_ffi_command(actual: cec_command, expected: cec_command) {
    assert_eq!(actual.ack, expected.ack);
    assert_eq!(actual.destination, expected.destination);
    assert_eq!(actual.eom, expected.eom);
    assert_eq!(actual.initiator, expected.initiator);
    assert_eq!(actual.opcode, expected.opcode);
    assert_eq!(actual.opcode_set, expected.opcode_set);
    assert_eq_ffi_packet(actual.parameters, expected.parameters);
    assert_eq!(actual.transmit_timeout, expected.transmit_timeout);
}

fn assert_eq_command(actual: CecCommand, expected: CecCommand) {
    assert_eq!(actual.ack, expected.ack);
    assert_eq!(actual.destination, expected.destination);
    assert_eq!(actual.eom, expected.eom);
    assert_eq!(actual.initiator, expected.initiator);
    assert_eq!(actual.opcode, expected.opcode);
    assert_eq!(actual.opcode_set, expected.opcode_set);
    assert_eq!(actual.parameters.0, expected.parameters.0);
    assert_eq!(actual.transmit_timeout, expected.transmit_timeout);
}

fn sample_native() -> cec_command {
    let mut parameters = ArrayVec::new();
    parameters.push(2);
    parameters.push(3);
    cec_command {
        ack: 0,
        destination: CecLogicalAddress::Playbackdevice2.repr(),
        eom: 1,
        initiator: CecLogicalAddress::Playbackdevice1.repr(),
        opcode: CecOpcode::ClearAnalogueTimer.repr(),
        opcode_set: 1,
        parameters: CecDatapacket(parameters).to_native(),
        transmit_timeout: 65_000,
    }
}

#[test]
fn test_to_ffi() {
    let mut parameters = ArrayVec::new();
    parameters.push(2);
    parameters.push(3);
    let command = CecCommand {
        opcode: CecOpcode::ClearAnalogueTimer,
        initiator: CecLogicalAddress::Playbackdevice1,
        destination: CecLogicalAddress::Playbackdevice2,
        parameters: CecDatapacket(parameters.clone()),
        transmit_timeout: Duration::from_secs(65),
        ack: false,
        eom: true,
        opcode_set: true,
    };
    let ffi_command: cec_command = command.to_native().unwrap();
    assert_eq_ffi_command(
        ffi_command,
        cec_command {
            ack: 0,
            destination: CecLogicalAddress::Playbackdevice2.repr(),
            eom: 1,
            initiator: CecLogicalAddress::Playbackdevice1.repr(),
            opcode: CecOpcode::ClearAnalogueTimer.repr(),
            opcode_set: 1,
            parameters: CecDatapacket(parameters).to_native(),
            transmit_timeout: 65_000,
        },
    )
}

#[test]
fn test_from_ffi() {
    let mut parameters = ArrayVec::new();
    parameters.push(2);
    parameters.push(3);
    let ffi_command = sample_native();
    let command = CecCommand::from_native(&ffi_command).unwrap();
    assert_eq_command(
        command,
        CecCommand {
            ack: false,
            destination: CecLogicalAddress::Playbackdevice2,
            eom: true,
            initiator: CecLogicalAddress::Playbackdevice1,
            opcode: CecOpcode::ClearAnalogueTimer,
            opcode_set: true,
            parameters: CecDatapacket(parameters),
            transmit_timeout: Duration::from_millis(65000),
        },
    )
}

#[test]
fn unknown_opcode_is_reported() {
    let mut raw = sample_native();
    raw.opcode = 0x01;
    assert!(CecOpcode::from_repr(0x01).is_none());
    assert_eq!(
        CecCommand::from_native(&raw).err(),
        Some(TryFromCecCommandError::UnknownOpcode)
    );
}

#[test]
fn unknown_addresses_are_reported() {
    let mut raw = sample_native();
    raw.initiator = 16;
    assert_eq!(
        CecCommand::from_native(&raw).err(),
        Some(TryFromCecCommandError::UnknownInitiator)
    );
    let mut raw = sample_native();
    raw.destination = -2;
    assert_eq!(
        CecCommand::from_native(&raw).err(),
        Some(TryFromCecCommandError::UnknownDestination)
    );
    let mut raw = sample_native();
    raw.opcode = 0x01;
    raw.initiator = 16;
    assert_eq!(
        CecCommand::from_native(&raw).err(),
        Some(TryFromCecCommandError::UnknownOpcode)
    );
}

#[test]
fn oversized_parameters_are_reported() {
    let mut raw = sample_native();
    raw.parameters.size = 200;
    assert_eq!(
        CecCommand::from_native(&raw).err(),
        Some(TryFromCecCommandError::InvalidPayloadSize)
    );
}

#[test]
fn negative_timeout_is_clamped_to_zero() {
    let mut raw = sample_native();
    raw.transmit_timeout = -50;
    let command = CecCommand::from_native(&raw).unwrap();
    assert_eq!(command.transmit_timeout, Duration::from_millis(0));
}

#[test]
fn flags_decode_from_any_nonzero_value() {
    let mut raw = sample_native();
    raw.ack = 5;
    raw.eom = 0;
    raw.opcode_set = -1;
    let command = CecCommand::from_native(&raw).unwrap();
    assert!(command.ack);
    assert!(!command.eom);
    assert!(command.opcode_set);
}

#[test]
fn timeout_too_large_for_native_field_is_reported() {
    let command = CecCommand {
        opcode: CecOpcode::Standby,
        initiator: CecLogicalAddress::Tv,
        destination: CecLogicalAddress::Unregistered,
        parameters: CecDatapacket(ArrayVec::new()),
        transmit_timeout: Duration::from_millis(i32::MAX as u64 + 1),
        ack: true,
        eom: false,
        opcode_set: false,
    };
    assert_eq!(command.to_native().err(), Some(DurationOutOfRange {}));
    let mut command = command;
    command.transmit_timeout = Duration::from_millis(i32::MAX as u64);
    let native = command.to_native().unwrap();
    assert_eq!(native.transmit_timeout, i32::MAX);
    assert_eq!(native.ack, 1);
    assert_eq!(native.eom, 0);
    assert_eq!(native.opcode, 0x36);
    assert_eq!(native.destination, 15);
}
