use cec_rs::{
    CecAdapterType, CecDeviceType, CecLogLevel, CecLogicalAddress, CecOpcode, CecPowerStatus,
    CecUserControlCode, CecVendorId, LibcecVersion,
};

#[test]
fn codes_match_native_values() {
    assert_eq!(CecOpcode::ActiveSource.repr(), 0x82);
    assert_eq!(CecOpcode::Standby.repr(), 0x36);
    assert_eq!(CecOpcode::OpcodeNone.repr(), 0xfd);
    assert_eq!(CecLogicalAddress::Unknown.repr(), -1);
    assert_eq!(CecLogicalAddress::Unregistered.repr(), 15);
    assert_eq!(CecUserControlCode::Up.repr(), 1);
    assert_eq!(CecDeviceType::AudioSystem.repr(), 5);
    assert_eq!(CecPowerStatus::Unknown.repr(), 0x99);
    assert_eq!(CecVendorId::Samsung.repr(), 0x0000f0);
    assert_eq!(LibcecVersion::Current.repr(), 393218);
}

#[test]
fn every_address_round_trips() {
    for code in -1..=15 {
        let address = CecLogicalAddress::from_repr(code).unwrap();
        assert_eq!(address.repr(), code);
        assert_eq!(CecLogicalAddress::from_repr(address.repr()), Some(address));
    }
    assert_eq!(CecLogicalAddress::from_repr(16), None);
    assert_eq!(CecLogicalAddress::from_repr(-2), None);
}

#[test]
fn opcodes_round_trip_and_unknown_codes_fail() {
    let mut known = 0;
    for code in 0..=255u32 {
        if let Some(op) = CecOpcode::from_repr(code) {
            assert_eq!(op.repr(), code);
            known += 1;
        }
    }
    assert_eq!(known, 72);
    assert_eq!(CecOpcode::from_repr(0x1000), None);
}

#[test]
fn other_enumerations_round_trip() {
    for level in [
        CecLogLevel::Error,
        CecLogLevel::Warning,
        CecLogLevel::Notice,
        CecLogLevel::Traffic,
        CecLogLevel::Debug,
        CecLogLevel::All,
    ] {
        assert_eq!(CecLogLevel::from_repr(level.repr()), Some(level));
    }
    assert_eq!(CecLogLevel::from_repr(0), None);
    assert_eq!(CecAdapterType::from_repr(CecAdapterType::Rpi.repr()), Some(CecAdapterType::Rpi));
    assert_eq!(
        CecUserControlCode::from_repr(CecUserControlCode::AnChannelsList.repr()),
        Some(CecUserControlCode::AnChannelsList)
    );
}
