use cec_rs::{
    cec_logical_addresses, CecLogicalAddress, CecLogicalAddresses,
    KnownAndRegisteredCecLogicalAddress, KnownCecLogicalAddress,
    TryFromCecLogicalAddressesError, UnregisteredCecLogicalAddress,
};

fn registered(a: CecLogicalAddress) -> KnownAndRegisteredCecLogicalAddress {
    KnownAndRegisteredCecLogicalAddress::new(a).unwrap()
}

#[test]
fn test_known_address() {
    assert_eq!(
        Some(CecLogicalAddress::Audiosystem),
        KnownCecLogicalAddress::new(CecLogicalAddress::Audiosystem).map(|a| a.address())
    );
    assert_eq!(
        Some(CecLogicalAddress::Unregistered),
        KnownCecLogicalAddress::new(CecLogicalAddress::Unregistered).map(|a| a.address())
    );
    assert_eq!(None, KnownCecLogicalAddress::new(CecLogicalAddress::Unknown));
}

#[test]
fn test_known_and_registered_address() {
    assert_eq!(
        Some(CecLogicalAddress::Audiosystem),
        KnownAndRegisteredCecLogicalAddress::new(CecLogicalAddress::Audiosystem)
            .map(|a| a.address())
    );
    assert_eq!(
        None,
        KnownAndRegisteredCecLogicalAddress::new(CecLogicalAddress::Unregistered)
    );
    assert_eq!(
        None,
        KnownAndRegisteredCecLogicalAddress::new(CecLogicalAddress::Unknown)
    );
}

#[test]
fn known_address_narrows_to_registered() {
    let tv = KnownCecLogicalAddress::new(CecLogicalAddress::Tv).unwrap();
    assert_eq!(tv.try_into_registered().map(|a| a.address()), Ok(CecLogicalAddress::Tv));
    let unregistered = KnownCecLogicalAddress::new(CecLogicalAddress::Unregistered).unwrap();
    assert_eq!(
        unregistered.try_into_registered(),
        Err(UnregisteredCecLogicalAddress {})
    );
}

#[test]
fn test_to_ffi_no_address() {
    let ffi_addresses: cec_logical_addresses = CecLogicalAddresses::default().to_native();
    assert_eq!(
        ffi_addresses.primary,
        CecLogicalAddress::Unregistered.repr()
    );
    assert_eq!(ffi_addresses.addresses, [0; 16]);

    // try converting back
    let rust_addresses = CecLogicalAddresses::from_native(&ffi_addresses).unwrap();
    assert_eq!(
        rust_addresses.primary.address(),
        CecLogicalAddress::Unregistered
    );
    assert!(rust_addresses.addresses.is_empty());
}

#[test]
fn test_to_ffi_one_address() {
    let ffi_addresses: cec_logical_addresses = CecLogicalAddresses::with_only_primary(
        &KnownCecLogicalAddress::new(CecLogicalAddress::Playbackdevice1).unwrap(),
    )
    .to_native();
    assert_eq!(
        ffi_addresses.primary,
        CecLogicalAddress::Playbackdevice1.repr()
    );
    // the mask holds the registered primary alone
    let mut expected = [0; 16];
    expected[CecLogicalAddress::Playbackdevice1.repr() as usize] = 1;
    assert_eq!(ffi_addresses.addresses, expected);

    // try converting back: the primary's slot decodes to a listed address
    let rust_addresses = CecLogicalAddresses::from_native(&ffi_addresses).unwrap();
    assert_eq!(
        rust_addresses.primary.address(),
        CecLogicalAddress::Playbackdevice1
    );
    let listed: Vec<CecLogicalAddress> =
        rust_addresses.addresses.iter().map(|a| a.address()).collect();
    assert_eq!(listed, vec![CecLogicalAddress::Playbackdevice1]);
}

#[test]
fn test_to_ffi_three_address() {
    let others = vec![
        registered(CecLogicalAddress::Playbackdevice2),
        registered(CecLogicalAddress::Audiosystem),
    ];

    let non_ffi = CecLogicalAddresses::with_primary_and_addresses(
        &KnownCecLogicalAddress::new(CecLogicalAddress::Playbackdevice1).unwrap(),
        &others,
    )
    .unwrap();

    let ffi_addresses: cec_logical_addresses = non_ffi.to_native();

    assert_eq!(
        ffi_addresses.primary,
        CecLogicalAddress::Playbackdevice1.repr()
    );
    let ffi_secondary = ffi_addresses.addresses;
    let primary_index = CecLogicalAddress::Playbackdevice1.repr() as usize;
    let playbackdevice2_index = CecLogicalAddress::Playbackdevice2.repr() as usize;
    let audiosystem_index = CecLogicalAddress::Audiosystem.repr() as usize;
    for (mask_index, mask_value) in ffi_secondary.iter().enumerate() {
        // Note: the primary address is in the mask too, though it was not among the others
        if mask_index == playbackdevice2_index
            || mask_index == audiosystem_index
            || mask_index == primary_index
        {
            assert_eq!(
                1, *mask_value,
                "index {}, non-ffi addresses {:?}, ffi addresses {:?}",
                mask_index, non_ffi, ffi_addresses
            )
        } else {
            assert_eq!(0, *mask_value)
        }
    }

    // try converting back
    let rust_addresses = CecLogicalAddresses::from_native(&ffi_addresses).unwrap();
    assert_eq!(rust_addresses.primary, non_ffi.primary);
    assert_eq!(rust_addresses.addresses, non_ffi.addresses);
}

#[test]
fn test_unregistered_primary_no_others() {
    let expected = Some(CecLogicalAddresses::with_only_primary(
        &KnownCecLogicalAddress::new(CecLogicalAddress::Unregistered).unwrap(),
    ));
    assert_eq!(
        expected,
        CecLogicalAddresses::with_primary_and_addresses(
            &KnownCecLogicalAddress::new(CecLogicalAddress::Unregistered).unwrap(),
            &Vec::new(),
        )
    );
}

#[test]
fn test_unregistered_primary_some_others() {
    let others = vec![registered(CecLogicalAddress::Audiosystem)];
    // If there are others, there should be also primary
    assert_eq!(
        None,
        CecLogicalAddresses::with_primary_and_addresses(
            &KnownCecLogicalAddress::new(CecLogicalAddress::Unregistered).unwrap(),
            &others,
        )
    );
}

#[test]
fn bitmap_of_primary_four_and_six_nine() {
    let primary = KnownCecLogicalAddress::new(CecLogicalAddress::from_repr(4).unwrap()).unwrap();
    let others = vec![
        registered(CecLogicalAddress::from_repr(9).unwrap()),
        registered(CecLogicalAddress::from_repr(6).unwrap()),
    ];
    let set = CecLogicalAddresses::with_primary_and_addresses(&primary, &others).unwrap();
    let native = set.to_native();
    let mut expected = [0; 16];
    expected[4] = 1;
    expected[6] = 1;
    expected[9] = 1;
    assert_eq!(native.addresses, expected);
    assert_eq!(native.primary, 4);
}

#[test]
fn primary_is_added_once_and_order_is_canonical() {
    let primary = KnownCecLogicalAddress::new(CecLogicalAddress::Tuner1).unwrap();
    let others = vec![
        registered(CecLogicalAddress::Tv),
        registered(CecLogicalAddress::Tuner1),
        registered(CecLogicalAddress::Tv),
    ];
    let set = CecLogicalAddresses::with_primary_and_addresses(&primary, &others).unwrap();
    let listed: Vec<CecLogicalAddress> = set.addresses.iter().map(|a| a.address()).collect();
    assert_eq!(listed, vec![CecLogicalAddress::Tv, CecLogicalAddress::Tuner1]);
}

#[test]
fn decoding_skips_unregistered_slot_and_reports_bad_primary() {
    let mut native = cec_logical_addresses {
        primary: CecLogicalAddress::Tv.repr(),
        addresses: [0; 16],
    };
    native.addresses[15] = 1;
    native.addresses[3] = 7;
    let set = CecLogicalAddresses::from_native(&native).unwrap();
    let listed: Vec<CecLogicalAddress> = set.addresses.iter().map(|a| a.address()).collect();
    assert_eq!(listed, vec![CecLogicalAddress::Tuner1]);

    native.primary = -1;
    assert_eq!(
        CecLogicalAddresses::from_native(&native),
        Err(TryFromCecLogicalAddressesError::UnknownPrimaryAddress)
    );
    native.primary = 42;
    assert_eq!(
        CecLogicalAddresses::from_native(&native),
        Err(TryFromCecLogicalAddressesError::InvalidPrimaryAddress)
    );
}

#[test]
fn unregistered_primary_has_no_slot() {
    let set = CecLogicalAddresses::with_only_primary(
        &KnownCecLogicalAddress::new(CecLogicalAddress::Unregistered).unwrap(),
    );
    let native = set.to_native();
    assert_eq!(native.primary, 15);
    assert_eq!(native.addresses, [0; 16]);
}
