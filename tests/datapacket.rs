use arrayvec::ArrayVec;
use cec_rs::{cec_datapacket, CecDatapacket, TryFromCecDatapacketError};

/// Assert that
/// 1) sizes match
/// 2) and that the elements of CecDatapacket match the first elements of packet2
fn assert_eq_packet(packet: CecDatapacket, packet2: cec_datapacket) {
    assert_eq!(packet.0.len(), packet2.size as usize);
    assert!(packet
        .0
        .as_slice()
        .iter()
        .eq(packet2.data[..(packet2.size as usize)].iter()));
}

fn assert_eq_ffi_packet(packet: cec_datapacket, packet2: cec_datapacket) {
    assert_eq!(packet.size, packet2.size);
    assert!(&packet.data.iter().eq(packet2.data.iter()));
}

#[test]
fn test_from_ffi_full_size() {
    let mut data_buffer = [50; 64];
    data_buffer[0] = 5;
    data_buffer[1] = 7;
    data_buffer[3] = 99;
    let ffi_packet = cec_datapacket {
        data: data_buffer,
        size: 64,
    };
    let packet = CecDatapacket::from_native(&ffi_packet).unwrap();
    assert_eq_packet(packet, ffi_packet);
}

#[test]
fn test_from_ffi_not_full() {
    let mut data_buffer = [50; 64];
    data_buffer[0] = 5;
    data_buffer[1] = 7;
    data_buffer[3] = 99;
    let ffi_packet = cec_datapacket {
        data: data_buffer,
        size: 3,
    };
    let packet = CecDatapacket::from_native(&ffi_packet).unwrap();
    assert_eq!(packet.0.as_slice(), &[5, 7, 50]);
}

#[test]
fn test_to_ffi_not_full() {
    let mut a = ArrayVec::new();
    a.push(2);
    a.push(50);
    let packet = CecDatapacket(a);
    let ffi_packet: cec_datapacket = packet.to_native();
    let mut expected = cec_datapacket {
        size: 2,
        data: [0; 64],
    };
    expected.data[0] = 2;
    expected.data[1] = 50;
    assert_eq_ffi_packet(ffi_packet, expected);
}

#[test]
fn test_to_ffi_full() {
    let mut a = ArrayVec::from([99; 64]);
    a.as_mut_slice()[1] = 50;
    let packet = CecDatapacket(a);
    let ffi_packet: cec_datapacket = packet.to_native();
    let mut expected = cec_datapacket {
        size: 64,
        data: [99; 64],
    };
    expected.data[1] = 50;
    assert_eq_ffi_packet(ffi_packet, expected);
}

#[test]
fn packet_round_trip_lengths() {
    for len in [0usize, 1, 63, 64] {
        let bytes: Vec<u8> = (0..len).map(|i| (i * 7 + 1) as u8).collect();
        let packet = CecDatapacket::try_from_slice(&bytes).unwrap();
        let native = packet.to_native();
        assert_eq!(native.size as usize, len);
        assert!(native.data[len..].iter().all(|b| *b == 0));
        let back = CecDatapacket::from_native(&native).unwrap();
        assert_eq!(back.as_bytes(), bytes.as_slice());
    }
}

#[test]
fn packet_of_65_bytes_is_refused() {
    let bytes = [1u8; 65];
    assert_eq!(
        CecDatapacket::try_from_slice(&bytes),
        Err(TryFromCecDatapacketError::PayloadTooLarge)
    );
}

#[test]
fn native_packet_with_oversized_length_is_refused() {
    let ffi_packet = cec_datapacket {
        data: [1; 64],
        size: 65,
    };
    assert_eq!(
        CecDatapacket::from_native(&ffi_packet),
        Err(TryFromCecDatapacketError::InvalidPayloadSize)
    );
}
