use smart_gw::msg::{deserialize, header_payload_len, Error, Msg};

#[test]
fn wire_round_trip() {
    let m = Msg { addr: 0xDEAD_BEEF_0011_2233, fcnt: 42, payload: vec![1, 2, 3, 250, 255, 0] };
    let bytes = m.serialize().unwrap();
    let back = deserialize(&bytes).unwrap();
    assert_eq!(back.addr, m.addr);
    assert_eq!(back.fcnt, m.fcnt);
    assert_eq!(back.payload, m.payload);
}

#[test]
fn wire_round_trip_empty_payload() {
    let m = Msg { addr: 0, fcnt: 0, payload: Vec::new() };
    let bytes = m.serialize().unwrap();
    assert_eq!(bytes.len(), 20);
    let back = deserialize(&bytes).unwrap();
    assert_eq!(back.addr, 0);
    assert_eq!(back.fcnt, 0);
    assert!(back.payload.is_empty());
}

#[test]
fn wire_layout_is_fixed_little_endian() {
    let m = Msg { addr: 1, fcnt: 2, payload: vec![0xAA, 0xBB] };
    let bytes = m.serialize().unwrap();
    assert_eq!(
        bytes,
        vec![
            1, 0, 0, 0, 0, 0, 0, 0, // address
            2, 0, 0, 0, // frame counter
            2, 0, 0, 0, 0, 0, 0, 0, // payload length
            0xAA, 0xBB, // payload
        ]
    );
}

#[test]
fn wire_layout_matches_reference_serializer() {
    // the layout equals the fixed-width little-endian tuple encoding
    let m = Msg { addr: 0x0102_0304_0506_0708, fcnt: 77, payload: vec![9, 8, 7] };
    let ours = m.serialize().unwrap();
    let reference =
        bincode::serialize(&(0x0102_0304_0506_0708u64, 77u32, vec![9u8, 8, 7])).unwrap();
    assert_eq!(ours, reference);
}

#[test]
fn decode_rejects_truncated_input() {
    assert_eq!(deserialize(&[]).unwrap_err(), Error::Malformed);
    assert_eq!(deserialize(&[0; 19]).unwrap_err(), Error::Malformed);
    // header present but the announced payload is missing
    let m = Msg { addr: 5, fcnt: 6, payload: vec![1, 2, 3, 4] };
    let bytes = m.serialize().unwrap();
    assert_eq!(deserialize(&bytes[..22]).unwrap_err(), Error::Malformed);
}

#[test]
fn header_announces_the_payload_length() {
    let m = Msg { addr: 5, fcnt: 6, payload: vec![1, 2, 3, 4, 5] };
    let bytes = m.serialize().unwrap();
    assert_eq!(header_payload_len(&bytes[..20]).unwrap(), 5);
    assert_eq!(header_payload_len(&bytes).unwrap(), 5);
    assert_eq!(header_payload_len(&bytes[..19]).unwrap_err(), Error::Malformed);
}

#[test]
fn decode_ignores_trailing_bytes() {
    let m = Msg { addr: 5, fcnt: 6, payload: vec![1, 2, 3] };
    let mut bytes = m.serialize().unwrap();
    bytes.push(0xEE);
    bytes.push(0xFF);
    let back = deserialize(&bytes).unwrap();
    assert_eq!(back.addr, 5);
    assert_eq!(back.payload, vec![1, 2, 3]);
}
