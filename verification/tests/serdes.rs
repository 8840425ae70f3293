use com_rs::serdes::{DhcpState, Ipv4Conf, SerdesError, StringDes, StringSer, STR_32_U8_SIZE, STR_32_WORDS};

/// Pack two ASCII chars as a u16
fn c2u16(c1: char, c2: char) -> u16 {
    u16::from_le_bytes([c1 as u8, c2 as u8])
}

#[test]
fn serialize_short_str() {
    const U16_LEN: usize = 4;
    let src = "short";
    let encoded = &[5, c2u16('s', 'h'), c2u16('o', 'r'), 't' as u16];
    let mut ser = StringSer::new(U16_LEN);
    ser.encode(&src).unwrap();
    assert_eq!(&encoded[..], ser.as_u16_slice());
}

#[test]
fn deserialize_short_str() {
    const U16_LEN: usize = 4;
    const U8_LEN: usize = 2 * (U16_LEN - 1);
    let src = "short";
    let encoded = &[5, c2u16('s', 'h'), c2u16('o', 'r'), 't' as u16];
    let mut des = StringDes::new(U16_LEN, U8_LEN);
    assert_eq!(src, des.decode_u16(encoded).unwrap());
}

#[test]
fn round_trip_short_str() {
    const U16_LEN: usize = 4;
    const U8_LEN: usize = 2 * (U16_LEN - 1);
    let src = "short";
    let mut ser = StringSer::new(U16_LEN);
    let mut des = StringDes::new(U16_LEN, U8_LEN);
    ser.encode(&src).unwrap();
    assert_eq!(src, des.decode_u16(ser.as_u16_slice()).unwrap());
}

#[test]
fn round_trip_empty_str() {
    let mut ser = StringSer::new(4);
    let mut des = StringDes::new(4, 6);
    ser.encode(&"").unwrap();
    assert_eq!(ser.as_u16_slice()[0], 0);
    assert_eq!("", des.decode_u16(ser.as_u16_slice()).unwrap());
}

#[test]
fn round_trip_even_length_str() {
    let mut ser = StringSer::new(4);
    let mut des = StringDes::new(4, 6);
    ser.encode(&"even").unwrap();
    assert_eq!(
        ser.as_u16_slice(),
        &[4, c2u16('e', 'v'), c2u16('e', 'n'), 0]
    );
    assert_eq!("even", des.decode_u16(ser.as_u16_slice()).unwrap());
}

#[test]
fn round_trip_multibyte_utf8() {
    let src = "pâté £5 ✓";
    let mut ser = StringSer::new(STR_32_WORDS);
    let mut des = StringDes::new(STR_32_WORDS, STR_32_U8_SIZE);
    ser.encode(&src).unwrap();
    assert_eq!(ser.as_u16_slice()[0] as usize, src.len());
    assert_eq!(src, des.decode_u16(ser.as_u16_slice()).unwrap());
}

#[test]
fn round_trip_full_capacity_str() {
    let src = "abcdefghijklmnopqrstuvwxyz012345";
    assert_eq!(src.len(), STR_32_U8_SIZE);
    let mut ser = StringSer::new(STR_32_WORDS);
    let mut des = StringDes::new(STR_32_WORDS, STR_32_U8_SIZE);
    ser.encode(&src).unwrap();
    assert_eq!(src, des.decode_u16(ser.as_u16_slice()).unwrap());
}

#[test]
fn encode_rejects_str_too_long() {
    // a 7-byte string cannot fit a 4-word buffer, whose capacity is 6 bytes
    let mut ser = StringSer::new(4);
    assert_eq!(
        ser.encode(&"toolong").unwrap_err(),
        SerdesError::StrLenTooBig
    );
}

#[test]
fn encode_failure_leaves_buffer_unchanged() {
    let mut ser = StringSer::new(4);
    ser.encode(&"ok").unwrap();
    let before: Vec<u16> = ser.as_u16_slice().to_vec();
    assert!(ser.encode(&"seven..").is_err());
    assert_eq!(&before[..], ser.as_u16_slice());
}

#[test]
fn decode_rejects_oversized_length_word() {
    // the length word claims 7 bytes, but a 4-word buffer carries at most 6
    let mut des = StringDes::new(4, 6);
    let corrupt = [7u16, c2u16('a', 'b'), c2u16('c', 'd'), c2u16('e', 'f')];
    assert_eq!(
        des.decode_u16(&corrupt).unwrap_err(),
        SerdesError::StrLenTooBig
    );
}

#[test]
fn decode_rejects_bad_utf8() {
    let mut des = StringDes::new(4, 6);
    let bad = [2u16, u16::from_le_bytes([0xFF, 0xFE]), 0, 0];
    assert_eq!(des.decode_u16(&bad).unwrap_err(), SerdesError::Utf8Decode);
}

#[test]
fn decode_ignores_words_beyond_length() {
    // a reused encoder buffer keeps stale words beyond the new string; the
    // decoder trusts the length word exclusively
    let mut ser = StringSer::new(4);
    let mut des = StringDes::new(4, 6);
    ser.encode(&"abcdef").unwrap();
    ser.encode(&"xy").unwrap();
    assert_eq!(ser.as_u16_slice()[2], c2u16('c', 'd'));
    assert_eq!("xy", des.decode_u16(ser.as_u16_slice()).unwrap());
}

#[test]
fn ipv4_conf_encode_layout() {
    let c = Ipv4Conf {
        dhcp: DhcpState::Bound,
        mac: [0x11, 0x22, 0x33, 0x44, 0x55, 0x66],
        addr: [192, 168, 1, 2],
        gtwy: [192, 168, 1, 1],
        mask: [255, 255, 255, 0],
        dns1: [8, 8, 4, 4],
        dns2: [1, 1, 1, 1],
    };
    let w = c.encode_u16();
    assert_eq!(w.len(), 14);
    assert_eq!(w[0], 4); // Bound
    assert_eq!(w[1], 0x2211);
    assert_eq!(w[2], 0x4433);
    assert_eq!(w[3], 0x6655);
    assert_eq!(w[4], u16::from_le_bytes([192, 168]));
    assert_eq!(w[5], u16::from_le_bytes([1, 2]));
    assert_eq!(w[6], u16::from_le_bytes([192, 168]));
    assert_eq!(w[7], u16::from_le_bytes([1, 1]));
    assert_eq!(w[8], u16::from_le_bytes([255, 255]));
    assert_eq!(w[9], u16::from_le_bytes([255, 0]));
    assert_eq!(w[10], u16::from_le_bytes([8, 8]));
    assert_eq!(w[11], u16::from_le_bytes([4, 4]));
    assert_eq!(w[12], u16::from_le_bytes([1, 1]));
    assert_eq!(w[13], u16::from_le_bytes([1, 1]));
}

#[test]
fn ipv4_conf_round_trip() {
    let c = Ipv4Conf {
        dhcp: DhcpState::Renewing,
        mac: [0xDE, 0xAD, 0xBE, 0xEF, 0x01, 0x02],
        addr: [10, 0, 0, 7],
        gtwy: [10, 0, 0, 1],
        mask: [255, 0, 0, 0],
        dns1: [9, 9, 9, 9],
        dns2: [149, 112, 112, 112],
    };
    let d = Ipv4Conf::decode_u16(&c.encode_u16());
    assert_eq!(d.dhcp, DhcpState::Renewing);
    assert_eq!(d.mac, c.mac);
    assert_eq!(d.addr, c.addr);
    assert_eq!(d.gtwy, c.gtwy);
    assert_eq!(d.mask, c.mask);
    assert_eq!(d.dns1, c.dns1);
    assert_eq!(d.dns2, c.dns2);
}

#[test]
fn ipv4_conf_unknown_dhcp_decodes_as_invalid() {
    let mut w = [0u16; 14];
    w[0] = 9;
    let d = Ipv4Conf::decode_u16(&w);
    assert_eq!(d.dhcp, DhcpState::Invalid);
    assert_eq!(d.mac, [0u8; 6]);
}
