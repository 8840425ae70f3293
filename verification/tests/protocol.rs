use com_rs::serdes::{IPV4_CONF_WORDS, STR_32_WORDS, STR_64_WORDS};
use com_rs::{ComState, ConnectResult, LinkState};

#[test]
fn registry_codes_unique() {
    let t = ComState::table();
    for i in 0..t.len() {
        for j in (i + 1)..t.len() {
            assert_ne!(t[i].verb, t[j].verb);
        }
    }
}

#[test]
fn registry_responses_write_nothing() {
    let mut responses: usize = 0;
    for e in ComState::table() {
        if e.response {
            assert_eq!(e.w_words, 0);
            responses += 1;
        }
    }
    assert_eq!(responses, 3); // flash ack, charger status return, error
}

#[test]
fn lookup_finds_registered_verbs() {
    let ipv4 = ComState::lookup(0x2307).unwrap();
    assert_eq!(ipv4.w_words, 0);
    assert_eq!(ipv4.r_words, 14);
    assert!(!ipv4.response);

    let set_ssid = ComState::lookup(0x2302).unwrap();
    assert_eq!(set_ssid.w_words, 17);

    let flash_ack = ComState::lookup(0x3CC3).unwrap();
    assert!(flash_ack.response);

    let error = ComState::lookup(0xDEAD).unwrap();
    assert!(error.response);
    assert_eq!(error.w_words, 0);
    assert_eq!(error.r_words, 0);
}

#[test]
fn lookup_rejects_unregistered_code() {
    assert!(ComState::lookup(0x0000).is_none());
    assert!(ComState::lookup(0x2001).is_none());
    assert!(ComState::lookup(0x6900).is_none()); // backlight range interior is direct-encoded
}

#[test]
fn link_state_decodes_every_known_code() {
    assert_eq!(LinkState::decode_u16(0), LinkState::Unknown);
    assert_eq!(LinkState::decode_u16(1), LinkState::ResetHold);
    assert_eq!(LinkState::decode_u16(2), LinkState::Uninitialized);
    assert_eq!(LinkState::decode_u16(3), LinkState::Initializing);
    assert_eq!(LinkState::decode_u16(4), LinkState::Disconnected);
    assert_eq!(LinkState::decode_u16(5), LinkState::Connecting);
    assert_eq!(LinkState::decode_u16(6), LinkState::Connected);
    assert_eq!(LinkState::decode_u16(7), LinkState::WFXError);
}

#[test]
fn link_state_falls_back_to_unknown() {
    assert_eq!(LinkState::decode_u16(8), LinkState::Unknown);
    assert_eq!(LinkState::decode_u16(0xFFFF), LinkState::Unknown);
}

#[test]
fn connect_result_decodes_every_known_code() {
    assert_eq!(ConnectResult::decode_u16(0), ConnectResult::Success);
    assert_eq!(ConnectResult::decode_u16(1), ConnectResult::NoMatchingAp);
    assert_eq!(ConnectResult::decode_u16(2), ConnectResult::Timeout);
    assert_eq!(ConnectResult::decode_u16(3), ConnectResult::Reject);
    assert_eq!(ConnectResult::decode_u16(4), ConnectResult::AuthFail);
    assert_eq!(ConnectResult::decode_u16(5), ConnectResult::Error);
    assert_eq!(ConnectResult::decode_u16(7), ConnectResult::Aborted);
}

#[test]
fn connect_result_falls_back_to_pending() {
    assert_eq!(ConnectResult::decode_u16(6), ConnectResult::Pending);
    assert_eq!(ConnectResult::decode_u16(8), ConnectResult::Pending);
    assert_eq!(ConnectResult::decode_u16(0xABCD), ConnectResult::Pending);
}

#[test]
fn interrupt_mask_bits_are_distinct() {
    let bits = [
        com_rs::INT_WLAN_RX_READY,
        com_rs::INT_WLAN_IPCONF_UPDATE,
        com_rs::INT_WLAN_SSID_UPDATE,
        com_rs::INT_BATTERY_CRITICAL,
        com_rs::INT_WLAN_TX_ERROR,
        com_rs::INT_WLAN_RX_ERROR,
        com_rs::INT_WLAN_DISCONNECT,
        com_rs::INT_WLAN_CONNECT_EVENT,
        com_rs::INT_WLAN_SSID_FINISHED,
        com_rs::INT_INVALID,
    ];
    for (i, a) in bits.iter().enumerate() {
        assert_eq!(a.count_ones(), 1);
        for b in bits.iter().skip(i + 1) {
            assert_eq!(a & b, 0);
        }
    }
    assert_eq!(com_rs::INT_WLAN_RX_READY, 1 << 0);
    assert_eq!(com_rs::INT_WLAN_SSID_FINISHED, 1 << 8);
    assert_eq!(com_rs::INT_INVALID, 1 << 15);
}

#[test]
fn registry_matches_codec_word_counts() {
    let set_ssid = ComState::lookup(0x2302).unwrap();
    assert_eq!(set_ssid.w_words as usize, STR_32_WORDS);
    let set_pass = ComState::lookup(0x2303).unwrap();
    assert_eq!(set_pass.w_words as usize, STR_64_WORDS);
    let status = ComState::lookup(0x2306).unwrap();
    assert_eq!(status.r_words as usize, STR_64_WORDS);
    let ipv4 = ComState::lookup(0x2307).unwrap();
    assert_eq!(ipv4.r_words as usize, IPV4_CONF_WORDS);
}
