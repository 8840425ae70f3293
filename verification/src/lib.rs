//! Wire contract for a word-oriented command/response bus between a host
//! processor and a companion embedded controller.
//!
//! The controller exposes its functions as numeric "verbs". Every verb
//! carries a fixed, pre-declared count of 16-bit words to be written and
//! read, because the underlying transport is a shift-register-style link:
//! the requester must generate exactly enough word exchanges to drain any
//! response. This crate holds the verb registry, the codecs that turn
//! application values into the fixed-size word sequences the registry
//! promises, and the status enumerations carried as payload.

pub mod serdes;

use vstd::prelude::*;

verus! {

/// One verb's wire contract: its numeric code, how many payload words the
/// host writes after the verb word, how many words it must read back to
/// drain the controller's FIFO, and whether the code is a response emitted
/// by the controller rather than a verb issued by the host.
#[derive(Copy, Clone, Debug)]
pub struct ComSpec {
    /// the "verb" specifying the command
    pub verb: u16,
    /// number of payload words expected -- not counting the verb or dummies for read
    pub w_words: u16,
    /// number of words to be returned to host; host must generate dummy exchanges equal to this to empty the FIFO
    pub r_words: u16,
    /// specifies if this "verb" is a response code, or a verb
    pub response: bool,
}

/// Possible link layer connection states
#[derive(Copy, Clone, PartialEq, Eq, Debug)]
pub enum LinkState {
    Unknown,
    ResetHold,
    Uninitialized,
    Initializing,
    Disconnected,
    Connecting,
    Connected,
    WFXError,
}

/// The link state a wire integer decodes to: the named state for a known
/// code, and `Unknown` for anything else the link may carry.
pub open spec fn link_state_of(code: u16) -> LinkState {
    if code == 1 {
        LinkState::ResetHold
    } else if code == 2 {
        LinkState::Uninitialized
    } else if code == 3 {
        LinkState::Initializing
    } else if code == 4 {
        LinkState::Disconnected
    } else if code == 5 {
        LinkState::Connecting
    } else if code == 6 {
        LinkState::Connected
    } else if code == 7 {
        LinkState::WFXError
    } else {
        LinkState::Unknown
    }
}

impl LinkState {
    /// Decode a link state from the wire. Never fails: an unrecognized
    /// integer (stale or adversarial) maps to `Unknown`.
    pub fn decode_u16(state: u16) -> (r: Self)
        ensures
            r == link_state_of(state),
    {
        match state {
            0 => LinkState::Unknown,
            1 => LinkState::ResetHold,
            2 => LinkState::Uninitialized,
            3 => LinkState::Initializing,
            4 => LinkState::Disconnected,
            5 => LinkState::Connecting,
            6 => LinkState::Connected,
            7 => LinkState::WFXError,
            _ => LinkState::Unknown,
        }
    }
}

/// DHCP Client States
///
/// Note that InitReboot and Rebooting were intentionally omitted. Also, Halted is for
/// power-up or receiving a DHCPNAK while in Renewing or Rebinding.
#[derive(Copy, Clone, PartialEq, Eq, Debug)]
pub enum DhcpState {
    Halted,
    Init,
    Selecting,
    Requesting,
    Bound,
    Renewing,
    Rebinding,
    Invalid,
}

/// Possible connection results
#[derive(Copy, Clone, PartialEq, Eq, Debug)]
pub enum ConnectResult {
    Success,
    NoMatchingAp,
    Aborted,
    Timeout,
    Reject,
    AuthFail,
    Error,
    Pending,
}

/// The connection result a wire integer decodes to: the named result for a
/// known code, and the `Pending` fallback for anything else.
pub open spec fn connect_result_of(code: u16) -> ConnectResult {
    if code == 0 {
        ConnectResult::Success
    } else if code == 1 {
        ConnectResult::NoMatchingAp
    } else if code == 2 {
        ConnectResult::Timeout
    } else if code == 3 {
        ConnectResult::Reject
    } else if code == 4 {
        ConnectResult::AuthFail
    } else if code == 5 {
        ConnectResult::Error
    } else if code == 7 {
        ConnectResult::Aborted
    } else {
        ConnectResult::Pending
    }
}

impl ConnectResult {
    /// Decode a connection result from the wire. Never fails: an
    /// unrecognized integer maps to `Pending`.
    pub fn decode_u16(state: u16) -> (r: Self)
        ensures
            r == connect_result_of(state),
    {
        match state {
            0 => ConnectResult::Success,
            1 => ConnectResult::NoMatchingAp,
            2 => ConnectResult::Timeout,
            3 => ConnectResult::Reject,
            4 => ConnectResult::AuthFail,
            5 => ConnectResult::Error,
            7 => ConnectResult::Aborted,
            _ => ConnectResult::Pending,
        }
    }
}

/// Status decoding is total: every 16-bit integer the link can carry maps to
/// a defined variant, and every integer outside the named codes maps to the
/// enumeration's designated fallback (`Unknown` for link states, `Pending`
/// for connection results).
pub proof fn lemma_status_decode_total()
    ensures
        forall|code: u16| code > 7 ==> link_state_of(code) == LinkState::Unknown,
        forall|code: u16| code == 6 || code > 7 ==> connect_result_of(code)
            == ConnectResult::Pending,
{
}

// COM interrupt mask bits
// set when an Rx packet is ready. Argument is length of packet.
pub const INT_WLAN_RX_READY: u16 = 0b0000_0000_0000_0001;

// set when IP configuration has been updated and should be read out. Generated by the DHCP engine.
pub const INT_WLAN_IPCONF_UPDATE: u16 = 0b0000_0000_0000_0010;

// set when SSID scan has new data.
pub const INT_WLAN_SSID_UPDATE: u16 = 0b0000_0000_0000_0100;

// set when battery is critical and system is about to shut down
pub const INT_BATTERY_CRITICAL: u16 = 0b0000_0000_0000_1000;

// set if there's an error transmitting a packet
pub const INT_WLAN_TX_ERROR: u16 = 0b0000_0000_0001_0000;

// set if there's an error receiving a packet
pub const INT_WLAN_RX_ERROR: u16 = 0b0000_0000_0010_0000;

// set if there's a disconnect event happened
pub const INT_WLAN_DISCONNECT: u16 = 0b0000_0000_0100_0000;

// set when a connection attempt finishes. must read the status code for the exact result.
pub const INT_WLAN_CONNECT_EVENT: u16 = 0b0000_0000_1000_0000;

// set when SSID scan has finished.
pub const INT_WLAN_SSID_FINISHED: u16 = 0b0000_0001_0000_0000;

// reserve one code for internal error handling
pub const INT_INVALID: u16 = 0b1000_0000_0000_0000;

/// The closed verb registry: every verb the protocol knows, in ascending
/// order of verb code, each with its exact write/read word-count contract.
///
/// Verb codes are partitioned by leading hex digit into functional groups:
/// network 0x2xxx, flash 0x3xxx, system meta 0x4xxx, charger-dangerous
/// 0x5Axx, backlight 0x6800-0x6BFF (a direct-encoded range: the low 10 bits
/// of the code carry the backlight level, so only the range ends are
/// registered), gas gauge 0x7xxx, charger status 0x8xxx, power 0x9xxx, gyro
/// 0xAxxx, USB-CC 0xB0xx, net-frame send/fetch 0xC000-0xCFFF (the low 11
/// bits of the code carry a byte count; a few sample entries are registered),
/// the catch-all error code 0xDEAD, and link overhead 0xF0xx/0xFFFF.
pub open spec fn registry_spec() -> Seq<ComSpec> {
    seq![
        ComSpec { verb: 0x2000, w_words: 0, r_words: 1, response: false },  // SSID_CHECK
        ComSpec { verb: 0x2100, w_words: 0, r_words: 96, response: false },  // SSID_FETCH
        ComSpec { verb: 0x2101, w_words: 0, r_words: 272, response: false },  // SSID_FETCH_STR
        ComSpec { verb: 0x2200, w_words: 129, r_words: 0, response: false },  // WFX_PDS_LINE_SET
        ComSpec { verb: 0x2201, w_words: 0, r_words: 188, response: false },  // WFX_RXSTAT_GET
        ComSpec { verb: 0x2202, w_words: 0, r_words: 3, response: false },  // WFX_FW_REV_GET
        ComSpec { verb: 0x2203, w_words: 1, r_words: 0, response: false },  // WF200_RESET
        ComSpec { verb: 0x2204, w_words: 0, r_words: 0, response: false },  // SSID_SCAN_ON
        ComSpec { verb: 0x2205, w_words: 0, r_words: 0, response: false },  // SSID_SCAN_OFF
        ComSpec { verb: 0x2206, w_words: 0, r_words: 8, response: false },  // WF200_DEBUG
        ComSpec { verb: 0x2300, w_words: 0, r_words: 0, response: false },  // WLAN_ON
        ComSpec { verb: 0x2301, w_words: 0, r_words: 0, response: false },  // WLAN_OFF
        ComSpec { verb: 0x2302, w_words: 17, r_words: 0, response: false },  // WLAN_SET_SSID
        ComSpec { verb: 0x2303, w_words: 33, r_words: 0, response: false },  // WLAN_SET_PASS
        ComSpec { verb: 0x2304, w_words: 0, r_words: 0, response: false },  // WLAN_JOIN
        ComSpec { verb: 0x2305, w_words: 0, r_words: 0, response: false },  // WLAN_LEAVE
        ComSpec { verb: 0x2306, w_words: 0, r_words: 33, response: false },  // WLAN_STATUS
        ComSpec { verb: 0x2307, w_words: 0, r_words: 14, response: false },  // WLAN_GET_IPV4_CONF
        ComSpec { verb: 0x2308, w_words: 0, r_words: 4, response: false },  // WLAN_GET_ERRCOUNTS
        ComSpec { verb: 0x2309, w_words: 0, r_words: 33, response: false },  // WLAN_BIN_STATUS
        ComSpec { verb: 0x230A, w_words: 0, r_words: 1, response: false },  // WLAN_GET_RSSI
        ComSpec { verb: 0x230B, w_words: 0, r_words: 2, response: false },  // WLAN_SYNC_STATE
        ComSpec { verb: 0x3000, w_words: 0, r_words: 1, response: false },  // FLASH_WAITACK
        ComSpec { verb: 0x3200, w_words: 4, r_words: 0, response: false },  // FLASH_ERASE
        ComSpec { verb: 0x3300, w_words: 130, r_words: 0, response: false },  // FLASH_PP
        ComSpec { verb: 0x3400, w_words: 0, r_words: 0, response: false },  // FLASH_LOCK
        ComSpec { verb: 0x3434, w_words: 0, r_words: 0, response: false },  // FLASH_UNLOCK
        ComSpec { verb: 0x3CC3, w_words: 0, r_words: 0, response: true },  // FLASH_ACK
        ComSpec { verb: 0x4000, w_words: 0, r_words: 1, response: false },  // LOOP_TEST
        ComSpec { verb: 0x4001, w_words: 0, r_words: 3, response: false },  // EC_GIT_REV
        ComSpec { verb: 0x4002, w_words: 0, r_words: 4, response: false },  // UPTIME
        ComSpec { verb: 0x4003, w_words: 8, r_words: 0, response: false },  // TRNG_SEED
        ComSpec { verb: 0x4004, w_words: 0, r_words: 16, response: false },  // EC_SW_TAG
        ComSpec { verb: 0x5A00, w_words: 0, r_words: 0, response: false },  // CHG_START
        ComSpec { verb: 0x5ABB, w_words: 0, r_words: 0, response: false },  // CHG_BOOST_ON
        ComSpec { verb: 0x5AFE, w_words: 0, r_words: 0, response: false },  // CHG_BOOST_OFF
        ComSpec { verb: 0x6800, w_words: 0, r_words: 0, response: false },  // BL_START
        ComSpec { verb: 0x6BFF, w_words: 0, r_words: 0, response: false },  // BL_END
        ComSpec { verb: 0x7000, w_words: 0, r_words: 4, response: false },  // GAS_GAUGE
        ComSpec { verb: 0x7200, w_words: 0, r_words: 1, response: false },  // GG_DEBUG
        ComSpec { verb: 0x7300, w_words: 0, r_words: 1, response: false },  // GG_SOC
        ComSpec { verb: 0x7400, w_words: 0, r_words: 1, response: false },  // GG_REMAINING
        ComSpec { verb: 0x7402, w_words: 0, r_words: 1, response: false },  // GG_FULL_CAPACITY
        ComSpec { verb: 0x7600, w_words: 0, r_words: 1, response: false },  // GG_GET_CAPACITY
        ComSpec { verb: 0x7676, w_words: 1, r_words: 1, response: false },  // GG_FACTORY_CAPACITY
        ComSpec { verb: 0x8000, w_words: 0, r_words: 16, response: false },  // STAT
        ComSpec { verb: 0x8001, w_words: 0, r_words: 0, response: true },  // STAT_RETURN
        ComSpec { verb: 0x9000, w_words: 0, r_words: 1, response: false },  // POWER_OFF
        ComSpec { verb: 0x9100, w_words: 0, r_words: 1, response: false },  // POWER_CHARGER_STATE
        ComSpec { verb: 0x9200, w_words: 0, r_words: 0, response: false },  // POWER_SHIPMODE
        ComSpec { verb: 0xA000, w_words: 0, r_words: 0, response: false },  // GYRO_UPDATE
        ComSpec { verb: 0xA100, w_words: 0, r_words: 4, response: false },  // GYRO_READ
        ComSpec { verb: 0xB000, w_words: 0, r_words: 5, response: false },  // POLL_USB_CC
        ComSpec { verb: 0xC000, w_words: 0, r_words: 0, response: false },  // NET_FRAME_SEND_0
        ComSpec { verb: 0xC001, w_words: 1, r_words: 0, response: false },  // NET_FRAME_SEND_1
        ComSpec { verb: 0xC7FF, w_words: 0x7FF, r_words: 0, response: false },  // NET_FRAME_SEND_7FF
        ComSpec { verb: 0xC800, w_words: 0, r_words: 0, response: false },  // NET_FRAME_FETCH_0
        ComSpec { verb: 0xC801, w_words: 0, r_words: 1, response: false },  // NET_FRAME_FETCH_1
        ComSpec { verb: 0xC802, w_words: 0, r_words: 2, response: false },  // NET_FRAME_FETCH_2
        ComSpec { verb: 0xCFFF, w_words: 0, r_words: 0x7FF, response: false },  // NET_FRAME_FETCH_7FF
        ComSpec { verb: 0xDEAD, w_words: 0, r_words: 0, response: true },  // ERROR
        ComSpec { verb: 0xF0F0, w_words: 0, r_words: 0, response: false },  // LINK_READ
        ComSpec { verb: 0xF108, w_words: 0, r_words: 2, response: false },  // LINK_GET_INTERRUPT
        ComSpec { verb: 0xF109, w_words: 1, r_words: 0, response: false },  // LINK_SET_INTMASK
        ComSpec { verb: 0xF10A, w_words: 0, r_words: 1, response: false },  // LINK_GET_INTMASK
        ComSpec { verb: 0xF10B, w_words: 1, r_words: 0, response: false },  // LINK_ACK_INTERRUPT
        ComSpec { verb: 0xFFFF, w_words: 0, r_words: 0, response: false },  // LINK_SYNC
    ]
}

proof fn lemma_ascending_lt(s: Seq<ComSpec>, i: int, j: int)
    requires
        forall|k: int| 0 <= k < s.len() - 1 ==> (#[trigger] s[k]).verb < s[k + 1].verb,
        0 <= i < j < s.len(),
    ensures
        s[i].verb < s[j].verb,
    decreases j - i,
{
    if i < j - 1 {
        lemma_ascending_lt(s, i, j - 1);
    }
}

/// The registry is well formed: no two entries share a verb code, and every
/// entry marked as a response writes no payload words (a response is
/// read-only).
#[verifier::rlimit(100)]
pub proof fn lemma_registry_well_formed()
    ensures
        forall|i: int, j: int|
            0 <= i < j < registry_spec().len() ==> (#[trigger] registry_spec()[i]).verb != (
            #[trigger] registry_spec()[j]).verb,
        forall|i: int|
            0 <= i < registry_spec().len() && (#[trigger] registry_spec()[i]).response
                ==> registry_spec()[i].w_words == 0,
{
    let s = registry_spec();
    assert(forall|k: int|
        0 <= k < s.len() - 1 ==> (#[trigger] s[k]).verb < s[k + 1].verb);
    assert forall|i: int, j: int| 0 <= i < j < s.len() implies (#[trigger] s[i]).verb != (
    #[trigger] s[j]).verb by {
        lemma_ascending_lt(s, i, j);
    }
    assert(forall|i: int|
        0 <= i < s.len() && (#[trigger] s[i]).response ==> s[i].w_words == 0);
}

/// The verb registry: the closed, immutable set of all known verb contracts,
/// keyed by verb code.
#[non_exhaustive]
pub struct ComState;

impl ComState {
    /// The registry as a vector, one entry per registered verb, equal to
    /// `registry_spec()`.
    pub fn table() -> (r: Vec<ComSpec>)
        ensures
            r@ == registry_spec(),
    {
        let mut t: Vec<ComSpec> = Vec::new();
        t.push(ComSpec { verb: 0x2000, w_words: 0, r_words: 1, response: false });
        t.push(ComSpec { verb: 0x2100, w_words: 0, r_words: 96, response: false });
        t.push(ComSpec { verb: 0x2101, w_words: 0, r_words: 272, response: false });
        t.push(ComSpec { verb: 0x2200, w_words: 129, r_words: 0, response: false });
        t.push(ComSpec { verb: 0x2201, w_words: 0, r_words: 188, response: false });
        t.push(ComSpec { verb: 0x2202, w_words: 0, r_words: 3, response: false });
        t.push(ComSpec { verb: 0x2203, w_words: 1, r_words: 0, response: false });
        t.push(ComSpec { verb: 0x2204, w_words: 0, r_words: 0, response: false });
        t.push(ComSpec { verb: 0x2205, w_words: 0, r_words: 0, response: false });
        t.push(ComSpec { verb: 0x2206, w_words: 0, r_words: 8, response: false });
        t.push(ComSpec { verb: 0x2300, w_words: 0, r_words: 0, response: false });
        t.push(ComSpec { verb: 0x2301, w_words: 0, r_words: 0, response: false });
        t.push(ComSpec { verb: 0x2302, w_words: 17, r_words: 0, response: false });
        t.push(ComSpec { verb: 0x2303, w_words: 33, r_words: 0, response: false });
        t.push(ComSpec { verb: 0x2304, w_words: 0, r_words: 0, response: false });
        t.push(ComSpec { verb: 0x2305, w_words: 0, r_words: 0, response: false });
        t.push(ComSpec { verb: 0x2306, w_words: 0, r_words: 33, response: false });
        t.push(ComSpec { verb: 0x2307, w_words: 0, r_words: 14, response: false });
        t.push(ComSpec { verb: 0x2308, w_words: 0, r_words: 4, response: false });
        t.push(ComSpec { verb: 0x2309, w_words: 0, r_words: 33, response: false });
        t.push(ComSpec { verb: 0x230A, w_words: 0, r_words: 1, response: false });
        t.push(ComSpec { verb: 0x230B, w_words: 0, r_words: 2, response: false });
        t.push(ComSpec { verb: 0x3000, w_words: 0, r_words: 1, response: false });
        t.push(ComSpec { verb: 0x3200, w_words: 4, r_words: 0, response: false });
        t.push(ComSpec { verb: 0x3300, w_words: 130, r_words: 0, response: false });
        t.push(ComSpec { verb: 0x3400, w_words: 0, r_words: 0, response: false });
        t.push(ComSpec { verb: 0x3434, w_words: 0, r_words: 0, response: false });
        t.push(ComSpec { verb: 0x3CC3, w_words: 0, r_words: 0, response: true });
        t.push(ComSpec { verb: 0x4000, w_words: 0, r_words: 1, response: false });
        t.push(ComSpec { verb: 0x4001, w_words: 0, r_words: 3, response: false });
        t.push(ComSpec { verb: 0x4002, w_words: 0, r_words: 4, response: false });
        t.push(ComSpec { verb: 0x4003, w_words: 8, r_words: 0, response: false });
        t.push(ComSpec { verb: 0x4004, w_words: 0, r_words: 16, response: false });
        t.push(ComSpec { verb: 0x5A00, w_words: 0, r_words: 0, response: false });
        t.push(ComSpec { verb: 0x5ABB, w_words: 0, r_words: 0, response: false });
        t.push(ComSpec { verb: 0x5AFE, w_words: 0, r_words: 0, response: false });
        t.push(ComSpec { verb: 0x6800, w_words: 0, r_words: 0, response: false });
        t.push(ComSpec { verb: 0x6BFF, w_words: 0, r_words: 0, response: false });
        t.push(ComSpec { verb: 0x7000, w_words: 0, r_words: 4, response: false });
        t.push(ComSpec { verb: 0x7200, w_words: 0, r_words: 1, response: false });
        t.push(ComSpec { verb: 0x7300, w_words: 0, r_words: 1, response: false });
        t.push(ComSpec { verb: 0x7400, w_words: 0, r_words: 1, response: false });
        t.push(ComSpec { verb: 0x7402, w_words: 0, r_words: 1, response: false });
        t.push(ComSpec { verb: 0x7600, w_words: 0, r_words: 1, response: false });
        t.push(ComSpec { verb: 0x7676, w_words: 1, r_words: 1, response: false });
        t.push(ComSpec { verb: 0x8000, w_words: 0, r_words: 16, response: false });
        t.push(ComSpec { verb: 0x8001, w_words: 0, r_words: 0, response: true });
        t.push(ComSpec { verb: 0x9000, w_words: 0, r_words: 1, response: false });
        t.push(ComSpec { verb: 0x9100, w_words: 0, r_words: 1, response: false });
        t.push(ComSpec { verb: 0x9200, w_words: 0, r_words: 0, response: false });
        t.push(ComSpec { verb: 0xA000, w_words: 0, r_words: 0, response: false });
        t.push(ComSpec { verb: 0xA100, w_words: 0, r_words: 4, response: false });
        t.push(ComSpec { verb: 0xB000, w_words: 0, r_words: 5, response: false });
        t.push(ComSpec { verb: 0xC000, w_words: 0, r_words: 0, response: false });
        t.push(ComSpec { verb: 0xC001, w_words: 1, r_words: 0, response: false });
        t.push(ComSpec { verb: 0xC7FF, w_words: 0x7FF, r_words: 0, response: false });
        t.push(ComSpec { verb: 0xC800, w_words: 0, r_words: 0, response: false });
        t.push(ComSpec { verb: 0xC801, w_words: 0, r_words: 1, response: false });
        t.push(ComSpec { verb: 0xC802, w_words: 0, r_words: 2, response: false });
        t.push(ComSpec { verb: 0xCFFF, w_words: 0, r_words: 0x7FF, response: false });
        t.push(ComSpec { verb: 0xDEAD, w_words: 0, r_words: 0, response: true });
        t.push(ComSpec { verb: 0xF0F0, w_words: 0, r_words: 0, response: false });
        t.push(ComSpec { verb: 0xF108, w_words: 0, r_words: 2, response: false });
        t.push(ComSpec { verb: 0xF109, w_words: 1, r_words: 0, response: false });
        t.push(ComSpec { verb: 0xF10A, w_words: 0, r_words: 1, response: false });
        t.push(ComSpec { verb: 0xF10B, w_words: 1, r_words: 0, response: false });
        t.push(ComSpec { verb: 0xFFFF, w_words: 0, r_words: 0, response: false });
        proof {
            assert(t@ =~= registry_spec());
        }
        t
    }

    /// Look a verb code up in the registry. Deterministic and pure: the
    /// entry whose code is `code` when one is registered, `None` otherwise
    /// (a protocol-level fatal condition for the dispatch layer to surface).
    pub fn lookup(code: u16) -> (r: Option<ComSpec>)
        ensures
            match r {
                Some(entry) => entry.verb == code && registry_spec().contains(entry),
                None => forall|i: int|
                    0 <= i < registry_spec().len() ==> (#[trigger] registry_spec()[i]).verb
                        != code,
            },
    {
        let t = Self::table();
        let mut idx: usize = 0;
        while idx < t.len()
            invariant
                t@ == registry_spec(),
                0 <= idx <= t@.len(),
                forall|i: int| 0 <= i < idx ==> (#[trigger] registry_spec()[i]).verb != code,
            decreases t@.len() - idx,
        {
            if t[idx].verb == code {
                let entry = t[idx];
                proof {
                    assert(registry_spec()[idx as int] == entry);
                }
                return Some(entry);
            }
            idx += 1;
        }
        None
    }
}

} // verus!

