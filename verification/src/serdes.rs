//! Codecs for the values carried over the bus: UTF-8 string slices and the
//! IPv4 configuration record, serialized as fixed-capacity `[u16]` buffers.
//!
//! Serialized `[u16]` buffer format for strings:
//! - `u16_buf[0]`: length of packed string in bytes
//! - `u16_buf[1..N]`: little-endian packed utf-8 string

use crate::ComSpec;
use vstd::prelude::*;
use vstd::utf8::{decode_utf8, encode_utf8, valid_utf8};

verus! {

// String fields come in two fixed capacities throughout the protocol:
// 17 words = 1 length + 16 data (max utf-8 length 32 bytes), and
// 33 words = 1 length + 32 data (max utf-8 length 64 bytes).
pub const STR_32_WORDS: usize = 17;

pub const STR_64_WORDS: usize = 33;

pub const STR_32_U8_SIZE: usize = 2 * (STR_32_WORDS - 1);

pub const STR_64_U8_SIZE: usize = 2 * (STR_64_WORDS - 1);

// The word capacity of a string codec must keep the byte capacity
// `2 * (words - 1)` below what the 16-bit length word can carry.
pub const MAX_STR_WORDS: usize = 0x8000;

/// Error codes related to bus protocol serialization/deserialization
#[derive(Copy, Clone, PartialEq, Eq, Debug)]
pub enum SerdesError {
    StrLenTooBig,
    Utf8Decode,
}

/// Two bytes packed little-endian into one wire word: the first byte in the
/// low 8 bits, the second in the high 8 bits.
pub open spec fn pack_word(lo: u8, hi: u8) -> u16 {
    (lo + hi * 256) as u16
}

/// The low byte of a wire word.
pub open spec fn word_lo(w: u16) -> u8 {
    (w % 256) as u8
}

/// The high byte of a wire word.
pub open spec fn word_hi(w: u16) -> u8 {
    (w / 256) as u8
}

/// The wire form of byte sequence `b` in a word buffer whose previous
/// contents were `stale`: word 0 holds the byte length, each following word
/// consumes two bytes packed little-endian, an odd final byte is padded with
/// a zero high byte, and words beyond the consumed input keep their previous
/// contents (only the length word and the consumed-byte words carry meaning;
/// the decoder trusts the length word exclusively).
pub open spec fn str_words(b: Seq<u8>, stale: Seq<u16>) -> Seq<u16> {
    Seq::new(
        stale.len(),
        |i: int|
            if i == 0 {
                b.len() as u16
            } else if 2 * (i - 1) + 1 < b.len() {
                pack_word(b[2 * (i - 1)], b[2 * (i - 1) + 1])
            } else if 2 * (i - 1) < b.len() {
                pack_word(b[2 * (i - 1)], 0)
            } else {
                stale[i]
            },
    )
}

/// The first `n` bytes carried by the word buffer `words`: byte `j` comes
/// from word `1 + j / 2`, low byte first.
pub open spec fn unpacked_bytes(words: Seq<u16>, n: nat) -> Seq<u8> {
    Seq::new(
        n,
        |j: int|
            if j % 2 == 0 {
                word_lo(words[1 + j / 2])
            } else {
                word_hi(words[1 + j / 2])
            },
    )
}

/// Serialized (convertable to `&[u16]`) string of max byte length
/// `2 * (word capacity - 1)`.
pub struct StringSer {
    u16_buf: Vec<u16>,
}

impl StringSer {
    /// The serialized word buffer this encoder holds.
    pub closed spec fn words(&self) -> Seq<u16> {
        self.u16_buf@
    }

    /// Well-formed: at least the length word, and a byte capacity that the
    /// 16-bit length word can state.
    pub open spec fn wf(&self) -> bool {
        1 <= self.words().len() <= MAX_STR_WORDS
    }

    /// A fresh encoder of `u16_len` words, all zero.
    pub fn new(u16_len: usize) -> (r: Self)
        requires
            1 <= u16_len <= MAX_STR_WORDS,
        ensures
            r.wf(),
            r.words() == Seq::new(u16_len as nat, |i: int| 0u16),
    {
        let r = StringSer { u16_buf: vec![0u16; u16_len] };
        proof {
            assert(r.u16_buf@ =~= Seq::new(u16_len as nat, |i: int| 0u16));
        }
        r
    }

    /// Serialize a string slice into the word buffer for sending over the
    /// bus. Fails with `StrLenTooBig`, leaving the buffer untouched, exactly
    /// when the string's byte length exceeds the buffer's byte capacity.
    pub fn encode(&mut self, s: &str) -> (r: Result<(), SerdesError>)
        requires
            old(self).wf(),
        ensures
            final(self).wf(),
            match r {
                Ok(()) => encode_utf8(s@).len() <= 2 * (old(self).words().len() - 1)
                    && final(self).words() == str_words(encode_utf8(s@), old(self).words()),
                Err(e) => e == SerdesError::StrLenTooBig && encode_utf8(s@).len() > 2 * (
                old(self).words().len() - 1) && *final(self) == *old(self),
            },
    {
        let b: &[u8] = s.as_bytes();
        let str_len: usize = b.len();
        let cap: usize = self.u16_buf.len();
        let u8_max_len: usize = 2 * (cap - 1);
        if str_len > u8_max_len {
            return Err(SerdesError::StrLenTooBig);
        }
        let ghost stale = old(self).u16_buf@;
        self.u16_buf[0] = str_len as u16;
        let mut i: usize = 1;
        while i < cap && 2 * (i - 1) < str_len
            invariant
                self.u16_buf@.len() == cap,
                stale.len() == cap,
                1 <= cap <= MAX_STR_WORDS,
                1 <= i <= cap,
                str_len <= 2 * (cap - 1),
                b@.len() == str_len,
                self.u16_buf@[0] == str_words(b@, stale)[0],
                forall|j: int| 1 <= j < i ==> self.u16_buf@[j] == str_words(b@, stale)[j],
                forall|j: int| i <= j < cap ==> self.u16_buf@[j] == stale[j],
            decreases cap - i,
        {
            let lo = b[2 * (i - 1)];
            let hi = if 2 * (i - 1) + 1 < str_len {
                b[2 * (i - 1) + 1]
            } else {
                0u8
            };
            self.u16_buf[i] = lo as u16 + (hi as u16) * 256;
            i += 1;
        }
        proof {
            assert(self.u16_buf@ =~= str_words(b@, stale));
        }
        Ok(())
    }

    /// Return a u16 slice of this struct's serialized string.
    pub fn as_u16_slice(&self) -> (r: &[u16])
        ensures
            r@ == self.words(),
    {
        self.u16_buf.as_slice()
    }
}

/// Relies on core::str::from_utf8: it returns `Ok` exactly when the bytes
/// are valid UTF-8, and the string slice it returns is their decoding (here
/// returned as an owned `String`).
#[verifier::external_body]
fn utf8_to_string(bytes: &[u8]) -> (r: Option<String>)
    ensures
        r is Some <==> valid_utf8(bytes@),
        r matches Some(t) ==> t@ == decode_utf8(bytes@),
{
    match core::str::from_utf8(bytes) {
        Ok(s) => Some(s.to_string()),
        Err(_) => None,
    }
}

/// Deserialized (convertable to `String`) protocol string: a byte buffer of
/// capacity `2 * (word capacity - 1)` plus the claimed byte length taken
/// from the last decoded buffer.
pub struct StringDes {
    len: usize,
    u8_buf: Vec<u8>,
}

impl StringDes {
    /// The byte buffer this decoder holds.
    pub closed spec fn bytes(&self) -> Seq<u8> {
        self.u8_buf@
    }

    /// The byte length claimed by the last decoded buffer.
    pub closed spec fn str_len(&self) -> nat {
        self.len as nat
    }

    /// The word capacity this decoder was made for.
    pub open spec fn word_capacity(&self) -> nat {
        self.bytes().len() / 2 + 1
    }

    /// Well-formed: a whole number of words' worth of bytes, and a claimed
    /// length within the buffer.
    pub open spec fn wf(&self) -> bool {
        self.bytes().len() % 2 == 0 && self.str_len() <= self.bytes().len()
    }

    /// A fresh decoder for buffers of `u16_len` words, which carry up to
    /// `u8_len == 2 * (u16_len - 1)` string bytes.
    pub fn new(u16_len: usize, u8_len: usize) -> (r: Self)
        requires
            1 <= u16_len,
            u8_len == 2 * (u16_len - 1),
        ensures
            r.wf(),
            r.str_len() == 0,
            r.word_capacity() == u16_len,
            r.bytes() == Seq::new(u8_len as nat, |i: int| 0u8),
    {
        let r = StringDes { len: 0, u8_buf: vec![0u8; u8_len] };
        proof {
            assert(r.u8_buf@ =~= Seq::new(u8_len as nat, |i: int| 0u8));
        }
        r
    }

    /// Deserialize a string packed as `[u16]` into a length and utf-8 byte
    /// buffer, and return the string it carries. Fails with `StrLenTooBig`,
    /// touching nothing, exactly when the buffer's length word claims more
    /// bytes than the buffer can carry (a corrupted or adversarial length
    /// field), and with `Utf8Decode` when the claimed bytes are not valid
    /// UTF-8; words beyond the claimed length are ignored.
    pub fn decode_u16(&mut self, u16_buf: &[u16]) -> (r: Result<String, SerdesError>)
        requires
            old(self).wf(),
            u16_buf@.len() == old(self).word_capacity(),
        ensures
            final(self).wf(),
            final(self).bytes().len() == old(self).bytes().len(),
            ({
                let claimed = u16_buf@[0] as nat;
                let cap_bytes = old(self).bytes().len();
                let filled = final(self).str_len() == claimed && final(self).bytes()
                    == unpacked_bytes(u16_buf@, cap_bytes);
                match r {
                    Ok(t) => claimed <= cap_bytes && valid_utf8(unpacked_bytes(u16_buf@, claimed))
                        && t@ == decode_utf8(unpacked_bytes(u16_buf@, claimed)) && filled,
                    Err(SerdesError::StrLenTooBig) => claimed > cap_bytes && *final(self) == *old(
                        self,
                    ),
                    Err(SerdesError::Utf8Decode) => claimed <= cap_bytes && !valid_utf8(
                        unpacked_bytes(u16_buf@, claimed),
                    ) && filled,
                }
            }),
    {
        let cap: usize = u16_buf.len();
        let length = u16_buf[0];
        if (length as usize) > self.u8_buf.len() {
            return Err(SerdesError::StrLenTooBig);
        }
        self.len = length as usize;
        let ghost cap_bytes = self.u8_buf@.len();
        let mut i: usize = 1;
        while i < cap
            invariant
                self.u8_buf@.len() == cap_bytes,
                cap_bytes == 2 * (cap - 1),
                cap_bytes <= usize::MAX,
                u16_buf@.len() == cap,
                1 <= i <= cap,
                self.len == u16_buf@[0] as usize,
                forall|j: int|
                    0 <= j < 2 * (i - 1) ==> self.u8_buf@[j] == unpacked_bytes(
                        u16_buf@,
                        cap_bytes,
                    )[j],
            decreases cap - i,
        {
            let w = u16_buf[i];
            self.u8_buf[2 * (i - 1)] = (w % 256) as u8;
            self.u8_buf[2 * (i - 1) + 1] = (w / 256) as u8;
            i += 1;
        }
        proof {
            assert(self.u8_buf@ =~= unpacked_bytes(u16_buf@, cap_bytes));
            assert(self.u8_buf@.take(self.len as int) =~= unpacked_bytes(
                u16_buf@,
                self.len as nat,
            ));
        }
        self.as_str()
    }

    /// Convert this struct's byte buffer and claimed length into a string.
    /// Succeeds exactly when the claimed bytes are valid UTF-8.
    pub fn as_str(&self) -> (r: Result<String, SerdesError>)
        requires
            self.wf(),
        ensures
            ({
                let claimed = self.bytes().take(self.str_len() as int);
                match r {
                    Ok(t) => valid_utf8(claimed) && t@ == decode_utf8(claimed),
                    Err(e) => e == SerdesError::Utf8Decode && !valid_utf8(claimed),
                }
            }),
    {
        let str_len: usize = self.len;
        if str_len > self.u8_buf.len() {
            return Err(SerdesError::StrLenTooBig);
        }
        let prefix: &[u8] = &self.u8_buf.as_slice()[0..str_len];
        proof {
            assert(prefix@ =~= self.bytes().take(self.str_len() as int));
        }
        match utf8_to_string(prefix) {
            Some(t) => Ok(t),
            None => Err(SerdesError::Utf8Decode),
        }
    }
}

/// Publicly shared Dhcp state vector. This vector can be serialized between
/// the controller and the host. Initially it corresponds 1:1 with the DHCP
/// internal state machine, but it's a separate data structure so that the
/// DHCP implementation can drift without requiring modification to the bus
/// interface.
#[derive(Clone, Copy, PartialEq, Eq, Debug)]
pub enum DhcpState {
    Halted,
    Init,
    Selecting,
    Requesting,
    Bound,
    Renewing,
    Rebinding,
    Invalid,
}

/// The wire integer of each DHCP state.
pub open spec fn dhcp_code(s: DhcpState) -> u16 {
    match s {
        DhcpState::Halted => 0,
        DhcpState::Init => 1,
        DhcpState::Selecting => 2,
        DhcpState::Requesting => 3,
        DhcpState::Bound => 4,
        DhcpState::Renewing => 5,
        DhcpState::Rebinding => 6,
        DhcpState::Invalid => 7,
    }
}

/// The DHCP state a wire integer decodes to: the named state for a known
/// code, and the explicit `Invalid` fallback for anything else, so that the
/// record stays decodable even if this field is stale.
pub open spec fn dhcp_of_code(code: u16) -> DhcpState {
    if code == 0 {
        DhcpState::Halted
    } else if code == 1 {
        DhcpState::Init
    } else if code == 2 {
        DhcpState::Selecting
    } else if code == 3 {
        DhcpState::Requesting
    } else if code == 4 {
        DhcpState::Bound
    } else if code == 5 {
        DhcpState::Renewing
    } else if code == 6 {
        DhcpState::Rebinding
    } else {
        DhcpState::Invalid
    }
}

fn dhcp_to_wire(s: DhcpState) -> (r: u16)
    ensures
        r == dhcp_code(s),
{
    match s {
        DhcpState::Halted => 0,
        DhcpState::Init => 1,
        DhcpState::Selecting => 2,
        DhcpState::Requesting => 3,
        DhcpState::Bound => 4,
        DhcpState::Renewing => 5,
        DhcpState::Rebinding => 6,
        DhcpState::Invalid => 7,
    }
}

fn dhcp_from_wire(code: u16) -> (r: DhcpState)
    ensures
        r == dhcp_of_code(code),
{
    match code {
        0 => DhcpState::Halted,
        1 => DhcpState::Init,
        2 => DhcpState::Selecting,
        3 => DhcpState::Requesting,
        4 => DhcpState::Bound,
        5 => DhcpState::Renewing,
        6 => DhcpState::Rebinding,
        _ => DhcpState::Invalid,
    }
}

// The IPv4 configuration record is always exactly 14 words on the wire.
pub const IPV4_CONF_WORDS: usize = 14;

/// IPv4 configuration record carried over the bus: DHCP state, MAC, and the
/// four-byte address, gateway, mask and DNS fields.
pub struct Ipv4Conf {
    pub dhcp: DhcpState,
    pub mac: [u8; 6],
    pub addr: [u8; 4],
    pub gtwy: [u8; 4],
    pub mask: [u8; 4],
    pub dns1: [u8; 4],
    pub dns2: [u8; 4],
}

/// The 14-word wire form of an IPv4 configuration record: word 0 the DHCP
/// state, words 1-3 the MAC, words 4-5 the address, 6-7 the gateway, 8-9 the
/// mask, 10-11 DNS1, 12-13 DNS2, byte pairs packed low-byte-first per word.
pub open spec fn ipv4_words(c: Ipv4Conf) -> Seq<u16> {
    seq![
        dhcp_code(c.dhcp),
        pack_word(c.mac@[0], c.mac@[1]),
        pack_word(c.mac@[2], c.mac@[3]),
        pack_word(c.mac@[4], c.mac@[5]),
        pack_word(c.addr@[0], c.addr@[1]),
        pack_word(c.addr@[2], c.addr@[3]),
        pack_word(c.gtwy@[0], c.gtwy@[1]),
        pack_word(c.gtwy@[2], c.gtwy@[3]),
        pack_word(c.mask@[0], c.mask@[1]),
        pack_word(c.mask@[2], c.mask@[3]),
        pack_word(c.dns1@[0], c.dns1@[1]),
        pack_word(c.dns1@[2], c.dns1@[3]),
        pack_word(c.dns2@[0], c.dns2@[1]),
        pack_word(c.dns2@[2], c.dns2@[3]),
    ]
}

/// The bytes carried by `n_words` words of `data` starting at word `first`,
/// low byte of each word first.
pub open spec fn words_bytes(data: Seq<u16>, first: int, n_words: int) -> Seq<u8> {
    Seq::new(
        (2 * n_words) as nat,
        |j: int|
            if j % 2 == 0 {
                word_lo(data[first + j / 2])
            } else {
                word_hi(data[first + j / 2])
            },
    )
}

impl Ipv4Conf {
    /// Serialize this record into its fixed 14-word wire form.
    pub fn encode_u16(&self) -> (r: [u16; IPV4_CONF_WORDS])
        ensures
            r@ == ipv4_words(*self),
    {
        let ret: [u16; IPV4_CONF_WORDS] = [
            dhcp_to_wire(self.dhcp),
            self.mac[0] as u16 + (self.mac[1] as u16) * 256,
            self.mac[2] as u16 + (self.mac[3] as u16) * 256,
            self.mac[4] as u16 + (self.mac[5] as u16) * 256,
            self.addr[0] as u16 + (self.addr[1] as u16) * 256,
            self.addr[2] as u16 + (self.addr[3] as u16) * 256,
            self.gtwy[0] as u16 + (self.gtwy[1] as u16) * 256,
            self.gtwy[2] as u16 + (self.gtwy[3] as u16) * 256,
            self.mask[0] as u16 + (self.mask[1] as u16) * 256,
            self.mask[2] as u16 + (self.mask[3] as u16) * 256,
            self.dns1[0] as u16 + (self.dns1[1] as u16) * 256,
            self.dns1[2] as u16 + (self.dns1[3] as u16) * 256,
            self.dns2[0] as u16 + (self.dns2[1] as u16) * 256,
            self.dns2[2] as u16 + (self.dns2[3] as u16) * 256,
        ];
        proof {
            assert(ret@ =~= ipv4_words(*self));
        }
        ret
    }

    /// Deserialize a 14-word wire buffer into a record. Never fails: an
    /// unrecognized DHCP integer maps to the `Invalid` variant, since the
    /// record is advisory telemetry and must stay decodable.
    pub fn decode_u16(data: &[u16; IPV4_CONF_WORDS]) -> (r: Self)
        ensures
            r.dhcp == dhcp_of_code(data@[0]),
            r.mac@ == words_bytes(data@, 1, 3),
            r.addr@ == words_bytes(data@, 4, 2),
            r.gtwy@ == words_bytes(data@, 6, 2),
            r.mask@ == words_bytes(data@, 8, 2),
            r.dns1@ == words_bytes(data@, 10, 2),
            r.dns2@ == words_bytes(data@, 12, 2),
    {
        let dhcp = dhcp_from_wire(data[0]);
        let r = Ipv4Conf {
            dhcp,
            mac: [
                (data[1] % 256) as u8,
                (data[1] / 256) as u8,
                (data[2] % 256) as u8,
                (data[2] / 256) as u8,
                (data[3] % 256) as u8,
                (data[3] / 256) as u8,
            ],
            addr: [
                (data[4] % 256) as u8,
                (data[4] / 256) as u8,
                (data[5] % 256) as u8,
                (data[5] / 256) as u8,
            ],
            gtwy: [
                (data[6] % 256) as u8,
                (data[6] / 256) as u8,
                (data[7] % 256) as u8,
                (data[7] / 256) as u8,
            ],
            mask: [
                (data[8] % 256) as u8,
                (data[8] / 256) as u8,
                (data[9] % 256) as u8,
                (data[9] / 256) as u8,
            ],
            dns1: [
                (data[10] % 256) as u8,
                (data[10] / 256) as u8,
                (data[11] % 256) as u8,
                (data[11] / 256) as u8,
            ],
            dns2: [
                (data[12] % 256) as u8,
                (data[12] / 256) as u8,
                (data[13] % 256) as u8,
                (data[13] / 256) as u8,
            ],
        };
        proof {
            assert(r.mac@ =~= words_bytes(data@, 1, 3));
            assert(r.addr@ =~= words_bytes(data@, 4, 2));
            assert(r.gtwy@ =~= words_bytes(data@, 6, 2));
            assert(r.mask@ =~= words_bytes(data@, 8, 2));
            assert(r.dns1@ =~= words_bytes(data@, 10, 2));
            assert(r.dns2@ =~= words_bytes(data@, 12, 2));
        }
        r
    }
}

/// Packing two bytes into a word and taking the word apart again gives the
/// bytes back.
pub proof fn lemma_pack_unpack(lo: u8, hi: u8)
    ensures
        word_lo(pack_word(lo, hi)) == lo,
        word_hi(pack_word(lo, hi)) == hi,
{
    assert((lo as int + hi as int * 256) % 256 == lo as int) by (nonlinear_arith)
        requires
            0 <= lo < 256,
            0 <= hi < 256,
    ;
    assert((lo as int + hi as int * 256) / 256 == hi as int) by (nonlinear_arith)
        requires
            0 <= lo < 256,
            0 <= hi < 256,
    ;
}

/// Unpacking as many bytes as were packed into a word buffer gives the
/// packed bytes back, whatever the buffer held before.
pub proof fn lemma_unpack_str_words(b: Seq<u8>, stale: Seq<u16>)
    requires
        1 <= stale.len(),
        b.len() <= 2 * (stale.len() - 1),
    ensures
        unpacked_bytes(str_words(b, stale), b.len()) == b,
{
    let words = str_words(b, stale);
    assert forall|j: int| 0 <= j < b.len() implies unpacked_bytes(words, b.len())[j] == b[j] by {
        if j % 2 == 0 {
            assert(2 * ((1 + j / 2) - 1) == j);
            if j + 1 < b.len() {
                lemma_pack_unpack(b[j], b[j + 1]);
            } else {
                lemma_pack_unpack(b[j], 0);
            }
        } else {
            assert(2 * ((1 + j / 2) - 1) + 1 == j);
            lemma_pack_unpack(b[j - 1], b[j]);
        }
    }
    assert(unpacked_bytes(words, b.len()) =~= b);
}

/// Round trip: any string whose UTF-8 byte length fits a word buffer's byte
/// capacity is reproduced exactly by decoding its encoding. The encoded
/// buffer's length word states the byte length, the bytes it claims are
/// valid UTF-8, and they decode to the original characters — whatever the
/// buffer held before the encode.
pub proof fn lemma_string_round_trip(s: Seq<char>, stale: Seq<u16>)
    requires
        1 <= stale.len() <= MAX_STR_WORDS,
        encode_utf8(s).len() <= 2 * (stale.len() - 1),
    ensures
        ({
            let words = str_words(encode_utf8(s), stale);
            let claimed = words[0] as nat;
            claimed == encode_utf8(s).len() && valid_utf8(unpacked_bytes(words, claimed))
                && decode_utf8(unpacked_bytes(words, claimed)) == s
        }),
{
    let b = encode_utf8(s);
    let words = str_words(b, stale);
    assert(words[0] == b.len() as u16);
    lemma_unpack_str_words(b, stale);
    vstd::utf8::encode_utf8_valid_utf8(s);
    vstd::utf8::encode_utf8_decode_utf8(s);
}

/// The registry's word-count promises for the verbs that carry coded values
/// match what the codecs actually produce and consume: setting the SSID
/// writes one 17-word string, setting the passphrase one 33-word string, the
/// status reply is read as one 33-word string, and the IPv4 configuration
/// reply as exactly 14 words.
pub proof fn lemma_registry_matches_codecs()
    ensures
        crate::registry_spec().contains(
            (ComSpec { verb: 0x2302, w_words: STR_32_WORDS as u16, r_words: 0, response: false }),
        ),
        crate::registry_spec().contains(
            (ComSpec { verb: 0x2303, w_words: STR_64_WORDS as u16, r_words: 0, response: false }),
        ),
        crate::registry_spec().contains(
            (ComSpec { verb: 0x2306, w_words: 0, r_words: STR_64_WORDS as u16, response: false }),
        ),
        crate::registry_spec().contains(
            (ComSpec {
                verb: 0x2307,
                w_words: 0,
                r_words: IPV4_CONF_WORDS as u16,
                response: false,
            }),
        ),
{
    let s = crate::registry_spec();
    assert(s[12] == (ComSpec { verb: 0x2302, w_words: 17, r_words: 0, response: false }));
    assert(s[13] == (ComSpec { verb: 0x2303, w_words: 33, r_words: 0, response: false }));
    assert(s[16] == (ComSpec { verb: 0x2306, w_words: 0, r_words: 33, response: false }));
    assert(s[17] == (ComSpec { verb: 0x2307, w_words: 0, r_words: 14, response: false }));
}

/// Round trip: decoding the encoding of any IPv4 configuration record
/// reproduces the DHCP state exactly and every other field byte-for-byte.
pub proof fn lemma_ipv4_round_trip(c: Ipv4Conf)
    ensures
        dhcp_of_code(ipv4_words(c)[0]) == c.dhcp,
        words_bytes(ipv4_words(c), 1, 3) == c.mac@,
        words_bytes(ipv4_words(c), 4, 2) == c.addr@,
        words_bytes(ipv4_words(c), 6, 2) == c.gtwy@,
        words_bytes(ipv4_words(c), 8, 2) == c.mask@,
        words_bytes(ipv4_words(c), 10, 2) == c.dns1@,
        words_bytes(ipv4_words(c), 12, 2) == c.dns2@,
{
    let w = ipv4_words(c);
    assert forall|j: int| 0 <= j < 6 implies words_bytes(w, 1, 3)[j] == c.mac@[j] by {
        lemma_pack_unpack(c.mac@[2 * (j / 2)], c.mac@[2 * (j / 2) + 1]);
    }
    assert(words_bytes(w, 1, 3) =~= c.mac@);
    assert forall|j: int| 0 <= j < 4 implies words_bytes(w, 4, 2)[j] == c.addr@[j] by {
        lemma_pack_unpack(c.addr@[2 * (j / 2)], c.addr@[2 * (j / 2) + 1]);
    }
    assert(words_bytes(w, 4, 2) =~= c.addr@);
    assert forall|j: int| 0 <= j < 4 implies words_bytes(w, 6, 2)[j] == c.gtwy@[j] by {
        lemma_pack_unpack(c.gtwy@[2 * (j / 2)], c.gtwy@[2 * (j / 2) + 1]);
    }
    assert(words_bytes(w, 6, 2) =~= c.gtwy@);
    assert forall|j: int| 0 <= j < 4 implies words_bytes(w, 8, 2)[j] == c.mask@[j] by {
        lemma_pack_unpack(c.mask@[2 * (j / 2)], c.mask@[2 * (j / 2) + 1]);
    }
    assert(words_bytes(w, 8, 2) =~= c.mask@);
    assert forall|j: int| 0 <= j < 4 implies words_bytes(w, 10, 2)[j] == c.dns1@[j] by {
        lemma_pack_unpack(c.dns1@[2 * (j / 2)], c.dns1@[2 * (j / 2) + 1]);
    }
    assert(words_bytes(w, 10, 2) =~= c.dns1@);
    assert forall|j: int| 0 <= j < 4 implies words_bytes(w, 12, 2)[j] == c.dns2@[j] by {
        lemma_pack_unpack(c.dns2@[2 * (j / 2)], c.dns2@[2 * (j / 2) + 1]);
    }
    assert(words_bytes(w, 12, 2) =~= c.dns2@);
}

} // verus!

