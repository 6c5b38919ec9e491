//! Calls into `ethabi`: decoding the priority-queue event of the base-chain
//! contract and reading hex addresses.

use vstd::prelude::*;
use crate::bytes::be_value;
use ethabi::ParamType;
use std::str::FromStr;
use vstd::string::StringSliceAdditionalSpecFns;

verus! {

/// Word `k` (32 bytes) of ABI-encoded data.
pub open spec fn abi_word(data: Seq<u8>, k: int) -> Seq<u8> {
    data.subrange(32 * k, 32 * k + 32)
}

/// A word read as a 32-bit offset or length: its first 28 bytes must be zero.
pub open spec fn abi_word_u32(w: Seq<u8>) -> Option<nat> {
    if forall|i: int| 0 <= i < 28 ==> #[trigger] w[i] == 0 {
        Some(be_value(w.subrange(28, 32)))
    } else {
        None
    }
}

/// Fields of an ABI-encoded `(address, uint64, uint8, bytes, uint256)`
/// tuple: the address (low 20 bytes of word 0), words 1 and 2, the bytes
/// (word 3 holds their offset; the word there holds their length; they
/// follow it, padded to whole words), and word 4. The data must be whole
/// words and every word read must be present; integer words are not
/// range-checked.
pub open spec fn abi_event_fields(data: Seq<u8>) -> Option<(Seq<u8>, Seq<u8>, Seq<u8>, Seq<u8>, Seq<u8>)> {
    let n = data.len() / 32;
    if data.len() % 32 != 0 || n < 5 {
        None
    } else {
        match abi_word_u32(abi_word(data, 3)) {
            None => None,
            Some(off) => {
                let lo = (off / 32) as int;
                if lo >= n {
                    None
                } else {
                    match abi_word_u32(abi_word(data, lo)) {
                        None => None,
                        Some(len) => if lo + 1 + (len + 31) / 32 > n {
                            None
                        } else {
                            Some((
                                abi_word(data, 0).subrange(12, 32),
                                abi_word(data, 1),
                                abi_word(data, 2),
                                data.subrange(32 * (lo + 1), 32 * (lo + 1) + len),
                                abi_word(data, 4),
                            ))
                        },
                    }
                }
            },
        }
    }
}

pub open spec fn is_hex_space(b: u8) -> bool {
    b == 32 || b == 13 || b == 10 || b == 9
}

pub open spec fn is_hex_digit(b: u8) -> bool {
    (48 <= b <= 57) || (65 <= b <= 70) || (97 <= b <= 102)
}

pub open spec fn hex_value(b: u8) -> int {
    if 48 <= b <= 57 {
        b - 48
    } else if 65 <= b <= 70 {
        b - 55
    } else {
        b - 87
    }
}

/// The 20 bytes that a hex text denotes: an optional `0x`, then exactly
/// forty hex digits of either case, with spaces, tabs and line breaks
/// anywhere among them ignored.
pub open spec fn hex_address(s: Seq<u8>) -> Option<Seq<u8>> {
    let t = if s.len() >= 2 && s[0] == 48 && s[1] == 120 {
        s.subrange(2, s.len() as int)
    } else {
        s
    };
    let d = t.filter(|b: u8| !is_hex_space(b));
    if d.len() == 40 && forall|i: int| 0 <= i < 40 ==> is_hex_digit(#[trigger] d[i]) {
        Some(Seq::new(20, |i: int| (hex_value(d[2 * i]) * 16 + hex_value(d[2 * i + 1])) as u8))
    } else {
        None
    }
}

/// The fields of a priority-queue event, integer words as 32 big-endian bytes.
pub struct EventFields {
    pub sender: [u8; 20],
    pub serial_id: [u8; 32],
    pub op_type: [u8; 32],
    pub pub_data: Vec<u8>,
    pub deadline: [u8; 32],
}

impl EventFields {
    pub open spec fn view(&self) -> (Seq<u8>, Seq<u8>, Seq<u8>, Seq<u8>, Seq<u8>) {
        (self.sender@, self.serial_id@, self.op_type@, self.pub_data@, self.deadline@)
    }
}

/// Relies on `ethabi::decode` for `(address, uint64, uint8, bytes, uint256)`,
/// which reads the tuple as `abi_event_fields` states; a uint token turned
/// back into 32 big-endian bytes is its word.
#[verifier::external_body]
pub(crate) fn decode_event(data: &[u8]) -> (r: Option<EventFields>)
    ensures
        r is Some <==> abi_event_fields(data@) is Some,
        r is Some ==> abi_event_fields(data@) == Some(r->Some_0@),
{
    let types = [ParamType::Address, ParamType::Uint(64), ParamType::Uint(8), ParamType::Bytes, ParamType::Uint(256)];
    let mut t = ethabi::decode(&types, data).ok()?.into_iter();
    let sender = t.next()?.into_address()?.0;
    let (mut serial_id, mut op_type, mut deadline) = ([0u8; 32], [0u8; 32], [0u8; 32]);
    t.next()?.into_uint()?.to_big_endian(&mut serial_id);
    t.next()?.into_uint()?.to_big_endian(&mut op_type);
    let pub_data = t.next()?.into_bytes()?;
    t.next()?.into_uint()?.to_big_endian(&mut deadline);
    Some(EventFields { sender, serial_id, op_type, pub_data, deadline })
}

/// Relies on `FromStr` of `ethabi::Address` (fixed-hash's `H160`, reading
/// digits with rustc-hex): the address `hex_address` states, or an error.
#[verifier::external_body]
pub(crate) fn parse_hex_address(s: &str) -> (r: Option<[u8; 20]>)
    ensures
        r is Some <==> hex_address(s.spec_bytes()) is Some,
        r is Some ==> hex_address(s.spec_bytes()) == Some(r->Some_0@),
{
    ethabi::Address::from_str(s).ok().map(|a| a.0)
}

} // verus!
