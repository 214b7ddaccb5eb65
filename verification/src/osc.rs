//! Outbound OSC messages as plain values, and their wire encoding.
//!
//! The modes push `OscEmission` values; each one is a single-message packet
//! with one integer argument. The caller encodes an emission to a datagram
//! with `encode_osc_emission` and sends it; sends are fire-and-forget.

use vstd::prelude::*;
use vstd::utf8::encode_utf8;
use crate::controls::{button_osc_name, button_osc_name_spec, Buttons};

verus! {

/// One outbound OSC message: an address and one integer argument.
pub struct OscEmission {
    pub addr: String,
    pub value: i32,
}

/// Whether an emission carries exactly this address and argument.
pub open spec fn is_osc(e: OscEmission, addr: Seq<char>, value: int) -> bool {
    e.addr@ == addr && e.value == value
}

/// The outbound address for a button's own messages.
pub open spec fn osc_button_addr(b: Buttons) -> Seq<char> {
    "/maschine/"@ + button_osc_name_spec(b)
}

/// Builds a button's outbound message.
pub fn osc_button_emission(b: Buttons, value: i32) -> (e: OscEmission)
    ensures
        is_osc(e, osc_button_addr(b), value as int),
{
    let addr = String::from_str("/maschine/").concat(button_osc_name(b));
    OscEmission { addr, value }
}

/// Builds an outbound message under a fixed address.
pub fn osc_fixed_emission(addr: &str, value: i32) -> (e: OscEmission)
    ensures
        is_osc(e, addr@, value as int),
{
    OscEmission { addr: String::from_str(addr), value }
}

/// The length `n` rounded up to a multiple of four.
pub open spec fn pad4(n: nat) -> nat {
    if n % 4 == 0 {
        n
    } else {
        (n + (4 - n % 4)) as nat
    }
}

/// `n` zero bytes.
pub open spec fn zero_bytes(n: nat) -> Seq<u8> {
    Seq::new(n, |i: int| 0u8)
}

/// An OSC string: its bytes, a terminating zero, and zeros up to a
/// multiple of four bytes.
pub open spec fn osc_padded_string(b: Seq<u8>) -> Seq<u8> {
    b + zero_bytes((pad4(b.len() + 1) - b.len()) as nat)
}

/// The two's-complement value of a 32-bit integer.
pub open spec fn u32_of_i32(v: i32) -> int {
    if v >= 0 {
        v as int
    } else {
        v as int + 0x1_0000_0000
    }
}

/// The four big-endian bytes of a 32-bit integer.
pub open spec fn be_bytes_i32(v: i32) -> Seq<u8> {
    let u = u32_of_i32(v);
    seq![
        (u / 0x1000000 % 256) as u8,
        (u / 0x10000 % 256) as u8,
        (u / 0x100 % 256) as u8,
        (u % 256) as u8,
    ]
}

/// The datagram for a one-message packet with a single integer argument:
/// the padded address, the padded type-tag string ",i", and the argument
/// in big-endian order.
pub open spec fn osc_int_message_bytes(addr: Seq<char>, value: i32) -> Seq<u8> {
    osc_padded_string(encode_utf8(addr)) + seq![0x2cu8, 0x69u8, 0u8, 0u8] + be_bytes_i32(value)
}

/// Relies on rosc::encoder::encode: a packet holding one message with one
/// integer argument encodes to the padded address string, the padded type
/// tags ",i", and the four argument bytes in big-endian order, and
/// encoding such a message never fails.
#[verifier::external_body]
fn rosc_encode_int_message(addr: &str, value: i32) -> (r: Vec<u8>)
    ensures
        r@ == osc_int_message_bytes(addr@, value),
{
    let msg = rosc::OscMessage { addr: addr.to_string(), args: vec![rosc::OscType::Int(value)] };
    match rosc::encoder::encode(&rosc::OscPacket::Message(msg)) {
        Ok(bytes) => bytes,
        Err(_) => Vec::new(),
    }
}

/// The bytes of the datagram that carries an emission.
pub fn encode_osc_emission(e: &OscEmission) -> (r: Vec<u8>)
    ensures
        r@ == osc_int_message_bytes(e.addr@, e.value),
{
    rosc_encode_int_message(e.addr.as_str(), e.value)
}

} // verus!
