//! The datagram that carries one code: an OSC message with one integer
//! argument.
use crate::diff::all_ascii;
use rosc::{encoder, OscError, OscMessage, OscPacket, OscType};
use vstd::prelude::*;

verus! {

/// The OSC address of the remote display's parameter.
pub const PARAMETER_ADDRESS: &'static str = "/avatar/parameters/7Display";

/// An OSC string: the bytes, a NUL, and more NULs up to a multiple of four.
pub open spec fn osc_string(s: Seq<u8>) -> Seq<u8> {
    s + Seq::new((4 - s.len() % 4) as nat, |i: int| 0u8)
}

/// The four bytes of `v` in two's complement, most significant first.
pub open spec fn be_i32(v: i32) -> Seq<u8> {
    let u: int = if v < 0 {
        v + 0x1_0000_0000
    } else {
        v as int
    };
    seq![
        (u / 0x100_0000) as u8,
        (u / 0x1_0000 % 0x100) as u8,
        (u / 0x100 % 0x100) as u8,
        (u % 0x100) as u8,
    ]
}

/// The bytes of an ASCII string.
pub open spec fn ascii_bytes(s: Seq<char>) -> Seq<u8> {
    s.map_values(|c: char| c as u8)
}

/// An OSC message to `addr` with the single integer argument `v`: the
/// address, the type tags ",i", then the integer.
pub open spec fn osc_int_message(addr: Seq<char>, v: i32) -> Seq<u8> {
    osc_string(ascii_bytes(addr)) + osc_string(seq![0x2cu8, 0x69u8]) + be_i32(v)
}

/// Declares `rosc::OscError`, the error type of `rosc::encoder::encode`, so
/// that its result can be matched on.
#[verifier::external_type_specification]
#[verifier::external_body]
pub struct ExOscError(OscError);

/// Relies on `rosc::encoder::encode`: a message of one `OscType::Int`
/// argument encodes as the address and the tag string ",i", each NUL-padded
/// to a multiple of four bytes, then the integer big-endian; the encoder
/// fails only on argument kinds other than this one.
#[verifier::external_body]
fn encode_int_message(addr: &str, v: i32) -> (r: Result<Vec<u8>, OscError>)
    requires
        all_ascii(addr@),
    ensures
        r is Ok,
        r is Ok ==> r->Ok_0@ == osc_int_message(addr@, v),
{
    let packet = OscPacket::Message(OscMessage { addr: addr.to_string(), args: vec![OscType::Int(v)] });
    encoder::encode(&packet)
}

/// The datagram that carries `code` to the parameter at `addr`.
pub fn datagram(addr: &str, code: u32) -> (r: Vec<u8>)
    requires
        all_ascii(addr@),
        code <= i32::MAX,
    ensures
        r@ == osc_int_message(addr@, code as i32),
{
    match encode_int_message(addr, code as i32) {
        Ok(b) => b,
        Err(_) => {
            proof {
                assert(false);
            }
            Vec::new()
        },
    }
}

} // verus!
