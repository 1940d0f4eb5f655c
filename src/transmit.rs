//! The edit transmitter: which codes go on the wire for each edit code, with
//! a null pulse in front of a code equal to the one sent last.
use crate::edit::{CLEAR_CODE, NULL_CODE};
use vstd::prelude::*;

verus! {

/// Pause after each code put on the wire, in milliseconds.
pub const SETTLE_DELAY_MS: u64 = 250;

/// The codes put on the wire to send `code` when `last` was sent before it:
/// the null pulse and then the code when the two are equal, else the code
/// alone.
pub open spec fn wire_codes(last: u32, code: u32) -> Seq<u32> {
    if code == last {
        seq![NULL_CODE, code]
    } else {
        seq![code]
    }
}

/// The code remembered as sent last once `code` has been sent.
pub open spec fn last_after(last: u32, code: u32) -> u32 {
    code
}

/// Duplicate suppression: when a code is sent twice in a row, the second
/// send always puts exactly two codes on the wire, the null pulse and the
/// code, whatever was sent before the first.
pub proof fn lemma_repeat_sends_pulse(last: u32, code: u32)
    ensures
        wire_codes(last_after(last, code), code) == seq![NULL_CODE, code],
        wire_codes(last_after(last, code), code).len() == 2,
{
}

/// Remembers the code sent last.
pub struct Transmitter {
    last_sent: u32,
}

impl View for Transmitter {
    type V = u32;

    closed spec fn view(&self) -> u32 {
        self.last_sent
    }
}

impl Transmitter {
    /// A transmitter that counts the line feed as sent last, as a remote
    /// display starts out cleared.
    pub fn new() -> (r: Transmitter)
        ensures
            r@ == CLEAR_CODE,
    {
        Transmitter { last_sent: CLEAR_CODE }
    }

    /// The code sent last.
    pub fn last_sent(&self) -> (r: u32)
        ensures
            r == self@,
    {
        self.last_sent
    }

    /// The codes to put on the wire, in order, to send `code`; each is to be
    /// followed by the settle delay.
    pub fn send(&mut self, code: u32) -> (r: Vec<u32>)
        ensures
            r@ == wire_codes(old(self)@, code),
            final(self)@ == last_after(old(self)@, code),
    {
        let mut r: Vec<u32> = Vec::new();
        if code == self.last_sent {
            r.push(NULL_CODE);
        }
        r.push(code);
        self.last_sent = code;
        proof {
            assert(r@ =~= wire_codes(old(self)@, code));
        }
        r
    }
}

} // verus!
