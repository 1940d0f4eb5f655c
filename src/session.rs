//! One synchronisation session: the diff engine and the transmitter together,
//! deciding what goes on the wire next for the latest input.
use crate::diff::{ascii_only, apply_edit, next_edit, DiffEngine};
use crate::edit::{code_of, edit_code};
use crate::transmit::{last_after, wire_codes, Transmitter};
use vstd::prelude::*;

verus! {

/// The state of a session: what the remote shows and which code went last.
pub struct Session {
    /// What the remote display is believed to show.
    pub engine: DiffEngine,
    /// Which code went on the wire last.
    pub transmitter: Transmitter,
}

impl Session {
    /// The engine's display holds only ASCII.
    pub open spec fn wf(&self) -> bool {
        self.engine.wf()
    }

    /// A session with an empty remote display.
    pub fn new() -> (r: Session)
        ensures
            r.wf(),
            r.engine@ == Seq::<char>::empty(),
            r.transmitter@ == crate::edit::CLEAR_CODE,
    {
        Session { engine: DiffEngine::new(), transmitter: Transmitter::new() }
    }

    /// For the latest `input`, the codes to put on the wire next, each to be
    /// followed by the settle delay, or `None` once the remote shows the
    /// input with its non-ASCII characters removed. The caller reads the
    /// latest input again before each call.
    pub fn next_codes(&mut self, input: &Vec<char>) -> (r: Option<Vec<u32>>)
        requires
            old(self).wf(),
        ensures
            final(self).wf(),
            ascii_only(input@) == old(self).engine@ ==> r is None && final(self).engine@ == old(
                self,
            ).engine@ && final(self).transmitter@ == old(self).transmitter@,
            ascii_only(input@) != old(self).engine@ ==> ({
                let e = next_edit(old(self).engine@, ascii_only(input@));
                &&& r matches Some(codes) && codes@ == wire_codes(
                    old(self).transmitter@,
                    code_of(e),
                )
                &&& final(self).engine@ == apply_edit(old(self).engine@, e)
                &&& final(self).transmitter@ == last_after(old(self).transmitter@, code_of(e))
            }),
    {
        match self.engine.step(input) {
            None => None,
            Some(e) => Some(self.transmitter.send(edit_code(e))),
        }
    }
}

} // verus!
