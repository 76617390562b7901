use vstd::prelude::*;

verus! {

/// The largest identifier a body can carry.
pub const MAX_ID: u16 = 65535;

/// Issues body identifiers in increasing order, never the same one twice.
///
/// `next` is the identifier the next call of `issue` hands out; every
/// identifier issued so far is below it.
#[derive(Debug)]
pub struct IdGenerator {
    next: u32,
}

impl IdGenerator {
    /// How many identifiers have been issued (also the next one to come).
    pub closed spec fn issued(&self) -> nat {
        self.next as nat
    }

    pub open spec fn wf(&self) -> bool {
        self.issued() <= MAX_ID as nat + 1
    }

    /// True while another identifier can still be issued.
    pub open spec fn can_issue(&self) -> bool {
        self.issued() <= MAX_ID as nat
    }

    pub fn new() -> (r: IdGenerator)
        ensures
            r.wf(),
            r.issued() == 0,
    {
        IdGenerator { next: 0 }
    }

    /// The identifier the next call of `issue` returns, if any is left.
    pub fn peek(&self) -> (r: Option<u16>)
        requires
            self.wf(),
        ensures
            r == (if self.can_issue() { Some(self.issued() as u16) } else { None::<u16> }),
    {
        if self.next <= MAX_ID as u32 {
            Some(self.next as u16)
        } else {
            None
        }
    }

    /// Hands out the next identifier: it is larger than every one issued before.
    pub fn issue(&mut self) -> (id: u16)
        requires
            old(self).wf(),
            old(self).can_issue(),
        ensures
            final(self).wf(),
            id as nat == old(self).issued(),
            final(self).issued() == old(self).issued() + 1,
    {
        let id = self.next as u16;
        self.next = self.next + 1;
        id
    }
}

} // verus!
