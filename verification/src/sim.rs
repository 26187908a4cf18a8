//! A scripted in-memory bus: an `I2cBus` implementation that answers each
//! transaction from a fixed script. It lets the driver run against expected
//! traffic, with every contract of the bus seam proved rather than assumed.

use vstd::prelude::*;
use crate::bus::{BusTxn, I2cBus};

verus! {

/// What a scripted bus returns when a transaction goes wrong.
#[derive(Debug, PartialEq, Eq, Clone, Copy)]
pub enum SimBusError {
    /// The script marked this transaction as failing.
    Fault,
    /// The transaction did not match the next scripted entry, or the script
    /// was exhausted.
    Unexpected,
}

/// One scripted transaction: what the device expects to see on the bus and,
/// for a write-read, what it answers. `fault: true` makes the transaction
/// fail with `SimBusError::Fault` instead of completing.
pub enum SimEntry {
    WriteRead { addr: u8, sent: Vec<u8>, reply: Vec<u8>, fault: bool },
    Write { addr: u8, sent: Vec<u8>, fault: bool },
}

/// A bus that replays a script. Transactions are consumed front to back; one
/// that does not match the next entry fails with `SimBusError::Unexpected`
/// and is not recorded in the history.
pub struct SimBus {
    script: Vec<SimEntry>,
    next: usize,
    hist: Ghost<Seq<BusTxn>>,
}

impl SimBus {
    /// Every scripted entry has been consumed.
    pub closed spec fn consumed(&self) -> bool {
        self.next == self.script@.len()
    }

    pub fn new(script: Vec<SimEntry>) -> (b: SimBus)
        ensures
            b.history() == Seq::<BusTxn>::empty(),
    {
        SimBus { script, next: 0, hist: Ghost(Seq::empty()) }
    }

    /// Whether every scripted entry has been consumed.
    pub fn done(&self) -> (r: bool)
        ensures
            r == self.consumed(),
    {
        self.next == self.script.len()
    }
}

/// Byte-for-byte equality of two slices.
fn bytes_eq(a: &[u8], b: &[u8]) -> (r: bool)
    ensures
        r == (a@ == b@),
{
    if a.len() != b.len() {
        return false;
    }
    let n = a.len();
    let mut i: usize = 0;
    while i < n
        invariant
            n == a@.len(),
            n == b@.len(),
            i <= n,
            forall|j: int| 0 <= j < i ==> a@[j] == b@[j],
        decreases n - i,
    {
        if a[i] != b[i] {
            return false;
        }
        i = i + 1;
    }
    proof {
        assert(a@ =~= b@);
    }
    true
}

impl I2cBus for SimBus {
    type Error = SimBusError;

    closed spec fn history(&self) -> Seq<BusTxn> {
        self.hist@
    }

    fn write_read(&mut self, addr: u8, out_bytes: &[u8], in_buf: &mut [u8]) -> (r: Result<
        (),
        SimBusError,
    >) {
        if self.next >= self.script.len() {
            return Err(SimBusError::Unexpected);
        }
        let idx = self.next;
        self.next = idx + 1;
        let ghost pre = self.hist@;
        match &self.script[idx] {
            SimEntry::WriteRead { addr: a, sent, reply, fault } => {
                if *a != addr {
                    return Err(SimBusError::Unexpected);
                }
                if !bytes_eq(sent.as_slice(), out_bytes) {
                    return Err(SimBusError::Unexpected);
                }
                if *fault {
                    return Err(SimBusError::Fault);
                }
                if reply.len() != in_buf.len() {
                    return Err(SimBusError::Unexpected);
                }
                let n = reply.len();
                let mut i: usize = 0;
                while i < n
                    invariant
                        n == reply@.len(),
                        n == in_buf@.len(),
                        i <= n,
                        forall|j: int| 0 <= j < i ==> in_buf@[j] == reply@[j],
                    decreases n - i,
                {
                    in_buf[i] = reply[i];
                    i = i + 1;
                }
                proof {
                    assert(in_buf@ =~= reply@);
                    self.hist@ = pre.push(
                        BusTxn::WriteRead { addr, sent: out_bytes@, received: in_buf@ },
                    );
                }
                Ok(())
            },
            SimEntry::Write { .. } => Err(SimBusError::Unexpected),
        }
    }

    fn write(&mut self, addr: u8, out_bytes: &[u8]) -> (r: Result<(), SimBusError>) {
        if self.next >= self.script.len() {
            return Err(SimBusError::Unexpected);
        }
        let idx = self.next;
        self.next = idx + 1;
        let ghost pre = self.hist@;
        match &self.script[idx] {
            SimEntry::Write { addr: a, sent, fault } => {
                if *a != addr {
                    return Err(SimBusError::Unexpected);
                }
                if !bytes_eq(sent.as_slice(), out_bytes) {
                    return Err(SimBusError::Unexpected);
                }
                if *fault {
                    return Err(SimBusError::Fault);
                }
                proof {
                    self.hist@ = pre.push(BusTxn::Write { addr, sent: out_bytes@ });
                }
                Ok(())
            },
            SimEntry::WriteRead { .. } => Err(SimBusError::Unexpected),
        }
    }
}

} // verus!
