//! A deterministic bus for exercising the driver without hardware: it
//! replays a fixed list of expected transactions, failing on any exchange
//! that deviates from the script, and a delay source that does not wait.

use vstd::prelude::*;

use crate::driver::Bus;
use crate::driver::BusEvent;
use crate::driver::Delay;
use crate::error::BusErrorKind;

verus! {

/// One scripted bus exchange: either a write of exactly these bytes to
/// this address, or a read from this address answered with these bytes.
pub enum Transaction {
    /// Expect a write of the given bytes to the given address.
    Write(u8, Vec<u8>),
    /// Expect a read from the given address; answer with the given bytes.
    Read(u8, Vec<u8>),
}

impl Transaction {
    /// Script a write of `bytes` to `address`.
    pub fn write(address: u8, bytes: Vec<u8>) -> (r: Self)
        ensures
            r == Transaction::Write(address, bytes),
    {
        Transaction::Write(address, bytes)
    }

    /// Script a read from `address` answered with `response`.
    pub fn read(address: u8, response: Vec<u8>) -> (r: Self)
        ensures
            r == Transaction::Read(address, response),
    {
        Transaction::Read(address, response)
    }
}

/// Whether two byte vectors hold the same bytes.
fn bytes_equal(a: &Vec<u8>, b: &Vec<u8>) -> (r: bool)
    ensures
        r == (a@ == b@),
{
    if a.len() != b.len() {
        return false;
    }
    let mut i: usize = 0;
    while i < a.len()
        invariant
            i <= a@.len(),
            a@.len() == b@.len(),
            forall|j: int| 0 <= j < i ==> a@[j] == b@[j],
        decreases a@.len() - i,
    {
        if a[i] != b[i] {
            return false;
        }
        i += 1;
    }
    proof {
        assert(a@ =~= b@);
    }
    true
}

/// A fresh vector holding the same bytes as `src`.
fn copy_bytes(src: &Vec<u8>) -> (r: Vec<u8>)
    ensures
        r@ == src@,
{
    let mut out: Vec<u8> = Vec::new();
    let mut i: usize = 0;
    while i < src.len()
        invariant
            i <= src@.len(),
            out@ == src@.take(i as int),
        decreases src@.len() - i,
    {
        out.push(src[i]);
        proof {
            assert(out@ =~= src@.take(i + 1 as int));
        }
        i += 1;
    }
    proof {
        assert(src@.take(src@.len() as int) =~= src@);
    }
    out
}

/// A bus that replays a fixed script of transactions in order. Any
/// deviation — a write with other bytes, an exchange of the wrong kind or
/// address, a read of another length, or running past the script — fails
/// the exchange and marks the bus, so a completed session can be checked
/// with `is_done`.
pub struct ReplayBus {
    /// The scripted exchanges, consumed front to back.
    pub transactions: Vec<Transaction>,
    /// How many scripted exchanges have been consumed.
    pub position: usize,
    /// Whether any exchange deviated from the script.
    pub failed: bool,
    /// Everything that happened on this bus, as the transcript reports it.
    pub history: Ghost<Seq<BusEvent>>,
}

impl ReplayBus {
    /// A replay bus that expects exactly the given transactions in order.
    pub fn new(transactions: Vec<Transaction>) -> (r: Self)
        ensures
            r.transactions == transactions,
            r.position == 0,
            !r.failed,
            r.history@ == Seq::<BusEvent>::empty(),
    {
        ReplayBus {
            transactions,
            position: 0,
            failed: false,
            history: Ghost(Seq::empty()),
        }
    }

    /// The next scripted exchange is a write of exactly these bytes to
    /// this address.
    pub open spec fn expects_write(&self, address: u8, bytes: Seq<u8>) -> bool {
        &&& self.position < self.transactions@.len()
        &&& self.transactions@[self.position as int] matches Transaction::Write(a, b) && a
            == address && b@ == bytes
    }

    /// The next scripted exchange is a read of this many bytes from this
    /// address.
    pub open spec fn expects_read(&self, address: u8, len: nat) -> bool {
        &&& self.position < self.transactions@.len()
        &&& self.transactions@[self.position as int] matches Transaction::Read(a, b) && a
            == address && b@.len() == len
    }

    /// The bytes the next scripted read is answered with.
    pub open spec fn scripted_response(&self) -> Seq<u8>
        recommends
            self.position < self.transactions@.len(),
            self.transactions@[self.position as int] is Read,
    {
        self.transactions@[self.position as int]->Read_1@
    }

    /// The whole script was consumed and nothing deviated from it.
    pub fn is_done(&self) -> (r: bool)
        ensures
            r == (self.position == self.transactions@.len() && !self.failed),
    {
        self.position == self.transactions.len() && !self.failed
    }
}

impl Bus for ReplayBus {
    open spec fn transcript(&self) -> Seq<BusEvent> {
        self.history@
    }

    fn write(&mut self, address: u8, bytes: &Vec<u8>) -> (r: Result<(), BusErrorKind>)
        ensures
            final(self).transactions == old(self).transactions,
            r is Ok <==> old(self).expects_write(address, bytes@),
            r is Ok ==> final(self).position == old(self).position + 1 && final(self).failed
                == old(self).failed,
            r is Err ==> final(self).position == old(self).position && final(self).failed,
    {
        if self.position < self.transactions.len() {
            let matched = match &self.transactions[self.position] {
                Transaction::Write(expected_address, expected_bytes) => *expected_address
                    == address && bytes_equal(expected_bytes, bytes),
                Transaction::Read(_, _) => false,
            };
            if matched {
                self.position = self.position + 1;
                self.history = Ghost(self.history@.push(BusEvent::Write(address, bytes@)));
                return Ok(());
            }
        }
        self.failed = true;
        self.history = Ghost(self.history@.push(BusEvent::Fault(BusErrorKind::Other)));
        Err(BusErrorKind::Other)
    }

    fn read(&mut self, address: u8, len: usize) -> (r: Result<Vec<u8>, BusErrorKind>)
        ensures
            final(self).transactions == old(self).transactions,
            r is Ok <==> old(self).expects_read(address, len as nat),
            r matches Ok(v) ==> v@ == old(self).scripted_response(),
            r is Ok ==> final(self).position == old(self).position + 1 && final(self).failed
                == old(self).failed,
            r is Err ==> final(self).position == old(self).position && final(self).failed,
    {
        if self.position < self.transactions.len() {
            let response = match &self.transactions[self.position] {
                Transaction::Read(expected_address, response) => {
                    if *expected_address == address && response.len() == len {
                        Some(copy_bytes(response))
                    } else {
                        None
                    }
                },
                Transaction::Write(_, _) => None,
            };
            match response {
                Some(data) => {
                    self.position = self.position + 1;
                    self.history = Ghost(self.history@.push(BusEvent::Read(address, data@)));
                    return Ok(data);
                }
                None => {}
            }
        }
        self.failed = true;
        self.history = Ghost(self.history@.push(BusEvent::Fault(BusErrorKind::Other)));
        Err(BusErrorKind::Other)
    }
}

/// A delay source that does not wait: the replayed device needs no settle
/// time.
pub struct NoopDelay;

impl Delay for NoopDelay {
    fn delay_ms(&mut self, _ms: u32) {
    }
}

} // verus!
