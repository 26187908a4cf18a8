//! The bus seam: the byte-level I2C capability the driver is written against,
//! together with the ghost record of completed transactions that every driver
//! contract is stated over.

use vstd::prelude::*;

verus! {

/// One completed transaction on the I2C bus.
pub enum BusTxn {
    /// `sent` was transmitted to `addr`, then, after a repeated start,
    /// `received` was read back.
    WriteRead { addr: u8, sent: Seq<u8>, received: Seq<u8> },
    /// `sent` was transmitted to `addr`.
    Write { addr: u8, sent: Seq<u8> },
}

/// The minimal bus capability the driver depends on.
///
/// `history()` is the implementation's ghost record of the transactions it has
/// completed, oldest first. The two methods promise that a successful call
/// appends exactly the transaction performed and that a failed call appends
/// nothing; the driver's own contracts all build on this. An implementation
/// written outside the verified library (say, one wrapping a hardware
/// abstraction layer) must uphold these contracts itself.
pub trait I2cBus: Sized {
    /// The implementation-specific bus error.
    type Error;

    /// The transactions this bus has completed, oldest first. The default
    /// leaves the record unspecified; an implementation that verified code
    /// reasons about overrides it.
    open spec fn history(&self) -> Seq<BusTxn> {
        vstd::pervasive::arbitrary()
    }

    /// Transmit `out_bytes` to the device at `addr`, then receive exactly
    /// `in_buf.len()` bytes into `in_buf` after a repeated start.
    fn write_read(&mut self, addr: u8, out_bytes: &[u8], in_buf: &mut [u8]) -> (r: Result<
        (),
        Self::Error,
    >)
        ensures
            match r {
                Ok(()) => final(in_buf)@.len() == old(in_buf)@.len() && final(self).history()
                    == old(self).history().push(
                    BusTxn::WriteRead { addr, sent: out_bytes@, received: final(in_buf)@ },
                ),
                Err(_) => final(in_buf)@.len() == old(in_buf)@.len() && final(self).history()
                    == old(self).history(),
            },
    ;

    /// Transmit `out_bytes` to the device at `addr`.
    fn write(&mut self, addr: u8, out_bytes: &[u8]) -> (r: Result<(), Self::Error>)
        ensures
            match r {
                Ok(()) => final(self).history() == old(self).history().push(
                    BusTxn::Write { addr, sent: out_bytes@ },
                ),
                Err(_) => final(self).history() == old(self).history(),
            },
    ;
}

} // verus!
