use vstd::prelude::*;

use crate::error::I2cErrorKind;

verus! {

/// The mathematical image of one bus write: the address it was directed to
/// and the payload bytes.
#[verifier::ext_equal]
pub struct TxView {
    /// The seven-bit device address.
    pub addr: u8,
    /// The payload bytes, in wire order.
    pub bytes: Seq<u8>,
}

/// One recorded bus write.
#[derive(Debug, Clone, PartialEq, Eq)]
pub struct Transaction {
    /// The seven-bit device address.
    pub addr: u8,
    /// The payload bytes, in wire order.
    pub bytes: Vec<u8>,
}

impl View for Transaction {
    type V = TxView;

    open spec fn view(&self) -> TxView {
        TxView { addr: self.addr, bytes: self.bytes@ }
    }
}

/// A bus transport capability: "write bytes to a device address".
///
/// An implementation carries a (ghost) record of every write ever attempted
/// through it, in order, and of the answer each attempt received, so that a
/// caller's contract can speak of the exact transactions a sequence of
/// operations put on the wire and tie its own result to the transport's
/// answers.
pub trait I2cBus: Sized {
    /// Every write attempted so far, in order, failed attempts included.
    ///
    /// A transport that is reasoned about overrides this with its own
    /// record; the default, an empty record, is for transports whose
    /// traffic nothing inspects, and no override proving [`Self::write`]
    /// can keep it.
    open spec fn transactions(&self) -> Seq<TxView> {
        Seq::empty()
    }

    /// The transport's answer to each attempted write, in order: `None` for
    /// an accepted write, the fault kind for a failed one.
    ///
    /// As with [`Self::transactions`], a transport that is reasoned about
    /// overrides this; no override proving [`Self::write`] can keep the
    /// default.
    open spec fn outcomes(&self) -> Seq<Option<I2cErrorKind>> {
        Seq::empty()
    }

    /// Write `bytes` to the device at the seven-bit address `addr` as one bus
    /// transaction.
    ///
    /// The attempt is always recorded; whether it succeeds is the transport's
    /// to decide, and the result reports the transport's answer faithfully:
    /// `Ok` exactly when the write was accepted, and otherwise the very fault
    /// the transport recorded.
    fn write(&mut self, addr: u8, bytes: &[u8]) -> (r: Result<(), I2cErrorKind>)
        ensures
            final(self).transactions() == old(self).transactions().push(
                (TxView { addr, bytes: bytes@ }),
            ),
            r is Ok ==> final(self).outcomes() == old(self).outcomes().push(None),
            r is Err ==> final(self).outcomes() == old(self).outcomes().push(Some(r->Err_0)),
    ;
}

} // verus!
