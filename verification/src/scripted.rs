use vstd::prelude::*;
use vstd::slice::slice_to_vec;

use crate::bus::{I2cBus, Transaction, TxView};
use crate::error::I2cErrorKind;

verus! {

/// A bus transport double.
///
/// It touches no hardware: it records every write handed to it, and answers
/// each one according to a success script fixed at construction. The write
/// at index `i` fails with [`I2cErrorKind::Other`] when the script holds
/// `false` at `i`; writes beyond the end of the script succeed.
#[derive(Debug)]
pub struct ScriptedBus {
    log: Vec<Transaction>,
    script: Vec<bool>,
}

impl ScriptedBus {
    /// The writes recorded so far, in order.
    pub closed spec fn spec_log(&self) -> Seq<TxView> {
        self.log@.map_values(|t: Transaction| t@)
    }

    /// The success script the bus was created with.
    pub closed spec fn spec_script(&self) -> Seq<bool> {
        self.script@
    }

    /// Whether the write at index `i` succeeds under the script.
    pub open spec fn spec_succeeds(&self, i: int) -> bool {
        i >= self.spec_script().len() || self.spec_script()[i]
    }

    /// The answer each recorded write received: `None` where the script let
    /// it succeed, [`I2cErrorKind::Other`] where it failed.
    pub closed spec fn spec_outcomes(&self) -> Seq<Option<I2cErrorKind>> {
        Seq::new(
            self.log@.len(),
            |i: int|
                if self.spec_succeeds(i) {
                    None
                } else {
                    Some(I2cErrorKind::Other)
                },
        )
    }

    /// A bus that answers each write as `script` dictates and every write
    /// past the script's end with success.
    pub fn new(script: Vec<bool>) -> (r: Self)
        ensures
            r.spec_log() == Seq::<TxView>::empty(),
            r.spec_script() == script@,
    {
        let r = ScriptedBus { log: Vec::new(), script };
        proof {
            assert(r.spec_log() =~= Seq::<TxView>::empty());
        }
        r
    }

    /// How many writes have been recorded.
    pub fn write_count(&self) -> (r: usize)
        ensures
            r == self.spec_log().len(),
    {
        self.log.len()
    }

    /// The `i`-th recorded write.
    pub fn transaction(&self, i: usize) -> (r: &Transaction)
        requires
            i < self.spec_log().len(),
        ensures
            r@ == self.spec_log()[i as int],
    {
        &self.log[i]
    }

    /// All recorded writes, surrendering the bus.
    pub fn into_log(self) -> (r: Vec<Transaction>)
        ensures
            r@.map_values(|t: Transaction| t@) == self.spec_log(),
    {
        self.log
    }

    /// Record one write and answer it as the script dictates.
    pub fn record(&mut self, addr: u8, bytes: &[u8]) -> (r: Result<(), I2cErrorKind>)
        ensures
            final(self).spec_log() == old(self).spec_log().push(
                (TxView { addr, bytes: bytes@ }),
            ),
            final(self).spec_script() == old(self).spec_script(),
            r is Ok <==> old(self).spec_succeeds(old(self).spec_log().len() as int),
            r is Ok ==> final(self).spec_outcomes() == old(self).spec_outcomes().push(None),
            r is Err ==> final(self).spec_outcomes() == old(self).spec_outcomes().push(
                Some(r->Err_0),
            ),
            r is Err ==> r->Err_0 == I2cErrorKind::Other,
    {
        let i: usize = self.log.len();
        let entry = Transaction { addr, bytes: slice_to_vec(bytes) };
        self.log.push(entry);
        proof {
            assert(self.spec_log() =~= old(self).spec_log().push(
                (TxView { addr, bytes: bytes@ }),
            ));
        }
        if i < self.script.len() && !self.script[i] {
            proof {
                assert(self.spec_outcomes() =~= old(self).spec_outcomes().push(
                    Some(I2cErrorKind::Other),
                ));
            }
            Err(I2cErrorKind::Other)
        } else {
            proof {
                assert(self.spec_outcomes() =~= old(self).spec_outcomes().push(None));
            }
            Ok(())
        }
    }
}

impl I2cBus for ScriptedBus {
    open spec fn transactions(&self) -> Seq<TxView> {
        self.spec_log()
    }

    open spec fn outcomes(&self) -> Seq<Option<I2cErrorKind>> {
        self.spec_outcomes()
    }

    fn write(&mut self, addr: u8, bytes: &[u8]) -> (r: Result<(), I2cErrorKind>) {
        self.record(addr, bytes)
    }
}

} // verus!
