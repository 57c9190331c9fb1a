use vstd::prelude::*;

use crate::bus::{I2cBus, TxView};
use crate::config::{Config, ControlRegisterMode};
use crate::error::{Ds3502Error, I2cErrorKind};
use crate::protocol::{mode_frame, mode_tx, save_txs, wiper_frame, wiper_tx};
use crate::wiper::Wiper;

verus! {

/// A driver for the DS3502.
///
/// The driver owns its bus transport exclusively and tracks the device's
/// configuration: the bus address and the last control-register mode it set.
/// Every operation below states exactly which transactions it puts on the
/// wire, in terms of the transport's record of attempted writes, and
/// returns the transport's answers faithfully: success is reported exactly
/// where every write of the operation was accepted, and a failure wraps the
/// fault kind the transport recorded, unchanged.
#[derive(Debug, Clone)]
pub struct Ds3502<I2C> {
    i2c: I2C,
    config: Config,
}

impl<I2C> Ds3502<I2C> {
    /// The driver's configuration: bus address and last-set control-register
    /// mode.
    pub closed spec fn spec_config(&self) -> Config {
        self.config
    }

    /// The bus transport the driver owns.
    pub closed spec fn spec_bus(&self) -> I2C {
        self.i2c
    }

    fn new(i2c: I2C, config: Config) -> (r: Self)
        ensures
            r.spec_bus() == i2c,
            r.spec_config() == config,
    {
        Ds3502 { i2c, config }
    }

    /// Get the driver's current control register mode.
    ///
    /// A pure local read of the cached configuration: no bus access.
    pub fn mode(&self) -> (r: ControlRegisterMode)
        ensures
            r == self.spec_config().mode,
    {
        self.config.mode
    }

    /// Give the bus transport back, surrendering the driver.
    pub fn into_inner(self) -> (r: I2C)
        ensures
            r == self.spec_bus(),
    {
        self.i2c
    }
}

impl<I2C: I2cBus> Ds3502<I2C> {
    /// Every write the driver's transport has attempted, in order.
    pub open spec fn transactions(&self) -> Seq<TxView> {
        self.spec_bus().transactions()
    }

    /// The transport's answer to each attempted write, in order: `None` for
    /// an accepted write, the fault kind for a failed one.
    pub open spec fn outcomes(&self) -> Seq<Option<I2cErrorKind>> {
        self.spec_bus().outcomes()
    }

    /// Initialize a blocking DS3502 driver.
    ///
    /// Stores the transport and `config`, then issues exactly one bus write,
    /// `[0x02, mode byte]` to the configured address, to set the control
    /// register to the configured mode; returns `Ok` exactly when the
    /// transport accepted that write. The default [`Config`] disables writes
    /// to the initial value register.
    ///
    /// # Errors
    /// Will return `Err` on I2C bus related problems. The failed transport
    /// is consumed along with the driver.
    pub fn blocking_init(i2c: I2C, config: Config) -> (r: Result<Self, Ds3502Error>)
        ensures
            r is Ok ==> r->Ok_0.spec_config() == config,
            r is Ok ==> r->Ok_0.transactions() == i2c.transactions().push(
                mode_tx(config.i2c_addr.spec_byte(), config.mode),
            ),
            r is Ok ==> r->Ok_0.outcomes() == i2c.outcomes().push(None),
            r is Err ==> r->Err_0 is I2cError,
    {
        let mut pot = Ds3502::new(i2c, config);
        match pot.set_mode(config.mode) {
            Ok(()) => Ok(pot),
            Err(e) => Err(e),
        }
    }

    /// Set the control register mode, recording it as the driver's current
    /// mode.
    ///
    /// Issues exactly one bus write, `[0x02, mode byte]` to the configured
    /// address, and returns `Ok` exactly when the transport accepted it,
    /// wrapping the transport's fault kind unchanged otherwise. The cached
    /// mode is updated before the write is attempted, so on a transport
    /// failure the device's actual mode may lag the recorded one.
    ///
    /// # Errors
    /// Will return `Err` on I2C bus related problems.
    fn set_mode(&mut self, mode: ControlRegisterMode) -> (r: Result<(), Ds3502Error>)
        ensures
            final(self).spec_config().i2c_addr == old(self).spec_config().i2c_addr,
            final(self).spec_config().mode == mode,
            final(self).transactions() == old(self).transactions().push(
                mode_tx(old(self).spec_config().i2c_addr.spec_byte(), mode),
            ),
            r is Ok ==> final(self).outcomes() == old(self).outcomes().push(None),
            r is Err ==> final(self).outcomes() == old(self).outcomes().push(
                Some(r->Err_0->I2cError_0),
            ),
            r is Err ==> r->Err_0 is I2cError,
    {
        self.config.mode = mode;
        let addr: u8 = self.config.i2c_addr.byte();
        let frame = mode_frame(mode);
        let outcome = self.i2c.write(addr, frame.as_slice());
        proof {
            assert(self.transactions() =~= old(self).transactions().push(
                mode_tx(old(self).spec_config().i2c_addr.spec_byte(), mode),
            ));
        }
        match outcome {
            Ok(()) => Ok(()),
            Err(kind) => Err(Ds3502Error::I2cError(kind)),
        }
    }

    /// Set the digital potentiometer wiper to `value`.
    ///
    /// Issues exactly one bus write, `[0x00, value]` to the configured
    /// address, and returns `Ok` exactly when the transport accepted it,
    /// wrapping the transport's fault kind unchanged otherwise. The
    /// control-register mode is never touched: only the live wiper register
    /// is written.
    ///
    /// # Errors
    /// Will return `Err` on I2C bus related problems.
    pub fn write_wiper(&mut self, value: Wiper) -> (r: Result<(), Ds3502Error>)
        ensures
            final(self).spec_config() == old(self).spec_config(),
            final(self).transactions() == old(self).transactions().push(
                wiper_tx(old(self).spec_config().i2c_addr.spec_byte(), value.value()),
            ),
            r is Ok ==> final(self).outcomes() == old(self).outcomes().push(None),
            r is Err ==> final(self).outcomes() == old(self).outcomes().push(
                Some(r->Err_0->I2cError_0),
            ),
            r is Err ==> r->Err_0 is I2cError,
    {
        let addr: u8 = self.config.i2c_addr.byte();
        let frame = wiper_frame(value);
        let outcome = self.i2c.write(addr, frame.as_slice());
        proof {
            assert(self.transactions() =~= old(self).transactions().push(
                wiper_tx(old(self).spec_config().i2c_addr.spec_byte(), value.value()),
            ));
        }
        match outcome {
            Ok(()) => Ok(()),
            Err(kind) => Err(Ds3502Error::I2cError(kind)),
        }
    }

    /// Set the wiper to `value` and save it to the EEPROM.
    ///
    /// A three-step sequence of bus writes: enable saves to the initial value
    /// register (`[0x02, 0x00]`), write the wiper (`[0x00, value]`, now also
    /// captured into EEPROM by the device), and disable saves again
    /// (`[0x02, 0x80]`), limiting EEPROM wear to the writes explicitly
    /// requested as persistent.
    ///
    /// On a transport failure the sequence stops immediately: the remaining
    /// writes are neither attempted nor rolled back, so after an error the
    /// driver's recorded mode may disagree with the device's actual mode.
    /// A caller that must re-synchronize can reissue a mode-setting
    /// operation.
    ///
    /// # Errors
    /// Will return `Err` on I2C bus related problems.
    pub fn write_and_save_wiper(&mut self, value: Wiper) -> (r: Result<(), Ds3502Error>)
        ensures
            final(self).spec_config().i2c_addr == old(self).spec_config().i2c_addr,
            r is Ok ==> final(self).transactions() == old(self).transactions() + save_txs(
                old(self).spec_config().i2c_addr.spec_byte(),
                value.value(),
            ),
            r is Ok ==> final(self).spec_config().mode == ControlRegisterMode::WiperOnly,
            r is Ok ==> final(self).outcomes() == old(self).outcomes().push(None).push(
                None,
            ).push(None),
            r is Err ==> r->Err_0 is I2cError,
            r is Err ==> {
                let txs = save_txs(old(self).spec_config().i2c_addr.spec_byte(), value.value());
                let fault = Some(r->Err_0->I2cError_0);
                ||| (final(self).transactions() == old(self).transactions() + txs.subrange(0, 1)
                    && final(self).outcomes() == old(self).outcomes().push(fault)
                    && final(self).spec_config().mode
                        == ControlRegisterMode::WiperAndInitialValue)
                ||| (final(self).transactions() == old(self).transactions() + txs.subrange(0, 2)
                    && final(self).outcomes() == old(self).outcomes().push(None).push(fault)
                    && final(self).spec_config().mode
                        == ControlRegisterMode::WiperAndInitialValue)
                ||| (final(self).transactions() == old(self).transactions() + txs
                    && final(self).outcomes() == old(self).outcomes().push(None).push(
                        None,
                    ).push(fault)
                    && final(self).spec_config().mode == ControlRegisterMode::WiperOnly)
            },
    {
        let ghost txs = save_txs(old(self).spec_config().i2c_addr.spec_byte(), value.value());
        match self.set_mode(ControlRegisterMode::WiperAndInitialValue) {
            Ok(()) => {},
            Err(e) => {
                proof {
                    assert(self.transactions() =~= old(self).transactions() + txs.subrange(0, 1));
                }
                return Err(e);
            },
        }
        match self.write_wiper(value) {
            Ok(()) => {},
            Err(e) => {
                proof {
                    assert(self.transactions() =~= old(self).transactions() + txs.subrange(0, 2));
                }
                return Err(e);
            },
        }
        match self.set_mode(ControlRegisterMode::WiperOnly) {
            Ok(()) => {},
            Err(e) => {
                proof {
                    assert(self.transactions() =~= old(self).transactions() + txs);
                }
                return Err(e);
            },
        }
        proof {
            assert(self.transactions() =~= old(self).transactions() + txs);
        }
        Ok(())
    }
}

} // verus!
