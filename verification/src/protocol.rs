use vstd::prelude::*;

use crate::bus::TxView;
use crate::config::{Config, ControlRegisterMode};
use crate::wiper::Wiper;

verus! {

/// Register-select byte of the wiper register (WR).
pub const WIPER_REGISTER: u8 = 0x00;

/// Register-select byte of the control register (CR).
pub const CONTROL_REGISTER: u8 = 0x02;

/// The two-byte frame that selects the control register and sets `mode`.
pub open spec fn spec_mode_frame(mode: ControlRegisterMode) -> Seq<u8> {
    seq![CONTROL_REGISTER, mode.spec_byte()]
}

/// The two-byte frame that selects the wiper register and writes `value`.
pub open spec fn spec_wiper_frame(value: u8) -> Seq<u8> {
    seq![WIPER_REGISTER, value]
}

/// Build the control-register frame for `mode`.
pub fn mode_frame(mode: ControlRegisterMode) -> (r: Vec<u8>)
    ensures
        r@ == spec_mode_frame(mode),
{
    let mut r: Vec<u8> = Vec::new();
    r.push(CONTROL_REGISTER);
    r.push(mode.byte());
    proof {
        assert(r@ =~= spec_mode_frame(mode));
    }
    r
}

/// Build the wiper-register frame for `value`.
pub fn wiper_frame(value: Wiper) -> (r: Vec<u8>)
    ensures
        r@ == spec_wiper_frame(value.value()),
{
    let mut r: Vec<u8> = Vec::new();
    r.push(WIPER_REGISTER);
    r.push(value.inner());
    proof {
        assert(r@ =~= spec_wiper_frame(value.value()));
    }
    r
}

/// The transaction that sets the control-register mode of the device at
/// `addr`.
pub open spec fn mode_tx(addr: u8, mode: ControlRegisterMode) -> TxView {
    TxView { addr, bytes: spec_mode_frame(mode) }
}

/// The transaction that writes wiper position `value` on the device at
/// `addr`.
pub open spec fn wiper_tx(addr: u8, value: u8) -> TxView {
    TxView { addr, bytes: spec_wiper_frame(value) }
}

/// The three transactions of a write-and-persist operation, in order: enable
/// saves to the initial value register, write the wiper position, disable
/// saves again.
pub open spec fn save_txs(addr: u8, value: u8) -> Seq<TxView> {
    seq![
        mode_tx(addr, ControlRegisterMode::WiperAndInitialValue),
        wiper_tx(addr, value),
        mode_tx(addr, ControlRegisterMode::WiperOnly),
    ]
}

/// Every transaction issued by the session "initialize with `config`, write
/// wiper `v1`, write and persist wiper `v2`" in which each bus write
/// succeeds.
pub open spec fn session_txs(config: Config, v1: u8, v2: u8) -> Seq<TxView> {
    seq![
        mode_tx(config.i2c_addr.spec_byte(), config.mode),
        wiper_tx(config.i2c_addr.spec_byte(), v1),
    ] + save_txs(config.i2c_addr.spec_byte(), v2)
}

/// A successful blocking session puts exactly [`session_txs`] on the wire.
///
/// The blocking driver's contracts promise, for a transport whose record
/// stands at `log`: initialization pushes the configured mode transaction,
/// a wiper write pushes its wiper transaction, and a successful
/// write-and-persist appends its three transactions. This lemma states that
/// those promises, chained, extend the record by exactly [`session_txs`].
pub proof fn lemma_blocking_session_txs(log: Seq<TxView>, config: Config, v1: u8, v2: u8)
    ensures
        log.push(mode_tx(config.i2c_addr.spec_byte(), config.mode)).push(
            wiper_tx(config.i2c_addr.spec_byte(), v1),
        ) + save_txs(config.i2c_addr.spec_byte(), v2) =~= log + session_txs(config, v1, v2),
{
}

/// The two bus disciplines frame identical bytes.
///
/// The blocking driver's contracts promise that the session "initialize,
/// write wiper `v1`, write and persist wiper `v2`" puts exactly
/// [`session_txs`] on the wire, while a suspend-capable adapter sends, one
/// suspension point per transaction, the frames built by [`mode_frame`] and
/// [`wiper_frame`] in the same order. This lemma states that those two
/// transaction sequences are one and the same, so the disciplines produce
/// byte-identical bus traffic.
pub proof fn lemma_disciplines_agree(config: Config, v1: Wiper, v2: Wiper)
    ensures
        session_txs(config, v1.value(), v2.value()) =~= seq![
            (TxView {
                addr: config.i2c_addr.spec_byte(),
                bytes: seq![0x02u8, config.mode.spec_byte()],
            }),
            (TxView { addr: config.i2c_addr.spec_byte(), bytes: seq![0x00u8, v1.value()] }),
            (TxView { addr: config.i2c_addr.spec_byte(), bytes: seq![0x02u8, 0x00u8] }),
            (TxView { addr: config.i2c_addr.spec_byte(), bytes: seq![0x00u8, v2.value()] }),
            (TxView { addr: config.i2c_addr.spec_byte(), bytes: seq![0x02u8, 0x80u8] }),
        ],
{
    assert(spec_mode_frame(config.mode) =~= seq![0x02u8, config.mode.spec_byte()]);
    assert(spec_wiper_frame(v1.value()) =~= seq![0x00u8, v1.value()]);
    assert(spec_mode_frame(ControlRegisterMode::WiperAndInitialValue) =~= seq![
        0x02u8,
        0x00u8,
    ]);
    assert(spec_wiper_frame(v2.value()) =~= seq![0x00u8, v2.value()]);
    assert(spec_mode_frame(ControlRegisterMode::WiperOnly) =~= seq![0x02u8, 0x80u8]);
}

} // verus!
