use ds3502::bus::Transaction;
use ds3502::error::I2cErrorKind;
use ds3502::protocol::{mode_frame, wiper_frame};
use ds3502::scripted::ScriptedBus;
use ds3502::{Config, ControlRegisterMode, Ds3502, Ds3502Error, I2cAddr, Wiper};

fn run_blocking(i2c: ScriptedBus) -> Result<ScriptedBus, Ds3502Error> {
    let mut digipot = Ds3502::blocking_init(i2c, Config::default())?;
    let wv = Wiper::try_from(88)?;
    digipot.write_wiper(wv)?;
    let wv = Wiper::try_from(23)?;
    digipot.write_and_save_wiper(wv)?;
    Ok(digipot.into_inner())
}

/// The frames a suspend-capable adapter sends for the same session, one
/// suspension point per transaction, built from the shared framing
/// functions.
fn suspend_session_frames() -> Vec<Transaction> {
    let cfg = Config::default();
    let addr = cfg.i2c_addr.byte();
    vec![
        Transaction { addr, bytes: mode_frame(cfg.mode) },
        Transaction { addr, bytes: wiper_frame(Wiper::try_from(88).unwrap()) },
        Transaction { addr, bytes: mode_frame(ControlRegisterMode::WiperAndInitialValue) },
        Transaction { addr, bytes: wiper_frame(Wiper::try_from(23).unwrap()) },
        Transaction { addr, bytes: mode_frame(ControlRegisterMode::WiperOnly) },
    ]
}

#[test]
fn test_both() {
    let blocking_i2c = run_blocking(ScriptedBus::new(vec![])).unwrap();
    assert_eq!(blocking_i2c.into_log(), suspend_session_frames());
}

#[test]
fn init_issues_one_mode_write_to_default_address() {
    let bus = ScriptedBus::new(vec![]);
    let digipot = Ds3502::blocking_init(bus, Config::default()).unwrap();
    assert_eq!(digipot.mode(), ControlRegisterMode::WiperOnly);
    let log = digipot.into_inner().into_log();
    assert_eq!(log.len(), 1);
    assert_eq!(log[0].addr, 0x28);
    assert_eq!(log[0].bytes, vec![0x02, 0x80]);
}

#[test]
fn init_with_saves_enabled_frames_mode_zero() {
    let bus = ScriptedBus::new(vec![]);
    let config = Config {
        i2c_addr: I2cAddr::Address01,
        mode: ControlRegisterMode::WiperAndInitialValue,
    };
    let digipot = Ds3502::blocking_init(bus, config).unwrap();
    assert_eq!(digipot.mode(), ControlRegisterMode::WiperAndInitialValue);
    let log = digipot.into_inner().into_log();
    assert_eq!(log.len(), 1);
    assert_eq!(log[0].addr, 0x2b);
    assert_eq!(log[0].bytes, vec![0x02, 0x00]);
}

#[test]
fn init_propagates_a_bus_fault() {
    let bus = ScriptedBus::new(vec![false]);
    let r = Ds3502::blocking_init(bus, Config::default());
    assert_eq!(r.err(), Some(Ds3502Error::I2cError(I2cErrorKind::Other)));
}

#[test]
fn write_wiper_issues_one_write_and_keeps_the_mode() {
    let bus = ScriptedBus::new(vec![]);
    let mut digipot = Ds3502::blocking_init(bus, Config::default()).unwrap();
    let before = digipot.mode();
    digipot.write_wiper(Wiper::try_from(88).unwrap()).unwrap();
    assert_eq!(digipot.mode(), before);
    let log = digipot.into_inner().into_log();
    assert_eq!(log.len(), 2);
    assert_eq!(log[1].addr, 0x28);
    assert_eq!(log[1].bytes, vec![0x00, 88]);
}

#[test]
fn write_wiper_propagates_a_bus_fault() {
    let bus = ScriptedBus::new(vec![true, false]);
    let mut digipot = Ds3502::blocking_init(bus, Config::default()).unwrap();
    let r = digipot.write_wiper(Wiper::try_from(5).unwrap());
    assert_eq!(r, Err(Ds3502Error::I2cError(I2cErrorKind::Other)));
    assert_eq!(digipot.mode(), ControlRegisterMode::WiperOnly);
    // The failed attempt is still recorded.
    assert_eq!(digipot.into_inner().write_count(), 2);
}

#[test]
fn write_and_save_issues_three_writes_in_order() {
    let bus = ScriptedBus::new(vec![]);
    let mut digipot = Ds3502::blocking_init(bus, Config::default()).unwrap();
    assert_eq!(digipot.mode(), ControlRegisterMode::WiperOnly);
    digipot.write_and_save_wiper(Wiper::try_from(23).unwrap()).unwrap();
    assert_eq!(digipot.mode(), ControlRegisterMode::WiperOnly);
    let log = digipot.into_inner().into_log();
    assert_eq!(log.len(), 4);
    assert_eq!(log[1].bytes, vec![0x02, 0x00]);
    assert_eq!(log[2].bytes, vec![0x00, 23]);
    assert_eq!(log[3].bytes, vec![0x02, 0x80]);
    assert_eq!(log[1].addr, 0x28);
    assert_eq!(log[2].addr, 0x28);
    assert_eq!(log[3].addr, 0x28);
}

#[test]
fn write_and_save_stops_after_a_second_step_fault() {
    // Index 0 is the initialization write; the save sequence then fails at
    // its second step.
    let bus = ScriptedBus::new(vec![true, true, false]);
    let mut digipot = Ds3502::blocking_init(bus, Config::default()).unwrap();
    let r = digipot.write_and_save_wiper(Wiper::try_from(23).unwrap());
    assert_eq!(r, Err(Ds3502Error::I2cError(I2cErrorKind::Other)));
    // The restoration write was never attempted: the driver's recorded mode
    // still says saves are enabled.
    assert_eq!(digipot.mode(), ControlRegisterMode::WiperAndInitialValue);
    let log = digipot.into_inner().into_log();
    // Exactly two writes for the aborted operation, not three.
    assert_eq!(log.len(), 3);
    assert_eq!(log[1].bytes, vec![0x02, 0x00]);
    assert_eq!(log[2].bytes, vec![0x00, 23]);
}

#[test]
fn write_and_save_stops_after_a_first_step_fault() {
    let bus = ScriptedBus::new(vec![true, false]);
    let mut digipot = Ds3502::blocking_init(bus, Config::default()).unwrap();
    let r = digipot.write_and_save_wiper(Wiper::try_from(23).unwrap());
    assert!(r.is_err());
    assert_eq!(digipot.mode(), ControlRegisterMode::WiperAndInitialValue);
    assert_eq!(digipot.into_inner().write_count(), 2);
}

#[test]
fn write_and_save_restoration_fault_keeps_the_restored_mode() {
    let bus = ScriptedBus::new(vec![true, true, true, false]);
    let mut digipot = Ds3502::blocking_init(bus, Config::default()).unwrap();
    let r = digipot.write_and_save_wiper(Wiper::try_from(23).unwrap());
    assert!(r.is_err());
    // The third write was attempted, so the driver records saves as disabled
    // again, even though the device may not have seen the frame.
    assert_eq!(digipot.mode(), ControlRegisterMode::WiperOnly);
    assert_eq!(digipot.into_inner().write_count(), 4);
}

#[test]
fn every_strappable_address_has_its_byte() {
    assert_eq!(I2cAddr::Default.byte(), 0x28);
    assert_eq!(I2cAddr::Address0.byte(), 0x29);
    assert_eq!(I2cAddr::Address1.byte(), 0x2a);
    assert_eq!(I2cAddr::Address01.byte(), 0x2b);
}

#[test]
fn operations_address_the_configured_device() {
    let bus = ScriptedBus::new(vec![]);
    let config = Config { i2c_addr: I2cAddr::Address1, mode: ControlRegisterMode::WiperOnly };
    let mut digipot = Ds3502::blocking_init(bus, config).unwrap();
    digipot.write_wiper(Wiper::try_from(64).unwrap()).unwrap();
    let log = digipot.into_inner().into_log();
    assert!(log.iter().all(|t| t.addr == 0x2a));
}

#[test]
fn frames_are_bit_exact() {
    assert_eq!(mode_frame(ControlRegisterMode::WiperAndInitialValue), vec![0x02, 0x00]);
    assert_eq!(mode_frame(ControlRegisterMode::WiperOnly), vec![0x02, 0x80]);
    assert_eq!(wiper_frame(Wiper::try_from(127).unwrap()), vec![0x00, 127]);
    assert_eq!(wiper_frame(Wiper::try_from(0).unwrap()), vec![0x00, 0]);
}

#[test]
fn default_config_disables_saves() {
    let config = Config::default();
    assert_eq!(config.i2c_addr, I2cAddr::Default);
    assert_eq!(config.mode, ControlRegisterMode::WiperOnly);
}

#[test]
fn scripted_bus_succeeds_past_the_script_end() {
    let mut bus = ScriptedBus::new(vec![false]);
    assert!(bus.record(0x28, &[0x02, 0x80]).is_err());
    assert!(bus.record(0x28, &[0x00, 1]).is_ok());
    assert_eq!(bus.write_count(), 2);
    assert_eq!(bus.transaction(0).bytes, vec![0x02, 0x80]);
    assert_eq!(bus.transaction(1).bytes, vec![0x00, 1]);
}
