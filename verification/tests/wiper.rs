use ds3502::{Ds3502Error, Wiper};

#[test]
fn wiper_accepts_every_value_in_range() {
    for v in 0..=127u8 {
        let w = Wiper::try_from(v).unwrap();
        assert_eq!(w.inner(), v);
    }
}

#[test]
fn wiper_rejects_every_value_out_of_range() {
    for v in 128..=255u8 {
        let r = Wiper::try_from(v);
        assert_eq!(r, Err(Ds3502Error::InvalidWiperValue));
    }
}

#[test]
fn wiper_boundary_values() {
    assert!(Wiper::try_from(0).is_ok());
    assert!(Wiper::try_from(20).is_ok());
    assert!(Wiper::try_from(127).is_ok());
    assert!(Wiper::try_from(128).is_err());
}

#[test]
fn wiper_orders_by_position() {
    let low = Wiper::try_from(3).unwrap();
    let high = Wiper::try_from(90).unwrap();
    assert!(low < high);
    assert_eq!(low, Wiper::try_from(3).unwrap());
}
