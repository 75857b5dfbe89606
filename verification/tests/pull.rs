use firmware_image::pull::Pull;

#[test]
fn pull_selects_its_enable_bits() {
    assert_eq!(Pull::Floating.enables(), (false, false));
    assert_eq!(Pull::Up.enables(), (true, false));
    assert_eq!(Pull::Down.enables(), (false, true));
}

#[test]
fn enable_bits_select_a_pull() {
    assert_eq!(Pull::from_enables(true, false), Some(Pull::Up));
    assert_eq!(Pull::from_enables(false, true), Some(Pull::Down));
    assert_eq!(Pull::from_enables(false, false), Some(Pull::Floating));
}

#[test]
fn both_enable_bits_select_no_pull() {
    assert_eq!(Pull::from_enables(true, true), None);
}

#[test]
fn pull_survives_write_and_read() {
    for pull in [Pull::Floating, Pull::Up, Pull::Down] {
        let (up, down) = pull.enables();
        assert_eq!(Pull::from_enables(up, down), Some(pull));
    }
}
