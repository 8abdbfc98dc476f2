//! Wire-code mappings, range-restricted bytes, and hex color parsing.

use glorious_mouse_control::config::{
    Color, Config, DebounceTime, LiftoffDistance, Mode, MouseButtonType, PollingRate,
    RainbowDirection, RangedByte,
};

#[test]
fn mode_wire_codes() {
    let expected: [(Mode, u8); 11] = [
        (Mode::Off, 0x00),
        (Mode::Rainbow, 0x01),
        (Mode::Solid, 0x02),
        (Mode::Breathing, 0x03),
        (Mode::Tail, 0x04),
        (Mode::Fade, 0x05),
        (Mode::WaveSolid, 0x06),
        (Mode::Rave, 0x07),
        (Mode::Random, 0x08),
        (Mode::Wave, 0x09),
        (Mode::BreathingSingle, 0x0a),
    ];
    for (mode, wire) in expected {
        assert_eq!(mode.wire_code(), wire);
    }
}

#[test]
fn polling_liftoff_direction_wire_codes() {
    assert_eq!(PollingRate::Hz125.wire_code(), 0x01);
    assert_eq!(PollingRate::Hz250.wire_code(), 0x02);
    assert_eq!(PollingRate::Hz500.wire_code(), 0x03);
    assert_eq!(PollingRate::Hz1000.wire_code(), 0x04);
    assert_eq!(LiftoffDistance::Mm2.wire_code(), 0x01);
    assert_eq!(LiftoffDistance::Mm3.wire_code(), 0x02);
    assert_eq!(RainbowDirection::Backward.wire_code(), 0x00);
    assert_eq!(RainbowDirection::Forward.wire_code(), 0x01);
}

#[test]
fn button_wire_codes() {
    let expected: [(MouseButtonType, u32); 11] = [
        (MouseButtonType::Disable, 0x50010000),
        (MouseButtonType::LeftClick, 0x11010000),
        (MouseButtonType::RightClick, 0x11020000),
        (MouseButtonType::MiddleClick, 0x11040000),
        (MouseButtonType::Back, 0x11080000),
        (MouseButtonType::Forward, 0x11100000),
        (MouseButtonType::ScrollUp, 0x12010000),
        (MouseButtonType::ScrollDown, 0x12ff0000),
        (MouseButtonType::DpiLoop, 0x41000000),
        (MouseButtonType::DpiPlus, 0x41010000),
        (MouseButtonType::DpiMinus, 0x41020000),
    ];
    for (button, wire) in expected {
        assert_eq!(button.wire_code(), wire);
        // the low 16 bits are always zero
        assert_eq!(wire & 0xffff, 0);
    }
}

#[test]
fn debounce_wire_codes() {
    assert_eq!(DebounceTime::Ms4.wire_code(), 0x02);
    assert_eq!(DebounceTime::Ms16.wire_code(), 0x08);
}

#[test]
fn ranged_byte_accepts_in_range() {
    let b = RangedByte::<1, 4>::try_new(4).unwrap();
    assert_eq!(b.get(), 4);
    let s = RangedByte::<1, 3>::try_new(1).unwrap();
    assert_eq!(s.get(), 1);
}

#[test]
fn ranged_byte_rejects_out_of_range() {
    assert!(RangedByte::<1, 4>::try_new(0).is_err());
    assert!(RangedByte::<1, 4>::try_new(5).is_err());
    assert!(RangedByte::<0, 5>::try_new(6).is_err());
}

#[test]
fn hex_color_parses_lower_and_upper_case() {
    let c = Color::try_from_hex("ff00a0").unwrap();
    assert_eq!((c.r, c.g, c.b), (0xff, 0x00, 0xa0));
    let c = Color::try_from_hex("FF00A0").unwrap();
    assert_eq!((c.r, c.g, c.b), (0xff, 0x00, 0xa0));
    let c = Color::try_from_hex("123aBc").unwrap();
    assert_eq!((c.r, c.g, c.b), (0x12, 0x3a, 0xbc));
}

#[test]
fn hex_color_rejects_malformed_strings() {
    assert!(Color::try_from_hex("").is_err());
    assert!(Color::try_from_hex("fff").is_err());
    assert!(Color::try_from_hex("fffffff").is_err());
    assert!(Color::try_from_hex("zzzzzz").is_err());
    assert!(Color::try_from_hex("ff00g0").is_err());
}

#[test]
fn default_config_satisfies_the_dpi_invariant() {
    let config = Config::default();
    assert!(config.has_enabled_dpi());
    assert_eq!(config.current_dpi.get(), 0);
    assert!(config.dpi[0].enable);
    assert!(config.dpi[1].enable);
    assert!(config.dpi[2].enable);
    assert!(!config.dpi[3].enable);
    assert_eq!(config.dpi[1].x_dpi, 8);
    assert_eq!(config.dpi[5].y_dpi, 18);
}

#[test]
fn reselect_moves_to_first_enabled_slot() {
    let mut config = Config::default();
    config.dpi[0].enable = false;
    config.dpi[1].enable = false;
    // slot 0 selected but disabled: the first enabled slot is 2
    let changed = config.reselect_disabled_dpi();
    assert!(changed);
    assert_eq!(config.current_dpi.get(), 2);
}

#[test]
fn reselect_keeps_an_enabled_selection() {
    let mut config = Config::default();
    config.current_dpi = RangedByte(1);
    let changed = config.reselect_disabled_dpi();
    assert!(!changed);
    assert_eq!(config.current_dpi.get(), 1);
}
