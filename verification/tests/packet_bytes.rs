//! Byte-exact checks of the three packet encoders.

use glorious_mouse_control::config::{
    Color, Config, DebounceTime, Dpi, LiftoffDistance, Mode, MouseButtonType, PollingRate,
    RangedByte,
};
use glorious_mouse_control::packet::{
    build_buttons_packet, build_debounce_packet, build_main_packet,
};

fn white() -> Color {
    Color { r: 0xff, g: 0xff, b: 0xff }
}

fn slot(enable: bool, x: u8, y: u8) -> Dpi {
    Dpi { enable, color: white(), x_dpi: x, y_dpi: y }
}

#[test]
fn main_packet_is_520_bytes() {
    let packet = build_main_packet(&Config::default());
    assert_eq!(packet.len(), 520);
}

#[test]
fn buttons_packet_is_520_bytes() {
    let packet = build_buttons_packet(&Config::default());
    assert_eq!(packet.len(), 520);
}

#[test]
fn debounce_packet_is_6_bytes() {
    let packet = build_debounce_packet(&Config::default());
    assert_eq!(packet.len(), 6);
}

#[test]
fn sizes_are_invariant_under_content() {
    let mut config = Config::default();
    config.dpi = [
        slot(true, 1, 2),
        slot(true, 30, 40),
        slot(false, 5, 5),
        slot(true, 60, 60),
        slot(false, 7, 8),
        slot(true, 90, 90),
    ];
    config.current_dpi = RangedByte(3);
    config.lighting.mode = Mode::Rave;
    assert_eq!(build_main_packet(&config).len(), 520);
    assert_eq!(build_buttons_packet(&config).len(), 520);
    assert_eq!(build_debounce_packet(&config).len(), 6);
}

#[test]
fn encoding_is_deterministic() {
    let config = Config::default();
    assert_eq!(build_main_packet(&config), build_main_packet(&config));
    assert_eq!(build_buttons_packet(&config), build_buttons_packet(&config));
    assert_eq!(build_debounce_packet(&config), build_debounce_packet(&config));
}

#[test]
fn default_config_header_bytes() {
    // slots 0-2 enabled with equal X/Y, slot 0 selected, 1000 Hz
    let packet = build_main_packet(&Config::default());
    assert_eq!(packet[10], 0x04); // polling 1000 Hz, no separate axis
    assert_eq!(packet[11], 0x13); // position 1, count 3
    assert_eq!(packet[12], 0xf8); // !0b0000_0111
}

#[test]
fn main_packet_preamble_bytes() {
    let packet = build_main_packet(&Config::default());
    assert_eq!(&packet[0..10], &[0x04, 0x11, 0x00, 0x7b, 0x00, 0x00, 0x00, 0x00, 0x64, 0x06]);
}

#[test]
fn enable_mask_is_complement_of_enabled_slots() {
    let mut config = Config::default();
    config.dpi = [
        slot(true, 4, 4),
        slot(false, 4, 4),
        slot(true, 4, 4),
        slot(false, 4, 4),
        slot(true, 4, 4),
        slot(false, 4, 4),
    ];
    config.current_dpi = RangedByte(0);
    let packet = build_main_packet(&config);
    // enabled slots {0, 2, 4}: mask 0b010101, transmitted complemented
    assert_eq!(packet[12], !0b0001_0101u8);
}

#[test]
fn selected_dpi_position_counts_enabled_slots_only() {
    let mut config = Config::default();
    config.dpi = [
        slot(true, 4, 4),
        slot(false, 4, 4),
        slot(true, 4, 4),
        slot(false, 4, 4),
        slot(true, 4, 4),
        slot(false, 4, 4),
    ];
    config.current_dpi = RangedByte(2);
    let packet = build_main_packet(&config);
    // slot 2 is the second enabled slot of three
    assert_eq!(packet[11], 0x23);
}

#[test]
fn equal_axes_emit_x_block_and_padding() {
    let mut config = Config::default();
    config.dpi = [
        slot(true, 11, 11),
        slot(true, 12, 12),
        slot(true, 13, 13),
        slot(false, 14, 14),
        slot(false, 15, 15),
        slot(false, 16, 16),
    ];
    let packet = build_main_packet(&config);
    assert_eq!(packet[10] & 0x08, 0); // separate-axis bit clear
    assert_eq!(&packet[13..19], &[11, 12, 13, 14, 15, 16]);
    assert_eq!(&packet[19..25], &[0, 0, 0, 0, 0, 0]);
}

#[test]
fn separate_axes_emit_xy_pairs() {
    let mut config = Config::default();
    config.dpi = [
        slot(true, 11, 21),
        slot(true, 12, 12),
        slot(true, 13, 13),
        slot(false, 14, 14),
        slot(false, 15, 15),
        slot(false, 16, 16),
    ];
    let packet = build_main_packet(&config);
    assert_eq!(packet[10] & 0x08, 0x08); // separate-axis bit set
    assert_eq!(&packet[13..25], &[11, 21, 12, 12, 13, 13, 14, 14, 15, 15, 16, 16]);
}

#[test]
fn combined_brightness_speed_bytes() {
    let mut config = Config::default();
    config.lighting.tail.brightness = RangedByte(4);
    config.lighting.tail.speed = RangedByte(3);
    config.lighting.rainbow.speed = RangedByte(2);
    config.lighting.fade.speed = RangedByte(1);
    config.lighting.rave.brightness = RangedByte(2);
    config.lighting.rave.speed = RangedByte(1);
    config.lighting.wave.brightness = RangedByte(1);
    config.lighting.wave.speed = RangedByte(2);
    let packet = build_main_packet(&config);
    assert_eq!(packet[83], 0x43); // tail: high nibble brightness, low speed
    assert_eq!(packet[54], 0x42); // rainbow: 0x40 | speed
    assert_eq!(packet[84], 0x41); // fade: 0x40 | speed
    assert_eq!(packet[116], 0x21); // rave
    assert_eq!(packet[124], 0x12); // wave
}

#[test]
fn lighting_colors_are_written_r_b_g() {
    let mut config = Config::default();
    config.lighting.solid.color = Color { r: 0x11, g: 0x22, b: 0x33 };
    config.lighting.breathing_single.color = Color { r: 0xaa, g: 0xbb, b: 0xcc };
    let packet = build_main_packet(&config);
    assert_eq!(&packet[57..60], &[0x11, 0x33, 0x22]);
    assert_eq!(&packet[126..129], &[0xaa, 0xcc, 0xbb]);
}

#[test]
fn dpi_colors_are_written_r_g_b() {
    let mut config = Config::default();
    config.dpi[0].color = Color { r: 0x11, g: 0x22, b: 0x33 };
    let packet = build_main_packet(&config);
    assert_eq!(&packet[29..32], &[0x11, 0x22, 0x33]);
}

#[test]
fn mode_and_liftoff_bytes() {
    let mut config = Config::default();
    config.lighting.mode = Mode::BreathingSingle;
    config.liftoff_distance = LiftoffDistance::Mm3;
    let packet = build_main_packet(&config);
    assert_eq!(packet[53], 0x0a);
    assert_eq!(packet[129], 0x02);
}

#[test]
fn fixed_markers_and_reserved_block() {
    let packet = build_main_packet(&Config::default());
    assert_eq!(&packet[25..29], &[0, 0, 0, 0]);
    assert_eq!(&packet[47..53], &[0, 0, 0, 0, 0, 0]);
    assert_eq!(&packet[60..62], &[0x42, 0x07]);
    assert_eq!(
        &packet[85..116],
        &[
            0x00, 0xff, 0x00, 0x00, 0x00, 0xff, 0x00, 0x00, 0x00, 0xff, 0xff, 0xff, 0x00, 0x00,
            0xff, 0xff, 0xff, 0xff, 0xff, 0xfa, 0x00, 0xff, 0xff, 0x00, 0x00, 0xff, 0x00, 0x00,
            0xff, 0x00, 0x00,
        ]
    );
    assert_eq!(packet[123], 0x02);
    // zero fill after the liftoff byte
    for i in 130..520usize {
        assert_eq!(packet[i], 0);
    }
}

#[test]
fn status_byte_carries_polling_rate() {
    let mut config = Config::default();
    config.polling_rate = PollingRate::Hz125;
    assert_eq!(build_main_packet(&config)[10], 0x01);
    config.polling_rate = PollingRate::Hz250;
    assert_eq!(build_main_packet(&config)[10], 0x02);
    config.polling_rate = PollingRate::Hz500;
    assert_eq!(build_main_packet(&config)[10], 0x03);
    config.polling_rate = PollingRate::Hz1000;
    assert_eq!(build_main_packet(&config)[10], 0x04);
}

#[test]
fn buttons_packet_layout() {
    let packet = build_buttons_packet(&Config::default());
    assert_eq!(&packet[0..8], &[0x04, 0x12, 0x00, 0x50, 0x00, 0x00, 0x00, 0x00]);
    // default bindings, big-endian
    assert_eq!(&packet[8..12], &[0x11, 0x01, 0x00, 0x00]); // left click
    assert_eq!(&packet[12..16], &[0x11, 0x02, 0x00, 0x00]); // right click
    assert_eq!(&packet[16..20], &[0x11, 0x04, 0x00, 0x00]); // middle click
    assert_eq!(&packet[20..24], &[0x11, 0x08, 0x00, 0x00]); // back
    assert_eq!(&packet[24..28], &[0x11, 0x10, 0x00, 0x00]); // forward
    assert_eq!(&packet[28..32], &[0x41, 0x00, 0x00, 0x00]); // dpi loop
    // thirteen disable codes fill the remaining firmware slots
    for k in 0..13usize {
        assert_eq!(&packet[32 + 4 * k..36 + 4 * k], &[0x50, 0x01, 0x00, 0x00]);
    }
    // zero padding to the end
    for i in 84..520usize {
        assert_eq!(packet[i], 0);
    }
}

#[test]
fn buttons_packet_uses_configured_bindings() {
    let mut config = Config::default();
    config.buttons.left = MouseButtonType::ScrollDown;
    config.buttons.dpi = MouseButtonType::DpiMinus;
    let packet = build_buttons_packet(&config);
    assert_eq!(&packet[8..12], &[0x12, 0xff, 0x00, 0x00]);
    assert_eq!(&packet[28..32], &[0x41, 0x02, 0x00, 0x00]);
}

#[test]
fn debounce_packet_bytes() {
    let mut config = Config::default();
    let expected: [(DebounceTime, u8); 7] = [
        (DebounceTime::Ms4, 0x02),
        (DebounceTime::Ms6, 0x03),
        (DebounceTime::Ms8, 0x04),
        (DebounceTime::Ms10, 0x05),
        (DebounceTime::Ms12, 0x06),
        (DebounceTime::Ms14, 0x07),
        (DebounceTime::Ms16, 0x08),
    ];
    for (setting, wire) in expected {
        config.debounce_time = setting;
        let packet = build_debounce_packet(&config);
        assert_eq!(packet, vec![0x05, 0x1a, wire, 0x00, 0x00, 0x00]);
    }
}

#[test]
fn end_to_end_default_scenario() {
    // default Config: mode off, 1000 Hz, slots 0-2 enabled with equal
    // X/Y, slot 0 selected
    let config = Config::default();
    let main = build_main_packet(&config);
    let buttons = build_buttons_packet(&config);
    let debounce = build_debounce_packet(&config);
    assert_eq!(main.len(), 520);
    assert_eq!(buttons.len(), 520);
    assert_eq!(debounce.len(), 6);
    assert_eq!(main[10] & 0x0f, 0x04);
    assert_eq!(main[10] & 0x08, 0x00);
    assert_eq!(main[11], (0x1 << 4) | 0x03);
    assert_eq!(main[12], 0xf8);
    assert_eq!(main[53], 0x00); // mode off
    assert_eq!(debounce, vec![0x05, 0x1a, 0x05, 0x00, 0x00, 0x00]);
}
