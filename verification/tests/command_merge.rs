//! Merging command-line overrides into a base configuration, and the
//! flag-value parsers.

use glorious_mouse_control::command::{
    color_parser, idx_split_parse, idx_split_parse_cast, Command,
};
use glorious_mouse_control::config::{Color, Config, Mode, MouseButtonType, PollingRate};

fn no_overrides() -> Command {
    Command {
        mode: None,
        rainbow_speed: None,
        rainbow_direction: None,
        solid_brightness: None,
        solid_color: None,
        breathing_brightness: None,
        breathing_speed: None,
        breathing_color: Vec::new(),
        tail_brightness: None,
        tail_speed: None,
        fade_speed: None,
        rave_brightness: None,
        rave_speed: None,
        rave_color: Vec::new(),
        wave_brightness: None,
        wave_speed: None,
        breathing_single_speed: None,
        breathing_single_color: None,
        enable_dpi: Vec::new(),
        disable_dpi: Vec::new(),
        toggle_dpi: Vec::new(),
        dpi_color: Vec::new(),
        dpi: Vec::new(),
        dpi_x: Vec::new(),
        dpi_y: Vec::new(),
        reset_dpis: false,
        select_dpi: None,
        polling_rate: None,
        liftoff_distance: None,
        debounce_time: None,
        left_button: None,
        right_button: None,
        middle_button: None,
        forward_button: None,
        back_button: None,
        dpi_button: None,
        noconf: false,
        nosave: false,
        config: None,
    }
}

#[test]
fn empty_command_keeps_the_base_config() {
    let merged = no_overrides().apply_command_config(Config::default());
    let base = Config::default();
    assert_eq!(merged.current_dpi.get(), base.current_dpi.get());
    assert_eq!(merged.polling_rate, base.polling_rate);
    assert_eq!(merged.dpi[1], base.dpi[1]);
    assert_eq!(merged.buttons, base.buttons);
    assert_eq!(merged.lighting.solid.brightness.get(), 4);
}

#[test]
fn scalar_overrides_replace_base_values() {
    let mut cmd = no_overrides();
    cmd.mode = Some(Mode::Rave);
    cmd.solid_brightness = Some(2);
    cmd.polling_rate = Some(PollingRate::Hz125);
    cmd.select_dpi = Some(1);
    cmd.left_button = Some(MouseButtonType::ScrollUp);
    let merged = cmd.apply_command_config(Config::default());
    assert_eq!(merged.lighting.mode, Mode::Rave);
    assert_eq!(merged.lighting.solid.brightness.get(), 2);
    assert_eq!(merged.polling_rate, PollingRate::Hz125);
    assert_eq!(merged.current_dpi.get(), 1);
    assert_eq!(merged.buttons.left, MouseButtonType::ScrollUp);
    // untouched values stay
    assert_eq!(merged.buttons.right, MouseButtonType::RightClick);
    assert_eq!(merged.lighting.tail.speed.get(), 2);
}

#[test]
fn last_indexed_override_wins() {
    let mut cmd = no_overrides();
    cmd.dpi_color = vec![
        (2, Color { r: 1, g: 2, b: 3 }),
        (2, Color { r: 9, g: 8, b: 7 }),
    ];
    let merged = cmd.apply_command_config(Config::default());
    assert_eq!(merged.dpi[2].color, Color { r: 9, g: 8, b: 7 });
    // other slots keep the base color
    assert_eq!(merged.dpi[1].color, Color { r: 0xff, g: 0xff, b: 0xff });
}

#[test]
fn breathing_color_overrides_one_slot() {
    let mut cmd = no_overrides();
    cmd.breathing_color = vec![(6, Color { r: 4, g: 5, b: 6 })];
    let merged = cmd.apply_command_config(Config::default());
    assert_eq!(merged.lighting.breathing.colors[6], Color { r: 4, g: 5, b: 6 });
    assert_eq!(merged.lighting.breathing.colors[0], Color { r: 0xff, g: 0xff, b: 0xff });
}

#[test]
fn toggle_wins_over_enable_and_disable() {
    let mut cmd = no_overrides();
    cmd.toggle_dpi = vec![0, 3];
    cmd.enable_dpi = vec![0];
    cmd.disable_dpi = vec![0];
    let merged = cmd.apply_command_config(Config::default());
    // slot 0 was enabled, toggled off despite the enable flag
    assert!(!merged.dpi[0].enable);
    // slot 3 was disabled, toggled on
    assert!(merged.dpi[3].enable);
}

#[test]
fn enable_wins_over_disable_and_reset() {
    let mut cmd = no_overrides();
    cmd.enable_dpi = vec![4];
    cmd.disable_dpi = vec![4];
    cmd.reset_dpis = true;
    let merged = cmd.apply_command_config(Config::default());
    assert!(merged.dpi[4].enable);
    // reset turns every unlisted slot off
    assert!(!merged.dpi[0].enable);
    assert!(!merged.dpi[1].enable);
}

#[test]
fn axis_override_wins_over_both_axes_override() {
    let mut cmd = no_overrides();
    cmd.dpi = vec![(1, 50)];
    cmd.dpi_x = vec![(1, 70)];
    let merged = cmd.apply_command_config(Config::default());
    assert_eq!(merged.dpi[1].x_dpi, 70);
    assert_eq!(merged.dpi[1].y_dpi, 50);
    // untouched slot keeps the base magnitudes
    assert_eq!(merged.dpi[0].x_dpi, 4);
}

#[test]
fn flags_reflect_the_extra_options() {
    let mut cmd = no_overrides();
    cmd.nosave = true;
    cmd.config = Some(String::from("custom.json"));
    let flags = cmd.flags();
    assert!(!flags.save_config);
    assert!(flags.use_config);
    assert_eq!(flags.config_location.as_deref(), Some("custom.json"));
}

#[test]
fn color_parser_parses_hex() {
    let c = color_parser("0080ff").unwrap();
    assert_eq!((c.r, c.g, c.b), (0x00, 0x80, 0xff));
    assert!(color_parser("notacolor").is_err());
}

#[test]
fn idx_split_parse_color_values() {
    let (idx, color) = idx_split_parse::<Color, 0, 6>("3:ff0000").unwrap();
    assert_eq!(idx, 3);
    assert_eq!(color, Color { r: 0xff, g: 0, b: 0 });
}

#[test]
fn idx_split_parse_rejects_malformed_input() {
    assert!(idx_split_parse::<Color, 0, 6>("ff0000").is_err()); // no colon
    assert!(idx_split_parse::<Color, 0, 6>("1:2:ff0000").is_err()); // two colons
    assert!(idx_split_parse::<Color, 0, 6>("7:ff0000").is_err()); // index out of range
    assert!(idx_split_parse::<Color, 0, 6>("x:ff0000").is_err()); // index not a number
    assert!(idx_split_parse::<Color, 0, 6>("3:ff000").is_err()); // bad value
}

#[test]
fn dpi_values_must_end_in_two_zeros() {
    assert_eq!(idx_split_parse_cast::<0, 5>("2:1600").unwrap(), (2, 16));
    assert_eq!(idx_split_parse_cast::<0, 5>("0:25500").unwrap(), (0, 255));
    assert!(idx_split_parse_cast::<0, 5>("2:165").is_err()); // no trailing 00
    assert!(idx_split_parse_cast::<0, 5>("2:25600").is_err()); // over 255 after /100
    assert!(idx_split_parse_cast::<0, 5>("2:00").is_err()); // empty magnitude
}
