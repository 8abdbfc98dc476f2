//! Command-line overrides: the [`Command`] value carries every flag, and
//! [`Command::apply_command_config`] merges it over a base [`Config`].
//!
//! A scalar flag replaces the base value when present; the indexed flags
//! (`--dpi-color 2:ff0000`, repeatable) replace one array element each,
//! the last occurrence of an index winning, exactly as collecting the
//! pairs into a map would.

use vstd::prelude::*;
use vstd::string::StringSliceAdditionalSpecFns;

use crate::config::{
    Color, Config, DebounceTime, Dpi, LiftoffDistance, Lighting, Mode, MouseButtonType,
    MouseButtons, PollingRate, RainbowDirection, RangedByte,
};

verus! {

/// Every command-line override; `None` or an empty list means the base
/// configuration's value is kept.
#[derive(Debug)]
pub struct Command {
    pub mode: Option<Mode>,
    pub rainbow_speed: Option<u8>,
    pub rainbow_direction: Option<RainbowDirection>,
    pub solid_brightness: Option<u8>,
    pub solid_color: Option<Color>,
    pub breathing_brightness: Option<u8>,
    pub breathing_speed: Option<u8>,
    pub breathing_color: Vec<(u8, Color)>,
    pub tail_brightness: Option<u8>,
    pub tail_speed: Option<u8>,
    pub fade_speed: Option<u8>,
    pub rave_brightness: Option<u8>,
    pub rave_speed: Option<u8>,
    pub rave_color: Vec<(u8, Color)>,
    pub wave_brightness: Option<u8>,
    pub wave_speed: Option<u8>,
    pub breathing_single_speed: Option<u8>,
    pub breathing_single_color: Option<Color>,
    pub enable_dpi: Vec<u8>,
    pub disable_dpi: Vec<u8>,
    pub toggle_dpi: Vec<u8>,
    pub dpi_color: Vec<(u8, Color)>,
    pub dpi: Vec<(u8, u8)>,
    pub dpi_x: Vec<(u8, u8)>,
    pub dpi_y: Vec<(u8, u8)>,
    pub reset_dpis: bool,
    pub select_dpi: Option<u8>,
    pub polling_rate: Option<PollingRate>,
    pub liftoff_distance: Option<LiftoffDistance>,
    pub debounce_time: Option<DebounceTime>,
    pub left_button: Option<MouseButtonType>,
    pub right_button: Option<MouseButtonType>,
    pub middle_button: Option<MouseButtonType>,
    pub forward_button: Option<MouseButtonType>,
    pub back_button: Option<MouseButtonType>,
    pub dpi_button: Option<MouseButtonType>,
    pub noconf: bool,
    pub nosave: bool,
    pub config: Option<String>,
}

/// Flags that steer the invocation rather than the device configuration.
pub struct ExtraFlags {
    pub save_config: bool,
    pub use_config: bool,
    pub config_location: Option<String>,
}

/// The latest override for index `i` in an indexed-flag list: the last
/// pair `(i, v)` wins, as when the pairs are collected into a map.
pub open spec fn last_override<T>(s: Seq<(u8, T)>, i: u8) -> Option<T>
    decreases s.len(),
{
    if s.len() == 0 {
        None
    } else if s.last().0 == i {
        Some(s.last().1)
    } else {
        last_override(s.drop_last(), i)
    }
}

/// `base` unless an override for index `i` is present.
pub open spec fn merged_value<T>(base: T, overrides: Seq<(u8, T)>, i: u8) -> T {
    match last_override(overrides, i) {
        Some(v) => v,
        None => base,
    }
}

/// An optional override applied over a base value.
pub open spec fn either<T>(over: Option<T>, base: T) -> T {
    match over {
        Some(v) => v,
        None => base,
    }
}

/// An optional raw byte override applied over a range-restricted base.
pub open spec fn either_byte<const MIN: u8, const MAX: u8>(
    over: Option<u8>,
    base: RangedByte<MIN, MAX>,
) -> RangedByte<MIN, MAX> {
    match over {
        Some(v) => RangedByte(v),
        None => base,
    }
}

impl Command {
    /// What the command-line layer guarantees of the flag values: every
    /// speed lies in 1..=3, every brightness in 1..=4, and every DPI slot
    /// index in 0..=5.
    pub open spec fn valid(self) -> bool {
        &&& self.rainbow_speed matches Some(v) ==> 1 <= v <= 3
        &&& self.solid_brightness matches Some(v) ==> 1 <= v <= 4
        &&& self.breathing_brightness matches Some(v) ==> 1 <= v <= 4
        &&& self.breathing_speed matches Some(v) ==> 1 <= v <= 3
        &&& self.tail_brightness matches Some(v) ==> 1 <= v <= 4
        &&& self.tail_speed matches Some(v) ==> 1 <= v <= 3
        &&& self.fade_speed matches Some(v) ==> 1 <= v <= 3
        &&& self.rave_brightness matches Some(v) ==> 1 <= v <= 4
        &&& self.rave_speed matches Some(v) ==> 1 <= v <= 3
        &&& self.wave_brightness matches Some(v) ==> 1 <= v <= 4
        &&& self.wave_speed matches Some(v) ==> 1 <= v <= 3
        &&& self.breathing_single_speed matches Some(v) ==> 1 <= v <= 3
        &&& self.select_dpi matches Some(v) ==> v <= 5
    }

    /// The enable state of DPI slot `i` after the merge: a toggle flag
    /// inverts the base state and wins over an explicit enable, which wins
    /// over an explicit disable or a reset of unlisted slots.
    pub open spec fn merged_dpi_enable(self, config: Config, i: u8) -> bool {
        if self.toggle_dpi@.contains(i) {
            !config.dpi@[i as int].enable
        } else if self.enable_dpi@.contains(i) {
            true
        } else if self.disable_dpi@.contains(i) || self.reset_dpis {
            false
        } else {
            config.dpi@[i as int].enable
        }
    }

    /// The X magnitude of DPI slot `i` after the merge: an axis-specific
    /// override wins over a both-axes override, which wins over the base.
    pub open spec fn merged_dpi_x(self, config: Config, i: u8) -> u8 {
        match last_override(self.dpi_x@, i) {
            Some(v) => v,
            None => merged_value(config.dpi@[i as int].x_dpi, self.dpi@, i),
        }
    }

    /// The Y magnitude of DPI slot `i` after the merge.
    pub open spec fn merged_dpi_y(self, config: Config, i: u8) -> u8 {
        match last_override(self.dpi_y@, i) {
            Some(v) => v,
            None => merged_value(config.dpi@[i as int].y_dpi, self.dpi@, i),
        }
    }

    /// DPI slot `i` after the merge.
    pub open spec fn merged_dpi_slot(self, config: Config, i: u8) -> Dpi {
        Dpi {
            enable: self.merged_dpi_enable(config, i),
            color: merged_value(config.dpi@[i as int].color, self.dpi_color@, i),
            x_dpi: self.merged_dpi_x(config, i),
            y_dpi: self.merged_dpi_y(config, i),
        }
    }

    /// Splits out the flags that do not modify the configuration.
    pub fn flags(&self) -> (r: ExtraFlags)
        ensures
            r.save_config == !self.nosave,
            r.use_config == !self.noconf,
            r.config_location is Some <==> self.config is Some,
            r.config_location matches Some(s) ==> self.config matches Some(c) && s@ == c@,
    {
        ExtraFlags {
            save_config: !self.nosave,
            use_config: !self.noconf,
            config_location: match &self.config {
                Some(s) => Some(s.clone()),
                None => None,
            },
        }
    }

    /// Applies every override in this command over the base configuration
    /// and returns the merged configuration.
    ///
    /// Every field of the result is pinned: a scalar flag replaces the
    /// base value when present, each indexed flag replaces one array
    /// element with the last occurrence of its index winning, and the DPI
    /// enable flags compose as toggle over enable over disable/reset.
    pub fn apply_command_config(self, config: Config) -> (r: Config)
        requires
            self.valid(),
            config.lighting.valid(),
            config.current_dpi.valid(),
        ensures
            r.lighting.mode == either(self.mode, config.lighting.mode),
            r.lighting.solid.brightness == either_byte(
                self.solid_brightness,
                config.lighting.solid.brightness,
            ),
            r.lighting.solid.color == either(self.solid_color, config.lighting.solid.color),
            r.lighting.rainbow.speed == either_byte(
                self.rainbow_speed,
                config.lighting.rainbow.speed,
            ),
            r.lighting.rainbow.direction == either(
                self.rainbow_direction,
                config.lighting.rainbow.direction,
            ),
            r.lighting.breathing.brightness == either_byte(
                self.breathing_brightness,
                config.lighting.breathing.brightness,
            ),
            r.lighting.breathing.speed == either_byte(
                self.breathing_speed,
                config.lighting.breathing.speed,
            ),
            forall|i: int|
                0 <= i < 7 ==> r.lighting.breathing.colors@[i] == merged_value(
                    config.lighting.breathing.colors@[i],
                    self.breathing_color@,
                    i as u8,
                ),
            r.lighting.tail.brightness == either_byte(
                self.tail_brightness,
                config.lighting.tail.brightness,
            ),
            r.lighting.tail.speed == either_byte(self.tail_speed, config.lighting.tail.speed),
            r.lighting.fade.speed == either_byte(self.fade_speed, config.lighting.fade.speed),
            r.lighting.rave.brightness == either_byte(
                self.rave_brightness,
                config.lighting.rave.brightness,
            ),
            r.lighting.rave.speed == either_byte(self.rave_speed, config.lighting.rave.speed),
            forall|i: int|
                0 <= i < 2 ==> r.lighting.rave.colors@[i] == merged_value(
                    config.lighting.rave.colors@[i],
                    self.rave_color@,
                    i as u8,
                ),
            r.lighting.wave.brightness == either_byte(
                self.wave_brightness,
                config.lighting.wave.brightness,
            ),
            r.lighting.wave.speed == either_byte(self.wave_speed, config.lighting.wave.speed),
            r.lighting.breathing_single.speed == either_byte(
                self.breathing_single_speed,
                config.lighting.breathing_single.speed,
            ),
            r.lighting.breathing_single.color == either(
                self.breathing_single_color,
                config.lighting.breathing_single.color,
            ),
            forall|i: int| 0 <= i < 6 ==> r.dpi@[i] == self.merged_dpi_slot(config, i as u8),
            r.current_dpi == either_byte(self.select_dpi, config.current_dpi),
            r.polling_rate == either(self.polling_rate, config.polling_rate),
            r.liftoff_distance == either(self.liftoff_distance, config.liftoff_distance),
            r.debounce_time == either(self.debounce_time, config.debounce_time),
            r.buttons.left == either(self.left_button, config.buttons.left),
            r.buttons.right == either(self.right_button, config.buttons.right),
            r.buttons.middle == either(self.middle_button, config.buttons.middle),
            r.buttons.forward == either(self.forward_button, config.buttons.forward),
            r.buttons.back == either(self.back_button, config.buttons.back),
            r.buttons.dpi == either(self.dpi_button, config.buttons.dpi),
            r.lighting.valid(),
            r.current_dpi.valid(),
    {
        let lighting = Lighting {
            mode: match self.mode {
                Some(m) => m,
                None => config.lighting.mode,
            },
            solid: crate::config::Solid {
                brightness: match self.solid_brightness {
                    Some(b) => RangedByte(b),
                    None => config.lighting.solid.brightness,
                },
                color: match self.solid_color {
                    Some(c) => c,
                    None => config.lighting.solid.color,
                },
            },
            rainbow: crate::config::Rainbow {
                speed: match self.rainbow_speed {
                    Some(s) => RangedByte(s),
                    None => config.lighting.rainbow.speed,
                },
                direction: match self.rainbow_direction {
                    Some(d) => d,
                    None => config.lighting.rainbow.direction,
                },
            },
            breathing: crate::config::Breathing {
                brightness: match self.breathing_brightness {
                    Some(b) => RangedByte(b),
                    None => config.lighting.breathing.brightness,
                },
                speed: match self.breathing_speed {
                    Some(s) => RangedByte(s),
                    None => config.lighting.breathing.speed,
                },
                colors: [
                    find_override(config.lighting.breathing.colors[0], &self.breathing_color, 0),
                    find_override(config.lighting.breathing.colors[1], &self.breathing_color, 1),
                    find_override(config.lighting.breathing.colors[2], &self.breathing_color, 2),
                    find_override(config.lighting.breathing.colors[3], &self.breathing_color, 3),
                    find_override(config.lighting.breathing.colors[4], &self.breathing_color, 4),
                    find_override(config.lighting.breathing.colors[5], &self.breathing_color, 5),
                    find_override(config.lighting.breathing.colors[6], &self.breathing_color, 6),
                ],
            },
            tail: crate::config::Tail {
                brightness: match self.tail_brightness {
                    Some(b) => RangedByte(b),
                    None => config.lighting.tail.brightness,
                },
                speed: match self.tail_speed {
                    Some(s) => RangedByte(s),
                    None => config.lighting.tail.speed,
                },
            },
            fade: crate::config::Fade {
                speed: match self.fade_speed {
                    Some(s) => RangedByte(s),
                    None => config.lighting.fade.speed,
                },
            },
            rave: crate::config::Rave {
                brightness: match self.rave_brightness {
                    Some(b) => RangedByte(b),
                    None => config.lighting.rave.brightness,
                },
                speed: match self.rave_speed {
                    Some(s) => RangedByte(s),
                    None => config.lighting.rave.speed,
                },
                colors: [
                    find_override(config.lighting.rave.colors[0], &self.rave_color, 0),
                    find_override(config.lighting.rave.colors[1], &self.rave_color, 1),
                ],
            },
            wave: crate::config::Wave {
                brightness: match self.wave_brightness {
                    Some(b) => RangedByte(b),
                    None => config.lighting.wave.brightness,
                },
                speed: match self.wave_speed {
                    Some(s) => RangedByte(s),
                    None => config.lighting.wave.speed,
                },
            },
            breathing_single: crate::config::BreathingSingle {
                speed: match self.breathing_single_speed {
                    Some(s) => RangedByte(s),
                    None => config.lighting.breathing_single.speed,
                },
                color: match self.breathing_single_color {
                    Some(c) => c,
                    None => config.lighting.breathing_single.color,
                },
            },
        };
        let dpi = [
            self.merge_dpi_slot(&config, 0),
            self.merge_dpi_slot(&config, 1),
            self.merge_dpi_slot(&config, 2),
            self.merge_dpi_slot(&config, 3),
            self.merge_dpi_slot(&config, 4),
            self.merge_dpi_slot(&config, 5),
        ];
        Config {
            lighting,
            dpi,
            current_dpi: match self.select_dpi {
                Some(s) => RangedByte(s),
                None => config.current_dpi,
            },
            polling_rate: match self.polling_rate {
                Some(p) => p,
                None => config.polling_rate,
            },
            liftoff_distance: match self.liftoff_distance {
                Some(l) => l,
                None => config.liftoff_distance,
            },
            debounce_time: match self.debounce_time {
                Some(d) => d,
                None => config.debounce_time,
            },
            buttons: MouseButtons {
                left: match self.left_button {
                    Some(b) => b,
                    None => config.buttons.left,
                },
                right: match self.right_button {
                    Some(b) => b,
                    None => config.buttons.right,
                },
                middle: match self.middle_button {
                    Some(b) => b,
                    None => config.buttons.middle,
                },
                forward: match self.forward_button {
                    Some(b) => b,
                    None => config.buttons.forward,
                },
                back: match self.back_button {
                    Some(b) => b,
                    None => config.buttons.back,
                },
                dpi: match self.dpi_button {
                    Some(b) => b,
                    None => config.buttons.dpi,
                },
            },
        }
    }

    /// Computes DPI slot `i` after the merge.
    fn merge_dpi_slot(&self, config: &Config, i: u8) -> (r: Dpi)
        requires
            i < 6,
        ensures
            r == self.merged_dpi_slot(*config, i),
    {
        let enable: bool = if vec_contains(&self.toggle_dpi, i) {
            !config.dpi[i as usize].enable
        } else if vec_contains(&self.enable_dpi, i) {
            true
        } else if vec_contains(&self.disable_dpi, i) || self.reset_dpis {
            false
        } else {
            config.dpi[i as usize].enable
        };
        let x_dpi: u8 = match find_last_override(&self.dpi_x, i) {
            Some(v) => v,
            None => find_override(config.dpi[i as usize].x_dpi, &self.dpi, i),
        };
        let y_dpi: u8 = match find_last_override(&self.dpi_y, i) {
            Some(v) => v,
            None => find_override(config.dpi[i as usize].y_dpi, &self.dpi, i),
        };
        Dpi {
            enable,
            color: find_override(config.dpi[i as usize].color, &self.dpi_color, i),
            x_dpi,
            y_dpi,
        }
    }
}

/// Returns whether the list contains `x`.
fn vec_contains(v: &Vec<u8>, x: u8) -> (r: bool)
    ensures
        r == v@.contains(x),
{
    let n = v.len();
    let mut i: usize = 0;
    while i < n
        invariant
            i <= n,
            n == v@.len(),
            forall|j: int| 0 <= j < i ==> v@[j] != x,
        decreases n - i,
    {
        if v[i] == x {
            return true;
        }
        i += 1;
    }
    false
}

/// Finds the latest override for index `i`, scanning from the end.
fn find_last_override<T: Copy>(v: &Vec<(u8, T)>, i: u8) -> (r: Option<T>)
    ensures
        r == last_override(v@, i),
{
    let mut j: usize = v.len();
    proof {
        assert(v@.take(j as int) =~= v@);
    }
    while j > 0
        invariant
            j <= v@.len(),
            last_override(v@, i) == last_override(v@.take(j as int), i),
        decreases j,
    {
        j -= 1;
        let pair = v[j];
        proof {
            assert(v@.take(j + 1).last() == v@[j as int]);
            assert(v@.take(j + 1).drop_last() =~= v@.take(j as int));
        }
        if pair.0 == i {
            return Some(pair.1);
        }
    }
    proof {
        assert(v@.take(0).len() == 0);
    }
    None
}

/// The base value unless an override for index `i` is present.
fn find_override<T: Copy>(base: T, v: &Vec<(u8, T)>, i: u8) -> (r: T)
    ensures
        r == merged_value(base, v@, i),
{
    match find_last_override(v, i) {
        Some(v) => v,
        None => base,
    }
}

// ---------------------------------------------------------------------------
// Flag-value parsing
// ---------------------------------------------------------------------------

/// A value that an indexed command-line flag can carry after the colon.
pub trait ParseArg: Sized {
    /// What the value's byte string denotes, if well formed.
    spec fn parse_spec(s: Seq<u8>) -> Option<Self>;

    /// Parses the value; `Ok` exactly when the byte string is well
    /// formed, returning what it denotes.
    fn parse_arg(s: &[u8]) -> (r: Result<Self, String>)
        ensures
            r matches Ok(v) ==> Self::parse_spec(s@) == Some(v),
            r is Err ==> Self::parse_spec(s@) is None,
    ;
}

impl ParseArg for Color {
    /// A six-hex-digit color.
    open spec fn parse_spec(s: Seq<u8>) -> Option<Color> {
        crate::config::color_from_hex(s)
    }

    fn parse_arg(s: &[u8]) -> (r: Result<Color, String>) {
        Color::try_from_hex_bytes(s)
    }
}

/// Whether `b` is the ASCII code of a decimal digit.
pub open spec fn is_dec_digit(b: u8) -> bool {
    0x30 <= b <= 0x39
}

/// Whether every byte of `s` is a decimal digit.
pub open spec fn all_dec_digits(s: Seq<u8>) -> bool {
    forall|i: int| 0 <= i < s.len() ==> is_dec_digit(#[trigger] s[i])
}

/// The number denoted by the digit string `s`.
pub open spec fn dec_value(s: Seq<u8>) -> int
    recommends
        all_dec_digits(s),
    decreases s.len(),
{
    if s.len() == 0 {
        0
    } else {
        dec_value(s.drop_last()) * 10 + (s.last() - 0x30)
    }
}

/// The byte denoted by the digit string `s`: defined exactly when `s` is
/// non-empty, all digits, and the value fits in a byte.
pub open spec fn dec_u8(s: Seq<u8>) -> Option<u8> {
    if s.len() > 0 && all_dec_digits(s) && dec_value(s) <= 255 {
        Some(dec_value(s) as u8)
    } else {
        None
    }
}

/// Parses a decimal byte from a digit string.
fn parse_dec_u8(bytes: &[u8]) -> (r: Option<u8>)
    ensures
        r == dec_u8(bytes@),
{
    let n = bytes.len();
    if n == 0 {
        return None;
    }
    let mut acc: u32 = 0;
    let mut big: bool = false;
    let mut i: usize = 0;
    while i < n
        invariant
            i <= n,
            n == bytes@.len(),
            all_dec_digits(bytes@.take(i as int)),
            big ==> dec_value(bytes@.take(i as int)) > 255,
            !big ==> acc == dec_value(bytes@.take(i as int)) && acc <= 255,
        decreases n - i,
    {
        let b = bytes[i];
        if b < 0x30 || b > 0x39 {
            proof {
                assert(!is_dec_digit(bytes@[i as int]));
            }
            return None;
        }
        proof {
            assert(bytes@.take(i + 1).last() == bytes@[i as int]);
            assert(bytes@.take(i + 1).drop_last() =~= bytes@.take(i as int));
        }
        if big {
        } else {
            let next = acc * 10 + ((b - 0x30) as u32);
            if next > 255 {
                big = true;
            } else {
                acc = next;
            }
        }
        i += 1;
    }
    proof {
        assert(bytes@.take(n as int) =~= bytes@);
    }
    if big {
        None
    } else {
        Some(acc as u8)
    }
}

/// A DPI magnitude given on the command line: the raw DPI with its two
/// trailing zeros stripped, so it fits a byte (DPI/100).
#[derive(Clone, Copy, Debug, PartialEq, Eq, Structural)]
pub struct DpiWrapper(pub u8);

impl ParseArg for DpiWrapper {
    /// A decimal number ending in `00`, divided by 100; rejected when the
    /// quotient does not fit a byte.
    open spec fn parse_spec(s: Seq<u8>) -> Option<DpiWrapper> {
        if s.len() >= 2 && s[s.len() - 1] == 0x30 && s[s.len() - 2] == 0x30 {
            match dec_u8(s.take(s.len() - 2)) {
                Some(v) => Some(DpiWrapper(v)),
                None => None,
            }
        } else {
            None
        }
    }

    fn parse_arg(s: &[u8]) -> (r: Result<DpiWrapper, String>) {
        let n = s.len();
        if n < 2 || s[n - 1] != 0x30 || s[n - 2] != 0x30 {
            return Err("dpi did not end in \"00\"".to_owned());
        }
        proof {
            assert((s@.subrange(0, n - 2)) =~= s@.take(n - 2));
        }
        match parse_dec_u8(&s[0..n - 2]) {
            Some(v) => Ok(DpiWrapper(v)),
            None => Err("dpi was not between 100 and 25500".to_owned()),
        }
    }
}

/// Whether position `k` holds the only colon in `s`.
pub open spec fn single_colon_at(s: Seq<u8>, k: int) -> bool {
    &&& 0 <= k < s.len()
    &&& s[k] == 0x3a
    &&& forall|j: int| 0 <= j < s.len() && j != k ==> s[j] != 0x3a
}

/// What a `<index>:<value>` flag denotes: defined exactly when the string
/// holds a single colon, the index part is a decimal byte in
/// `min..=max`, and the value part is well formed for `T`.
pub open spec fn idx_split_spec<T: ParseArg>(s: Seq<u8>, min: u8, max: u8) -> Option<(u8, T)> {
    if exists|k: int| single_colon_at(s, k) {
        let k = choose|k: int| single_colon_at(s, k);
        match dec_u8(s.take(k)) {
            Some(idx) => if min <= idx && idx <= max {
                match T::parse_spec(s.skip(k + 1)) {
                    Some(v) => Some((idx, v)),
                    None => None,
                }
            } else {
                None
            },
            None => None,
        }
    } else {
        None
    }
}

/// Two positions cannot both hold the only colon.
proof fn lemma_single_colon_unique(s: Seq<u8>, k1: int, k2: int)
    requires
        single_colon_at(s, k1),
        single_colon_at(s, k2),
    ensures
        k1 == k2,
{
}

/// Parses a `<index>:<value>` flag: a decimal slot index in
/// `MIN_IDX..=MAX_IDX`, a colon, and a `T` value.
pub fn idx_split_parse<T: ParseArg, const MIN_IDX: u8, const MAX_IDX: u8>(s: &str) -> (r: Result<
    (u8, T),
    String,
>)
    ensures
        r matches Ok(p) ==> idx_split_spec::<T>(s.spec_bytes(), MIN_IDX, MAX_IDX) == Some(p),
        r is Err ==> idx_split_spec::<T>(s.spec_bytes(), MIN_IDX, MAX_IDX) is None,
{
    let bytes = s.as_bytes();
    let n = bytes.len();
    let mut colon: usize = 0;
    let mut colon2: usize = 0;
    let mut count: usize = 0;
    let mut i: usize = 0;
    while i < n
        invariant
            i <= n,
            n == bytes@.len(),
            count <= i,
            count == 0 ==> forall|j: int| 0 <= j < i ==> bytes@[j] != 0x3a,
            count == 1 ==> colon < i && bytes@[colon as int] == 0x3a && forall|j: int|
                0 <= j < i && j != colon ==> bytes@[j] != 0x3a,
            count >= 2 ==> colon < colon2 < i && bytes@[colon as int] == 0x3a
                && bytes@[colon2 as int] == 0x3a,
        decreases n - i,
    {
        if bytes[i] == 0x3a {
            if count == 0 {
                colon = i;
            } else if count == 1 {
                colon2 = i;
            }
            count += 1;
        }
        i += 1;
    }
    if count != 1 {
        proof {
            if count == 0 {
                assert forall|k: int| !single_colon_at(s.spec_bytes(), k) by {
                    if 0 <= k < n {
                        assert(bytes@[k] != 0x3a);
                    }
                }
            } else {
                assert forall|k: int| !single_colon_at(s.spec_bytes(), k) by {
                    if single_colon_at(s.spec_bytes(), k) {
                        if k != colon {
                            assert(bytes@[colon as int] != 0x3a);
                        } else {
                            assert(bytes@[colon2 as int] != 0x3a);
                        }
                    }
                }
            }
        }
        return Err("must be in the form \"<index>:<value>\"".to_owned());
    }
    proof {
        assert(single_colon_at(s.spec_bytes(), colon as int));
        let k = choose|k: int| single_colon_at(s.spec_bytes(), k);
        lemma_single_colon_unique(s.spec_bytes(), k, colon as int);
        assert((s.spec_bytes().subrange(0, colon as int)) =~= s.spec_bytes().take(colon as int));
        assert((s.spec_bytes().subrange(colon + 1, n as int)) =~= s.spec_bytes().skip(colon + 1));
    }
    let idx = match parse_dec_u8(&bytes[0..colon]) {
        Some(v) => v,
        None => {
            return Err("<idx> was not a number".to_owned());
        },
    };
    if idx < MIN_IDX || idx > MAX_IDX {
        return Err("<idx> was out of range".to_owned());
    }
    match T::parse_arg(&bytes[colon + 1..n]) {
        Ok(v) => Ok((idx, v)),
        Err(e) => Err(e),
    }
}

/// Parses a `<index>:<dpi>` flag and unwraps the DPI magnitude to its raw
/// byte.
pub fn idx_split_parse_cast<const MIN_IDX: u8, const MAX_IDX: u8>(s: &str) -> (r: Result<
    (u8, u8),
    String,
>)
    ensures
        r matches Ok(p) ==> idx_split_spec::<DpiWrapper>(s.spec_bytes(), MIN_IDX, MAX_IDX) == Some(
            (p.0, DpiWrapper(p.1)),
        ),
        r is Err ==> idx_split_spec::<DpiWrapper>(s.spec_bytes(), MIN_IDX, MAX_IDX) is None,
{
    match idx_split_parse::<DpiWrapper, MIN_IDX, MAX_IDX>(s) {
        Ok((idx, wrapper)) => Ok((idx, wrapper.0)),
        Err(e) => Err(e),
    }
}

/// Parses a color from a six-digit hexadecimal string.
pub fn color_parser(s: &str) -> (r: Result<Color, String>)
    ensures
        r matches Ok(c) ==> crate::config::color_from_hex(s.spec_bytes()) == Some(c),
        r is Err ==> crate::config::color_from_hex(s.spec_bytes()) is None,
{
    Color::try_from_hex(s)
}

} // verus!
