//! The settings data model: colors, range-restricted bytes, the lighting
//! effect parameter blocks, DPI slots, and the whole-device [`Config`]
//! snapshot that the packet encoders consume.
//!
//! Every enumerated setting carries a fixed numeric wire code; the mapping is
//! total and injective (see the `lemma_*_wire_injective` lemmas).

use vstd::prelude::*;
use vstd::string::StringSliceAdditionalSpecFns;

verus! {

/// An error carrying a human-readable description of a malformed value.
#[derive(Debug)]
pub struct FormatError(pub String);

impl FormatError {
    /// The error's description.
    pub fn message(&self) -> (r: &String)
        ensures
            r@ == self.0@,
    {
        &self.0
    }
}

/// An RGB color; each channel is a full 8-bit value.
#[derive(Clone, Copy, Debug, PartialEq, Eq, Structural)]
pub struct Color {
    pub r: u8,
    pub g: u8,
    pub b: u8,
}

/// Whether `b` is the ASCII code of a hexadecimal digit.
pub open spec fn is_hex_digit(b: u8) -> bool {
    (0x30 <= b <= 0x39) || (0x41 <= b <= 0x46) || (0x61 <= b <= 0x66)
}

/// The numeric value of the hexadecimal digit with ASCII code `b`.
pub open spec fn hex_digit_value(b: u8) -> u8
    recommends
        is_hex_digit(b),
{
    if 0x30 <= b <= 0x39 {
        (b - 0x30) as u8
    } else if 0x41 <= b <= 0x46 {
        (b - 0x41 + 10) as u8
    } else {
        (b - 0x61 + 10) as u8
    }
}

/// The byte denoted by the two hexadecimal digits `hi`, `lo`.
pub open spec fn hex_pair_value(hi: u8, lo: u8) -> u8
    recommends
        is_hex_digit(hi),
        is_hex_digit(lo),
{
    (hex_digit_value(hi) * 16 + hex_digit_value(lo)) as u8
}

/// The color denoted by a six-hex-digit byte string `rrggbb`, if well formed.
pub open spec fn color_from_hex(s: Seq<u8>) -> Option<Color> {
    if s.len() == 6 && (forall|i: int| 0 <= i < 6 ==> is_hex_digit(#[trigger] s[i])) {
        Some(
            Color {
                r: hex_pair_value(s[0], s[1]),
                g: hex_pair_value(s[2], s[3]),
                b: hex_pair_value(s[4], s[5]),
            },
        )
    } else {
        None
    }
}

/// The numeric value of the hexadecimal digit byte `b`, or `None` if `b` is
/// not a hexadecimal digit.
fn hex_digit(b: u8) -> (r: Option<u8>)
    ensures
        r is Some <==> is_hex_digit(b),
        r matches Some(v) ==> v == hex_digit_value(b) && v < 16,
{
    if 0x30 <= b && b <= 0x39 {
        Some(b - 0x30)
    } else if 0x41 <= b && b <= 0x46 {
        Some(b - 0x41 + 10)
    } else if 0x61 <= b && b <= 0x66 {
        Some(b - 0x61 + 10)
    } else {
        None
    }
}

impl Color {
    /// Parses a color from a six-digit hexadecimal string such as `ff00a0`.
    ///
    /// Returns `Ok` exactly when the string consists of six hexadecimal
    /// digit characters.
    pub fn try_from_hex(value: &str) -> (r: Result<Color, String>)
        ensures
            r matches Ok(c) ==> color_from_hex(value.spec_bytes()) == Some(c),
            r is Err ==> color_from_hex(value.spec_bytes()) is None,
    {
        Color::try_from_hex_bytes(value.as_bytes())
    }

    /// Parses a color from the bytes of a six-digit hexadecimal string.
    pub fn try_from_hex_bytes(bytes: &[u8]) -> (r: Result<Color, String>)
        ensures
            r matches Ok(c) ==> color_from_hex(bytes@) == Some(c),
            r is Err ==> color_from_hex(bytes@) is None,
    {
        if bytes.len() != 6 {
            return Err("could not parse value as hex color".to_owned());
        }
        let d0 = hex_digit(bytes[0]);
        let d1 = hex_digit(bytes[1]);
        let d2 = hex_digit(bytes[2]);
        let d3 = hex_digit(bytes[3]);
        let d4 = hex_digit(bytes[4]);
        let d5 = hex_digit(bytes[5]);
        match (d0, d1, d2, d3, d4, d5) {
            (Some(h0), Some(h1), Some(h2), Some(h3), Some(h4), Some(h5)) => {
                proof {
                    let s = bytes@;
                    assert forall|i: int| 0 <= i < 6 implies is_hex_digit(#[trigger] s[i]) by {
                        if i == 0 {
                        } else if i == 1 {
                        } else if i == 2 {
                        } else if i == 3 {
                        } else if i == 4 {
                        } else {
                        }
                    }
                }
                Ok(Color { r: h0 * 16 + h1, g: h2 * 16 + h3, b: h4 * 16 + h5 })
            },
            _ => Err("could not parse value as hex color".to_owned()),
        }
    }
}

/// An unsigned byte restricted to the inclusive range `MIN..=MAX`.
///
/// The restriction is an invariant of the configuration layer: every value
/// this library constructs satisfies [`RangedByte::valid`], and the packet
/// encoders require it.
#[derive(Clone, Copy, Debug)]
pub struct RangedByte<const MIN: u8, const MAX: u8>(pub u8);

impl<const MIN: u8, const MAX: u8> RangedByte<MIN, MAX> {
    /// The range invariant: the wrapped value lies in `MIN..=MAX`.
    pub open spec fn valid(self) -> bool {
        MIN <= self.0 <= MAX
    }

    /// Wraps `value` after checking the range.
    pub fn try_new(value: u8) -> (r: Result<Self, FormatError>)
        ensures
            r is Ok <==> MIN <= value <= MAX,
            r matches Ok(b) ==> b.0 == value && b.valid(),
    {
        if MIN <= value && value <= MAX {
            Ok(RangedByte(value))
        } else {
            Err(FormatError("value was not in range".to_owned()))
        }
    }

    /// The wrapped value.
    pub fn get(&self) -> (r: u8)
        ensures
            r == self.0,
    {
        self.0
    }
}

/// The LED lighting mode of the mouse.
#[derive(Clone, Copy, Debug, PartialEq, Eq, Structural)]
pub enum Mode {
    Off,
    Rainbow,
    Solid,
    Breathing,
    Tail,
    Fade,
    WaveSolid,
    Rave,
    Random,
    Wave,
    BreathingSingle,
}

impl Mode {
    /// The fixed wire byte of each lighting mode.
    pub open spec fn wire(self) -> u8 {
        match self {
            Mode::Off => 0x00,
            Mode::Rainbow => 0x01,
            Mode::Solid => 0x02,
            Mode::Breathing => 0x03,
            Mode::Tail => 0x04,
            Mode::Fade => 0x05,
            Mode::WaveSolid => 0x06,
            Mode::Rave => 0x07,
            Mode::Random => 0x08,
            Mode::Wave => 0x09,
            Mode::BreathingSingle => 0x0a,
        }
    }

    /// Returns the mode's wire byte.
    pub fn wire_code(self) -> (r: u8)
        ensures
            r == self.wire(),
    {
        match self {
            Mode::Off => 0x00,
            Mode::Rainbow => 0x01,
            Mode::Solid => 0x02,
            Mode::Breathing => 0x03,
            Mode::Tail => 0x04,
            Mode::Fade => 0x05,
            Mode::WaveSolid => 0x06,
            Mode::Rave => 0x07,
            Mode::Random => 0x08,
            Mode::Wave => 0x09,
            Mode::BreathingSingle => 0x0a,
        }
    }
}

/// The wire mapping of lighting modes is injective.
pub proof fn lemma_mode_wire_injective(a: Mode, b: Mode)
    ensures
        a.wire() == b.wire() ==> a == b,
{
}

/// Animation direction in `Rainbow` mode.
#[derive(Clone, Copy, Debug, PartialEq, Eq, Structural)]
pub enum RainbowDirection {
    Backward,
    Forward,
}

impl RainbowDirection {
    /// The fixed wire byte of each direction.
    pub open spec fn wire(self) -> u8 {
        match self {
            RainbowDirection::Backward => 0x00,
            RainbowDirection::Forward => 0x01,
        }
    }

    /// Returns the direction's wire byte.
    pub fn wire_code(self) -> (r: u8)
        ensures
            r == self.wire(),
    {
        match self {
            RainbowDirection::Backward => 0x00,
            RainbowDirection::Forward => 0x01,
        }
    }
}

/// The wire mapping of rainbow directions is injective.
pub proof fn lemma_rainbow_direction_wire_injective(a: RainbowDirection, b: RainbowDirection)
    ensures
        a.wire() == b.wire() ==> a == b,
{
}

/// Parameters of the `Rainbow` lighting effect.
#[derive(Clone, Copy, Debug)]
pub struct Rainbow {
    pub speed: RangedByte<1, 3>,
    pub direction: RainbowDirection,
}

impl Rainbow {
    /// All range-restricted fields are in range.
    pub open spec fn valid(self) -> bool {
        self.speed.valid()
    }
}

impl Default for Rainbow {
    /// Medium speed, backward direction.
    fn default() -> (r: Self)
        ensures
            r == (Rainbow { speed: RangedByte(2), direction: RainbowDirection::Backward }),
            r.valid(),
    {
        Rainbow { speed: RangedByte(2), direction: RainbowDirection::Backward }
    }
}

/// Parameters of the `Solid` lighting effect.
#[derive(Clone, Copy, Debug)]
pub struct Solid {
    pub brightness: RangedByte<1, 4>,
    pub color: Color,
}

impl Solid {
    /// All range-restricted fields are in range.
    pub open spec fn valid(self) -> bool {
        self.brightness.valid()
    }
}

impl Default for Solid {
    /// Full brightness, white.
    fn default() -> (r: Self)
        ensures
            r == (Solid { brightness: RangedByte(4), color: Color { r: 0xff, g: 0xff, b: 0xff } }),
            r.valid(),
    {
        Solid { brightness: RangedByte(4), color: Color { r: 0xff, g: 0xff, b: 0xff } }
    }
}

/// Parameters of the `Breathing` lighting effect, which cycles through
/// seven colors.
#[derive(Clone, Copy, Debug)]
pub struct Breathing {
    pub brightness: RangedByte<1, 4>,
    pub speed: RangedByte<1, 3>,
    pub colors: [Color; 7],
}

impl Breathing {
    /// All range-restricted fields are in range.
    pub open spec fn valid(self) -> bool {
        self.brightness.valid() && self.speed.valid()
    }
}

impl Default for Breathing {
    /// Full brightness, medium speed, all colors white.
    fn default() -> (r: Self)
        ensures
            r.brightness == RangedByte::<1, 4>(4),
            r.speed == RangedByte::<1, 3>(2),
            forall|i: int|
                0 <= i < 7 ==> r.colors@[i] == (Color { r: 0xff, g: 0xff, b: 0xff }),
            r.valid(),
    {
        let white = Color { r: 0xff, g: 0xff, b: 0xff };
        let r = Breathing {
            brightness: RangedByte(4),
            speed: RangedByte(2),
            colors: [white, white, white, white, white, white, white],
        };
        assert(forall|i: int| 0 <= i < 7 ==> r.colors@[i] == white);
        r
    }
}

/// Parameters of the `Tail` lighting effect.
#[derive(Clone, Copy, Debug)]
pub struct Tail {
    pub brightness: RangedByte<1, 4>,
    pub speed: RangedByte<1, 3>,
}

impl Tail {
    /// All range-restricted fields are in range.
    pub open spec fn valid(self) -> bool {
        self.brightness.valid() && self.speed.valid()
    }
}

impl Default for Tail {
    /// Full brightness, medium speed.
    fn default() -> (r: Self)
        ensures
            r == (Tail { brightness: RangedByte(4), speed: RangedByte(2) }),
            r.valid(),
    {
        Tail { brightness: RangedByte(4), speed: RangedByte(2) }
    }
}

/// Parameters of the `Fade` lighting effect.
#[derive(Clone, Copy, Debug)]
pub struct Fade {
    pub speed: RangedByte<1, 3>,
}

impl Fade {
    /// All range-restricted fields are in range.
    pub open spec fn valid(self) -> bool {
        self.speed.valid()
    }
}

impl Default for Fade {
    /// Medium speed.
    fn default() -> (r: Self)
        ensures
            r == (Fade { speed: RangedByte(2) }),
            r.valid(),
    {
        Fade { speed: RangedByte(2) }
    }
}

/// Parameters of the `Rave` lighting effect, which alternates two colors.
#[derive(Clone, Copy, Debug)]
pub struct Rave {
    pub brightness: RangedByte<1, 4>,
    pub speed: RangedByte<1, 3>,
    pub colors: [Color; 2],
}

impl Rave {
    /// All range-restricted fields are in range.
    pub open spec fn valid(self) -> bool {
        self.brightness.valid() && self.speed.valid()
    }
}

impl Default for Rave {
    /// Full brightness, medium speed, red and blue.
    fn default() -> (r: Self)
        ensures
            r.brightness == RangedByte::<1, 4>(4),
            r.speed == RangedByte::<1, 3>(2),
            r.colors@[0] == (Color { r: 0xff, g: 0x00, b: 0x00 }),
            r.colors@[1] == (Color { r: 0x00, g: 0x00, b: 0xff }),
            r.valid(),
    {
        Rave {
            brightness: RangedByte(4),
            speed: RangedByte(2),
            colors: [Color { r: 0xff, g: 0x00, b: 0x00 }, Color { r: 0x00, g: 0x00, b: 0xff }],
        }
    }
}

/// Parameters of the `Wave` lighting effect.
#[derive(Clone, Copy, Debug)]
pub struct Wave {
    pub brightness: RangedByte<1, 4>,
    pub speed: RangedByte<1, 3>,
}

impl Wave {
    /// All range-restricted fields are in range.
    pub open spec fn valid(self) -> bool {
        self.brightness.valid() && self.speed.valid()
    }
}

impl Default for Wave {
    /// Full brightness, medium speed.
    fn default() -> (r: Self)
        ensures
            r == (Wave { brightness: RangedByte(4), speed: RangedByte(2) }),
            r.valid(),
    {
        Wave { brightness: RangedByte(4), speed: RangedByte(2) }
    }
}

/// Parameters of the single-color `Breathing` lighting effect.
#[derive(Clone, Copy, Debug)]
pub struct BreathingSingle {
    pub speed: RangedByte<1, 3>,
    pub color: Color,
}

impl BreathingSingle {
    /// All range-restricted fields are in range.
    pub open spec fn valid(self) -> bool {
        self.speed.valid()
    }
}

impl Default for BreathingSingle {
    /// Medium speed, white.
    fn default() -> (r: Self)
        ensures
            r == (BreathingSingle { speed: RangedByte(2), color: Color { r: 0xff, g: 0xff, b: 0xff } }),
            r.valid(),
    {
        BreathingSingle { speed: RangedByte(2), color: Color { r: 0xff, g: 0xff, b: 0xff } }
    }
}

/// The complete lighting state: the active mode plus one parameter block per
/// effect.  Every block is always transmitted to the device; only the block
/// matching the active mode is semantically meaningful to the firmware.
#[derive(Clone, Copy, Debug)]
pub struct Lighting {
    pub mode: Mode,
    pub solid: Solid,
    pub rainbow: Rainbow,
    pub breathing: Breathing,
    pub tail: Tail,
    pub fade: Fade,
    pub rave: Rave,
    pub wave: Wave,
    pub breathing_single: BreathingSingle,
}

impl Lighting {
    /// Every parameter block's range-restricted fields are in range.
    pub open spec fn valid(self) -> bool {
        &&& self.solid.valid()
        &&& self.rainbow.valid()
        &&& self.breathing.valid()
        &&& self.tail.valid()
        &&& self.fade.valid()
        &&& self.rave.valid()
        &&& self.wave.valid()
        &&& self.breathing_single.valid()
    }

    /// Whether this is the factory lighting state: mode off, every effect
    /// block at its default parameters.
    pub open spec fn is_default(self) -> bool {
        &&& self.mode == Mode::Off
        &&& self.solid == (Solid {
            brightness: RangedByte::<1, 4>(4),
            color: Color { r: 0xff, g: 0xff, b: 0xff },
        })
        &&& self.rainbow == (Rainbow {
            speed: RangedByte::<1, 3>(2),
            direction: RainbowDirection::Backward,
        })
        &&& self.breathing.brightness == RangedByte::<1, 4>(4)
        &&& self.breathing.speed == RangedByte::<1, 3>(2)
        &&& forall|i: int|
            0 <= i < 7 ==> self.breathing.colors@[i] == (Color { r: 0xff, g: 0xff, b: 0xff })
        &&& self.tail == (Tail { brightness: RangedByte::<1, 4>(4), speed: RangedByte::<1, 3>(2) })
        &&& self.fade == (Fade { speed: RangedByte::<1, 3>(2) })
        &&& self.rave.brightness == RangedByte::<1, 4>(4)
        &&& self.rave.speed == RangedByte::<1, 3>(2)
        &&& self.rave.colors@[0] == (Color { r: 0xff, g: 0x00, b: 0x00 })
        &&& self.rave.colors@[1] == (Color { r: 0x00, g: 0x00, b: 0xff })
        &&& self.wave == (Wave { brightness: RangedByte::<1, 4>(4), speed: RangedByte::<1, 3>(2) })
        &&& self.breathing_single == (BreathingSingle {
            speed: RangedByte::<1, 3>(2),
            color: Color { r: 0xff, g: 0xff, b: 0xff },
        })
    }
}

impl Default for Lighting {
    /// Lighting off; every parameter block at its default.
    fn default() -> (r: Self)
        ensures
            r.is_default(),
            r.valid(),
    {
        Lighting {
            mode: Mode::Off,
            solid: Solid::default(),
            rainbow: Rainbow::default(),
            breathing: Breathing::default(),
            tail: Tail::default(),
            fade: Fade::default(),
            rave: Rave::default(),
            wave: Wave::default(),
            breathing_single: BreathingSingle::default(),
        }
    }
}

/// One DPI slot: whether it participates in DPI cycling, its indicator
/// color, and its X and Y magnitudes (each in units of 100 DPI).
#[derive(Clone, Copy, Debug, PartialEq, Eq, Structural)]
pub struct Dpi {
    pub enable: bool,
    pub color: Color,
    pub x_dpi: u8,
    pub y_dpi: u8,
}

/// The USB polling rate.
#[derive(Clone, Copy, Debug, PartialEq, Eq, Structural)]
pub enum PollingRate {
    Hz125,
    Hz250,
    Hz500,
    Hz1000,
}

impl PollingRate {
    /// The fixed wire byte of each polling rate.
    pub open spec fn wire(self) -> u8 {
        match self {
            PollingRate::Hz125 => 0x01,
            PollingRate::Hz250 => 0x02,
            PollingRate::Hz500 => 0x03,
            PollingRate::Hz1000 => 0x04,
        }
    }

    /// Returns the polling rate's wire byte.
    pub fn wire_code(self) -> (r: u8)
        ensures
            r == self.wire(),
    {
        match self {
            PollingRate::Hz125 => 0x01,
            PollingRate::Hz250 => 0x02,
            PollingRate::Hz500 => 0x03,
            PollingRate::Hz1000 => 0x04,
        }
    }
}

/// The wire mapping of polling rates is injective.
pub proof fn lemma_polling_rate_wire_injective(a: PollingRate, b: PollingRate)
    ensures
        a.wire() == b.wire() ==> a == b,
{
}

/// The liftoff distance, in millimeters.
#[derive(Clone, Copy, Debug, PartialEq, Eq, Structural)]
pub enum LiftoffDistance {
    Mm2,
    Mm3,
}

impl LiftoffDistance {
    /// The fixed wire byte of each liftoff distance.
    pub open spec fn wire(self) -> u8 {
        match self {
            LiftoffDistance::Mm2 => 0x01,
            LiftoffDistance::Mm3 => 0x02,
        }
    }

    /// Returns the liftoff distance's wire byte.
    pub fn wire_code(self) -> (r: u8)
        ensures
            r == self.wire(),
    {
        match self {
            LiftoffDistance::Mm2 => 0x01,
            LiftoffDistance::Mm3 => 0x02,
        }
    }
}

/// The wire mapping of liftoff distances is injective.
pub proof fn lemma_liftoff_wire_injective(a: LiftoffDistance, b: LiftoffDistance)
    ensures
        a.wire() == b.wire() ==> a == b,
{
}

/// An action that a physical mouse button can be bound to.
#[derive(Clone, Copy, Debug, PartialEq, Eq, Structural)]
pub enum MouseButtonType {
    Disable,
    LeftClick,
    RightClick,
    MiddleClick,
    Back,
    Forward,
    ScrollUp,
    ScrollDown,
    DpiLoop,
    DpiPlus,
    DpiMinus,
}

impl MouseButtonType {
    /// The fixed 32-bit wire code of each action; the low 16 bits are
    /// always zero.
    pub open spec fn wire(self) -> u32 {
        match self {
            MouseButtonType::Disable => 0x50010000,
            MouseButtonType::LeftClick => 0x11010000,
            MouseButtonType::RightClick => 0x11020000,
            MouseButtonType::MiddleClick => 0x11040000,
            MouseButtonType::Back => 0x11080000,
            MouseButtonType::Forward => 0x11100000,
            MouseButtonType::ScrollUp => 0x12010000,
            MouseButtonType::ScrollDown => 0x12ff0000,
            MouseButtonType::DpiLoop => 0x41000000,
            MouseButtonType::DpiPlus => 0x41010000,
            MouseButtonType::DpiMinus => 0x41020000,
        }
    }

    /// Returns the action's 32-bit wire code.
    pub fn wire_code(self) -> (r: u32)
        ensures
            r == self.wire(),
    {
        match self {
            MouseButtonType::Disable => 0x50010000,
            MouseButtonType::LeftClick => 0x11010000,
            MouseButtonType::RightClick => 0x11020000,
            MouseButtonType::MiddleClick => 0x11040000,
            MouseButtonType::Back => 0x11080000,
            MouseButtonType::Forward => 0x11100000,
            MouseButtonType::ScrollUp => 0x12010000,
            MouseButtonType::ScrollDown => 0x12ff0000,
            MouseButtonType::DpiLoop => 0x41000000,
            MouseButtonType::DpiPlus => 0x41010000,
            MouseButtonType::DpiMinus => 0x41020000,
        }
    }
}

/// The wire mapping of button actions is injective.
pub proof fn lemma_button_wire_injective(a: MouseButtonType, b: MouseButtonType)
    ensures
        a.wire() == b.wire() ==> a == b,
{
}

/// The bindings of the six physical buttons.
#[derive(Clone, Copy, Debug, PartialEq, Eq, Structural)]
pub struct MouseButtons {
    pub left: MouseButtonType,
    pub right: MouseButtonType,
    pub middle: MouseButtonType,
    pub forward: MouseButtonType,
    pub back: MouseButtonType,
    pub dpi: MouseButtonType,
}

impl MouseButtons {
    /// The conventional binding of every button.
    pub open spec fn default_bindings() -> Self {
        MouseButtons {
            left: MouseButtonType::LeftClick,
            right: MouseButtonType::RightClick,
            middle: MouseButtonType::MiddleClick,
            forward: MouseButtonType::Forward,
            back: MouseButtonType::Back,
            dpi: MouseButtonType::DpiLoop,
        }
    }
}

impl Default for MouseButtons {
    /// Every button bound to its conventional action.
    fn default() -> (r: Self)
        ensures
            r == (MouseButtons {
                left: MouseButtonType::LeftClick,
                right: MouseButtonType::RightClick,
                middle: MouseButtonType::MiddleClick,
                forward: MouseButtonType::Forward,
                back: MouseButtonType::Back,
                dpi: MouseButtonType::DpiLoop,
            }),
    {
        MouseButtons {
            left: MouseButtonType::LeftClick,
            right: MouseButtonType::RightClick,
            middle: MouseButtonType::MiddleClick,
            forward: MouseButtonType::Forward,
            back: MouseButtonType::Back,
            dpi: MouseButtonType::DpiLoop,
        }
    }
}

/// The button debounce time.
#[derive(Clone, Copy, Debug, PartialEq, Eq, Structural)]
pub enum DebounceTime {
    Ms4,
    Ms6,
    Ms8,
    Ms10,
    Ms12,
    Ms14,
    Ms16,
}

impl DebounceTime {
    /// The fixed wire byte of each debounce time.
    pub open spec fn wire(self) -> u8 {
        match self {
            DebounceTime::Ms4 => 0x02,
            DebounceTime::Ms6 => 0x03,
            DebounceTime::Ms8 => 0x04,
            DebounceTime::Ms10 => 0x05,
            DebounceTime::Ms12 => 0x06,
            DebounceTime::Ms14 => 0x07,
            DebounceTime::Ms16 => 0x08,
        }
    }

    /// Returns the debounce time's wire byte.
    pub fn wire_code(self) -> (r: u8)
        ensures
            r == self.wire(),
    {
        match self {
            DebounceTime::Ms4 => 0x02,
            DebounceTime::Ms6 => 0x03,
            DebounceTime::Ms8 => 0x04,
            DebounceTime::Ms10 => 0x05,
            DebounceTime::Ms12 => 0x06,
            DebounceTime::Ms14 => 0x07,
            DebounceTime::Ms16 => 0x08,
        }
    }
}

/// The wire mapping of debounce times is injective.
pub proof fn lemma_debounce_wire_injective(a: DebounceTime, b: DebounceTime)
    ensures
        a.wire() == b.wire() ==> a == b,
{
}

/// A complete snapshot of the device's settings.
#[derive(Clone, Copy, Debug)]
pub struct Config {
    pub lighting: Lighting,
    pub dpi: [Dpi; 6],
    pub current_dpi: RangedByte<0, 5>,
    pub polling_rate: PollingRate,
    pub liftoff_distance: LiftoffDistance,
    pub debounce_time: DebounceTime,
    pub buttons: MouseButtons,
}

impl Config {
    /// Whether at least one DPI slot is enabled.
    pub open spec fn any_dpi_enabled(self) -> bool {
        exists|i: int| 0 <= i < 6 && (#[trigger] self.dpi@[i]).enable
    }

    /// Whether the currently selected DPI slot is enabled.
    pub open spec fn selected_dpi_enabled(self) -> bool {
        self.dpi@[self.current_dpi.0 as int].enable
    }

    /// The configuration invariant the packet encoders rely on: every
    /// range-restricted field is in range and the selected DPI slot refers
    /// to an enabled slot.
    pub open spec fn valid(self) -> bool {
        &&& self.lighting.valid()
        &&& self.current_dpi.valid()
        &&& self.selected_dpi_enabled()
    }

    /// Returns whether at least one DPI slot is enabled.
    pub fn has_enabled_dpi(&self) -> (r: bool)
        ensures
            r == self.any_dpi_enabled(),
    {
        let mut i: usize = 0;
        while i < 6
            invariant
                i <= 6,
                forall|j: int| 0 <= j < i ==> !(#[trigger] self.dpi@[j]).enable,
            decreases 6 - i,
        {
            if self.dpi[i].enable {
                return true;
            }
            i += 1;
        }
        false
    }

    /// If the selected DPI slot is not enabled, re-selects the first
    /// enabled slot.  Returns whether a re-selection happened.
    ///
    /// The caller must have checked that some slot is enabled; afterwards
    /// the selected slot is always enabled.
    pub fn reselect_disabled_dpi(&mut self) -> (changed: bool)
        requires
            old(self).any_dpi_enabled(),
            old(self).current_dpi.valid(),
        ensures
            final(self).selected_dpi_enabled(),
            final(self).current_dpi.valid(),
            final(self).lighting == old(self).lighting,
            final(self).dpi == old(self).dpi,
            final(self).polling_rate == old(self).polling_rate,
            final(self).liftoff_distance == old(self).liftoff_distance,
            final(self).debounce_time == old(self).debounce_time,
            final(self).buttons == old(self).buttons,
            !changed ==> *final(self) == *old(self),
            changed ==> !old(self).selected_dpi_enabled(),
            changed ==> forall|j: int|
                0 <= j < final(self).current_dpi.0 ==> !(#[trigger] old(self).dpi@[j]).enable,
    {
        if self.dpi[self.current_dpi.0 as usize].enable {
            return false;
        }
        let mut i: usize = 0;
        while i < 6
            invariant
                i <= 6,
                old(self).any_dpi_enabled(),
                !old(self).selected_dpi_enabled(),
                *self == *old(self),
                forall|j: int| 0 <= j < i ==> !(#[trigger] self.dpi@[j]).enable,
            decreases 6 - i,
        {
            if self.dpi[i].enable {
                self.current_dpi = RangedByte(i as u8);
                return true;
            }
            i += 1;
        }
        // unreachable: some slot is enabled
        assert(false);
        false
    }
}

impl Default for Config {
    /// The factory configuration: lighting off, slots 0-2 enabled with
    /// equal X/Y magnitudes, slot 0 selected, 1000 Hz polling, 2 mm
    /// liftoff, 10 ms debounce, conventional buttons.
    fn default() -> (r: Self)
        ensures
            r.lighting.is_default(),
            r.dpi@ == default_dpi_slots(),
            r.current_dpi == RangedByte::<0, 5>(0),
            r.polling_rate == PollingRate::Hz1000,
            r.liftoff_distance == LiftoffDistance::Mm2,
            r.debounce_time == DebounceTime::Ms10,
            r.buttons == MouseButtons::default_bindings(),
            r.valid(),
            r.any_dpi_enabled(),
    {
        let white = Color { r: 0xff, g: 0xff, b: 0xff };
        let r = Config {
            lighting: Lighting::default(),
            dpi: [
                Dpi { enable: true, color: white, x_dpi: 4, y_dpi: 4 },
                Dpi { enable: true, color: white, x_dpi: 8, y_dpi: 8 },
                Dpi { enable: true, color: white, x_dpi: 12, y_dpi: 12 },
                Dpi { enable: false, color: white, x_dpi: 14, y_dpi: 14 },
                Dpi { enable: false, color: white, x_dpi: 16, y_dpi: 16 },
                Dpi { enable: false, color: white, x_dpi: 18, y_dpi: 18 },
            ],
            current_dpi: RangedByte(0),
            polling_rate: PollingRate::Hz1000,
            liftoff_distance: LiftoffDistance::Mm2,
            debounce_time: DebounceTime::Ms10,
            buttons: MouseButtons::default(),
        };
        assert(r.dpi@[0].enable);
        r
    }
}

/// The six factory DPI slots.
pub open spec fn default_dpi_slots() -> Seq<Dpi> {
    seq![
        Dpi { enable: true, color: Color { r: 0xff, g: 0xff, b: 0xff }, x_dpi: 4, y_dpi: 4 },
        Dpi { enable: true, color: Color { r: 0xff, g: 0xff, b: 0xff }, x_dpi: 8, y_dpi: 8 },
        Dpi { enable: true, color: Color { r: 0xff, g: 0xff, b: 0xff }, x_dpi: 12, y_dpi: 12 },
        Dpi { enable: false, color: Color { r: 0xff, g: 0xff, b: 0xff }, x_dpi: 14, y_dpi: 14 },
        Dpi { enable: false, color: Color { r: 0xff, g: 0xff, b: 0xff }, x_dpi: 16, y_dpi: 16 },
        Dpi { enable: false, color: Color { r: 0xff, g: 0xff, b: 0xff }, x_dpi: 18, y_dpi: 18 },
    ]
}

} // verus!
