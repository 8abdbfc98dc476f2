//! The packet encoders: pure functions from a [`Config`] snapshot to the
//! exact byte buffers the device firmware expects.
//!
//! Three packets exist: the main packet (lighting, DPI and liftoff state,
//! 520 bytes), the buttons packet (button bindings, 520 bytes) and the
//! debounce packet (6 bytes).  Each encoder's contract pins every byte of
//! its output to the specification-level byte sequence, so the layout
//! lemmas at the end of this module speak about the encoded buffers
//! themselves.

use vstd::prelude::*;

use crate::config::{Color, Config, Dpi, MouseButtons, RangedByte};

verus! {

/// Length of the main and buttons packets.
pub const LONG_PACKET_LEN: usize = 520;

/// Length of the debounce packet.
pub const DEBOUNCE_PACKET_LEN: usize = 6;

// ---------------------------------------------------------------------------
// Specification-level byte sequences
// ---------------------------------------------------------------------------

/// `n` zero bytes.
pub open spec fn zero_bytes(n: nat) -> Seq<u8> {
    Seq::new(n, |i: int| 0u8)
}

/// A lighting color on the wire: R, B, G (not RGB).
pub open spec fn color_rbg(c: Color) -> Seq<u8> {
    seq![c.r, c.b, c.g]
}

/// A DPI indicator color on the wire: R, G, B.
pub open spec fn color_rgb(c: Color) -> Seq<u8> {
    seq![c.r, c.g, c.b]
}

/// A 32-bit value on the wire, big-endian.
pub open spec fn be32(x: u32) -> Seq<u8> {
    seq![(x >> 24) as u8, (x >> 16) as u8, (x >> 8) as u8, x as u8]
}

/// Whether any DPI slot has distinct X and Y magnitudes, which switches the
/// device into separate-axis mode.
pub open spec fn separate_xy(dpi: Seq<Dpi>) -> bool {
    exists|i: int| 0 <= i < dpi.len() && (#[trigger] dpi[i]).x_dpi != dpi[i].y_dpi
}

/// How many of the first `n` DPI slots are enabled.
pub open spec fn enabled_count_upto(dpi: Seq<Dpi>, n: int) -> nat
    decreases n,
{
    if n <= 0 {
        0
    } else {
        enabled_count_upto(dpi, n - 1) + if dpi[n - 1].enable {
            1nat
        } else {
            0nat
        }
    }
}

/// The enable bitmask over the first `n` DPI slots: bit `i` set iff slot `i`
/// is enabled.
pub open spec fn enable_mask_upto(dpi: Seq<Dpi>, n: int) -> u8
    decreases n,
{
    if n <= 0 {
        0u8
    } else {
        enable_mask_upto(dpi, n - 1) | (if dpi[n - 1].enable {
            1u8 << ((n - 1) as u8)
        } else {
            0u8
        })
    }
}

/// The number of enabled DPI slots.
pub open spec fn enabled_count(dpi: Seq<Dpi>) -> nat {
    enabled_count_upto(dpi, 6)
}

/// The 6-bit enable bitmask of the DPI slots.
pub open spec fn enable_mask(dpi: Seq<Dpi>) -> u8 {
    enable_mask_upto(dpi, 6)
}

/// The transmitted DPI enable byte: the firmware encodes the *disabled*
/// mask, so this is the bitwise complement of the enable bitmask.
pub open spec fn dpi_mask_byte(dpi: Seq<Dpi>) -> u8 {
    !enable_mask(dpi)
}

/// The 1-based position of the selected slot `sel` among the enabled slots
/// (not its raw index).
pub open spec fn selected_position(dpi: Seq<Dpi>, sel: int) -> nat {
    enabled_count_upto(dpi, sel + 1)
}

/// The status byte: bit 3 set in separate-axis mode, polling-rate wire code
/// in the low bits.
pub open spec fn status_byte(c: Config) -> u8 {
    (if separate_xy(c.dpi@) {
        0x08u8
    } else {
        0x00u8
    }) | c.polling_rate.wire()
}

/// The byte combining the selected slot's position (high nibble) with the
/// enabled-slot count (low nibble).
pub open spec fn pos_count_byte(c: Config) -> u8 {
    ((selected_position(c.dpi@, c.current_dpi.0 as int) as u8) << 4) | (enabled_count(
        c.dpi@,
    ) as u8)
}

/// The X/Y magnitudes of the first `n` slots, X then Y per slot.
pub open spec fn xy_pairs_upto(dpi: Seq<Dpi>, n: int) -> Seq<u8>
    decreases n,
{
    if n <= 0 {
        Seq::empty()
    } else {
        xy_pairs_upto(dpi, n - 1) + seq![dpi[n - 1].x_dpi, dpi[n - 1].y_dpi]
    }
}

/// The X magnitudes of the first `n` slots.
pub open spec fn x_only_upto(dpi: Seq<Dpi>, n: int) -> Seq<u8>
    decreases n,
{
    if n <= 0 {
        Seq::empty()
    } else {
        x_only_upto(dpi, n - 1).push(dpi[n - 1].x_dpi)
    }
}

/// The 12-byte DPI magnitude block: X and Y per slot in separate-axis mode,
/// otherwise the six X magnitudes followed by six zero bytes.
pub open spec fn dpi_xy_block(dpi: Seq<Dpi>) -> Seq<u8> {
    if separate_xy(dpi) {
        xy_pairs_upto(dpi, 6)
    } else {
        x_only_upto(dpi, 6) + zero_bytes(6)
    }
}

/// The indicator colors of the first `n` DPI slots, R, G, B each.
pub open spec fn dpi_colors_upto(dpi: Seq<Dpi>, n: int) -> Seq<u8>
    decreases n,
{
    if n <= 0 {
        Seq::empty()
    } else {
        dpi_colors_upto(dpi, n - 1) + color_rgb(dpi[n - 1].color)
    }
}

/// The first `n` effect colors, R, B, G each.
pub open spec fn effect_colors_upto(colors: Seq<Color>, n: int) -> Seq<u8>
    decreases n,
{
    if n <= 0 {
        Seq::empty()
    } else {
        effect_colors_upto(colors, n - 1) + color_rbg(colors[n - 1])
    }
}

/// The recurring combined byte: brightness in the high nibble, speed in the
/// low nibble.
pub open spec fn brightness_speed(brightness: RangedByte<1, 4>, speed: RangedByte<1, 3>) -> u8 {
    (brightness.0 << 4) | speed.0
}

/// The fixed 10-byte preamble of the main packet.
pub open spec fn main_packet_preamble() -> Seq<u8> {
    seq![0x04u8, 0x11u8, 0x00u8, 0x7bu8, 0x00u8, 0x00u8, 0x00u8, 0x00u8, 0x64u8, 0x06u8]
}

/// The fixed reserved block in the middle of the main packet; the device
/// rejects the packet unless these exact bytes are present.
pub open spec fn main_reserved_block() -> Seq<u8> {
    seq![
        0x00u8, 0xffu8, 0x00u8, 0x00u8, 0x00u8, 0xffu8, 0x00u8, 0x00u8, 0x00u8, 0xffu8, 0xffu8,
        0xffu8, 0x00u8, 0x00u8, 0xffu8, 0xffu8, 0xffu8, 0xffu8, 0xffu8, 0xfau8, 0x00u8, 0xffu8,
        0xffu8, 0x00u8, 0x00u8, 0xffu8, 0x00u8, 0x00u8, 0xffu8, 0x00u8, 0x00u8,
    ]
}

/// Every content byte of the main packet, in order, before zero-fill.
pub open spec fn main_packet_core(c: Config) -> Seq<u8> {
    main_packet_preamble() + seq![status_byte(c), pos_count_byte(c), dpi_mask_byte(c.dpi@)]
        + dpi_xy_block(c.dpi@) + zero_bytes(4) + dpi_colors_upto(c.dpi@, 6) + zero_bytes(6)
        + seq![c.lighting.mode.wire()]
        + seq![0x40u8 | c.lighting.rainbow.speed.0, c.lighting.rainbow.direction.wire()]
        + seq![c.lighting.solid.brightness.0 << 4] + color_rbg(c.lighting.solid.color)
        + seq![0x42u8, 0x07u8] + effect_colors_upto(c.lighting.breathing.colors@, 7)
        + seq![brightness_speed(c.lighting.tail.brightness, c.lighting.tail.speed)]
        + seq![0x40u8 | c.lighting.fade.speed.0] + main_reserved_block()
        + seq![brightness_speed(c.lighting.rave.brightness, c.lighting.rave.speed)]
        + effect_colors_upto(c.lighting.rave.colors@, 2) + seq![0x02u8]
        + seq![brightness_speed(c.lighting.wave.brightness, c.lighting.wave.speed)]
        + seq![c.lighting.breathing_single.speed.0] + color_rbg(c.lighting.breathing_single.color)
        + seq![c.liftoff_distance.wire()]
}

/// The complete 520-byte main packet.
pub open spec fn main_packet_bytes(c: Config) -> Seq<u8> {
    main_packet_core(c) + zero_bytes(390)
}

/// The fixed 8-byte preamble of the buttons packet.
pub open spec fn buttons_packet_preamble() -> Seq<u8> {
    seq![0x04u8, 0x12u8, 0x00u8, 0x50u8, 0x00u8, 0x00u8, 0x00u8, 0x00u8]
}

/// `n` repetitions of the 32-bit "disable" wire code, big-endian.
pub open spec fn disable_codes(n: int) -> Seq<u8>
    decreases n,
{
    if n <= 0 {
        Seq::empty()
    } else {
        disable_codes(n - 1) + be32(crate::config::MouseButtonType::Disable.wire())
    }
}

/// Every content byte of the buttons packet: the preamble, the six
/// configured bindings as big-endian 32-bit wire codes, then thirteen
/// "disable" codes for the remaining firmware button slots.
pub open spec fn buttons_packet_core(b: MouseButtons) -> Seq<u8> {
    buttons_packet_preamble() + be32(b.left.wire()) + be32(b.right.wire()) + be32(b.middle.wire())
        + be32(b.back.wire()) + be32(b.forward.wire()) + be32(b.dpi.wire()) + disable_codes(13)
}

/// The complete 520-byte buttons packet.
pub open spec fn buttons_packet_bytes(b: MouseButtons) -> Seq<u8> {
    buttons_packet_core(b) + zero_bytes(436)
}

/// The complete 6-byte debounce packet.
pub open spec fn debounce_packet_bytes(d: crate::config::DebounceTime) -> Seq<u8> {
    seq![0x05u8, 0x1au8, d.wire(), 0x00u8, 0x00u8, 0x00u8]
}

// ---------------------------------------------------------------------------
// Executable encoders
// ---------------------------------------------------------------------------

/// Appends `n` zero bytes.
fn push_zeros(data: &mut Vec<u8>, n: usize)
    ensures
        final(data)@ == old(data)@ + zero_bytes(n as nat),
{
    let mut k: usize = 0;
    while k < n
        invariant
            k <= n,
            data@ == old(data)@ + zero_bytes(k as nat),
        decreases n - k,
    {
        data.push(0u8);
        proof {
            assert((old(data)@ + zero_bytes(k as nat)).push(0u8) =~= old(data)@ + zero_bytes(
                (k + 1) as nat,
            ));
        }
        k += 1;
    }
    proof {
        assert(data@ =~= old(data)@ + zero_bytes(n as nat));
    }
}

/// Appends a lighting color in wire order R, B, G.
fn push_color_rbg(data: &mut Vec<u8>, c: Color)
    ensures
        final(data)@ == old(data)@ + color_rbg(c),
{
    data.push(c.r);
    data.push(c.b);
    data.push(c.g);
    proof {
        assert(data@ =~= old(data)@ + color_rbg(c));
    }
}

/// Appends a 32-bit value big-endian.
fn push_be32(data: &mut Vec<u8>, x: u32)
    ensures
        final(data)@ == old(data)@ + be32(x),
{
    data.push((x >> 24) as u8);
    data.push((x >> 16) as u8);
    data.push((x >> 8) as u8);
    data.push(x as u8);
    proof {
        assert(data@ =~= old(data)@ + be32(x));
    }
}

/// Returns whether any DPI slot has distinct X and Y magnitudes.
fn separate_xy_dpi(dpi: &[Dpi; 6]) -> (r: bool)
    ensures
        r == separate_xy(dpi@),
{
    let mut i: usize = 0;
    while i < 6
        invariant
            i <= 6,
            forall|j: int| 0 <= j < i ==> (#[trigger] dpi@[j]).x_dpi == dpi@[j].y_dpi,
        decreases 6 - i,
    {
        if dpi[i].x_dpi != dpi[i].y_dpi {
            return true;
        }
        i += 1;
    }
    false
}

/// Appends the 12-byte DPI magnitude block.
fn push_dpi_xy(data: &mut Vec<u8>, dpi: &[Dpi; 6], separate: bool)
    requires
        separate == separate_xy(dpi@),
    ensures
        final(data)@ == old(data)@ + dpi_xy_block(dpi@),
{
    if separate {
        let mut i: usize = 0;
        while i < 6
            invariant
                i <= 6,
                data@ == old(data)@ + xy_pairs_upto(dpi@, i as int),
            decreases 6 - i,
        {
            data.push(dpi[i].x_dpi);
            data.push(dpi[i].y_dpi);
            proof {
                assert((old(data)@ + xy_pairs_upto(dpi@, i as int)).push(dpi@[i as int].x_dpi).push(
                    dpi@[i as int].y_dpi,
                ) =~= old(data)@ + xy_pairs_upto(dpi@, i + 1));
            }
            i += 1;
        }
    } else {
        let mut i: usize = 0;
        while i < 6
            invariant
                i <= 6,
                data@ == old(data)@ + x_only_upto(dpi@, i as int),
            decreases 6 - i,
        {
            data.push(dpi[i].x_dpi);
            proof {
                assert((old(data)@ + x_only_upto(dpi@, i as int)).push(dpi@[i as int].x_dpi)
                    =~= old(data)@ + x_only_upto(dpi@, i + 1));
            }
            i += 1;
        }
        push_zeros(data, 6);
        proof {
            assert(old(data)@ + x_only_upto(dpi@, 6) + zero_bytes(6) =~= old(data)@ + (x_only_upto(
                dpi@,
                6,
            ) + zero_bytes(6)));
        }
    }
}

/// Appends the six DPI indicator colors, R, G, B each.
fn push_dpi_colors(data: &mut Vec<u8>, dpi: &[Dpi; 6])
    ensures
        final(data)@ == old(data)@ + dpi_colors_upto(dpi@, 6),
{
    let mut i: usize = 0;
    while i < 6
        invariant
            i <= 6,
            data@ == old(data)@ + dpi_colors_upto(dpi@, i as int),
        decreases 6 - i,
    {
        let c = dpi[i].color;
        data.push(c.r);
        data.push(c.g);
        data.push(c.b);
        proof {
            assert((old(data)@ + dpi_colors_upto(dpi@, i as int)).push(c.r).push(c.g).push(c.b)
                =~= old(data)@ + dpi_colors_upto(dpi@, i + 1));
        }
        i += 1;
    }
}

/// Appends the seven breathing-effect colors, R, B, G each.
fn push_breathing_colors(data: &mut Vec<u8>, colors: &[Color; 7])
    ensures
        final(data)@ == old(data)@ + effect_colors_upto(colors@, 7),
{
    let mut i: usize = 0;
    while i < 7
        invariant
            i <= 7,
            data@ == old(data)@ + effect_colors_upto(colors@, i as int),
        decreases 7 - i,
    {
        let c = colors[i];
        data.push(c.r);
        data.push(c.b);
        data.push(c.g);
        proof {
            assert((old(data)@ + effect_colors_upto(colors@, i as int)).push(c.r).push(c.b).push(
                c.g,
            ) =~= old(data)@ + effect_colors_upto(colors@, i + 1));
        }
        i += 1;
    }
}

/// Appends the fixed 10-byte main-packet preamble.
fn push_main_preamble(data: &mut Vec<u8>)
    ensures
        final(data)@ == old(data)@ + main_packet_preamble(),
{
    data.push(0x04);
    data.push(0x11);
    data.push(0x00);
    data.push(0x7b);
    data.push(0x00);
    data.push(0x00);
    data.push(0x00);
    data.push(0x00);
    data.push(0x64);
    data.push(0x06);
    proof {
        assert(data@ =~= old(data)@ + main_packet_preamble());
    }
}

/// Appends the fixed 32-byte reserved block.
fn push_main_reserved(data: &mut Vec<u8>)
    ensures
        final(data)@ == old(data)@ + main_reserved_block(),
{
    data.push(0x00);
    data.push(0xff);
    data.push(0x00);
    data.push(0x00);
    data.push(0x00);
    data.push(0xff);
    data.push(0x00);
    data.push(0x00);
    data.push(0x00);
    data.push(0xff);
    data.push(0xff);
    data.push(0xff);
    data.push(0x00);
    data.push(0x00);
    data.push(0xff);
    data.push(0xff);
    data.push(0xff);
    data.push(0xff);
    data.push(0xff);
    data.push(0xfa);
    data.push(0x00);
    data.push(0xff);
    data.push(0xff);
    data.push(0x00);
    data.push(0x00);
    data.push(0xff);
    data.push(0x00);
    data.push(0x00);
    data.push(0xff);
    data.push(0x00);
    data.push(0x00);
    proof {
        assert(data@ =~= old(data)@ + main_reserved_block());
    }
}

/// Computes the enabled-slot count, the selected slot's 1-based position
/// among the enabled slots, and the enable bitmask, over slots in index
/// order.
fn dpi_flags(dpi: &[Dpi; 6], sel: u8) -> (r: (u8, u8, u8))
    requires
        sel < 6,
        dpi@[sel as int].enable,
    ensures
        r.0 == enabled_count(dpi@),
        r.1 == selected_position(dpi@, sel as int),
        r.2 == enable_mask(dpi@),
        1 <= r.1 <= r.0 <= 6,
{
    let mut count: u8 = 0;
    let mut position: u8 = 0;
    let mut mask: u8 = 0;
    let mut i: u8 = 0;
    while i < 6
        invariant
            i <= 6,
            sel < 6,
            dpi@[sel as int].enable,
            count == enabled_count_upto(dpi@, i as int),
            count <= i,
            mask == enable_mask_upto(dpi@, i as int),
            sel < i ==> position == selected_position(dpi@, sel as int) && 1 <= position <= count,
            sel >= i ==> position == 0,
        decreases 6 - i,
    {
        if dpi[i as usize].enable {
            count = count + 1;
            if sel == i {
                position = count;
            }
            mask = mask | (1u8 << i);
        } else {
            proof {
                assert(mask | 0u8 == mask) by (bit_vector);
            }
        }
        i += 1;
    }
    (count, position, mask)
}

/// Builds the main packet: lighting, DPI and liftoff-distance state.
///
/// The caller must have established the configuration invariant — in
/// particular that the selected DPI slot is enabled.
#[verifier::rlimit(80)]
pub fn build_main_packet(config: &Config) -> (r: Vec<u8>)
    requires
        config.valid(),
    ensures
        r@ == main_packet_bytes(*config),
        r@.len() == LONG_PACKET_LEN,
{
    let mut data: Vec<u8> = Vec::new();
    push_main_preamble(&mut data);

    let separate = separate_xy_dpi(&config.dpi);
    let status: u8 = (if separate {
        0x08u8
    } else {
        0x00u8
    }) | config.polling_rate.wire_code();

    let (count, position, mask) = dpi_flags(&config.dpi, config.current_dpi.get());
    data.push(status);
    data.push((position << 4) | count);
    data.push(!mask);
    proof {
        assert(data@ =~= main_packet_preamble() + seq![
            status_byte(*config),
            pos_count_byte(*config),
            dpi_mask_byte(config.dpi@),
        ]);
    }

    push_dpi_xy(&mut data, &config.dpi, separate);
    push_zeros(&mut data, 4);
    push_dpi_colors(&mut data, &config.dpi);
    push_zeros(&mut data, 6);

    let l = &config.lighting;
    data.push(l.mode.wire_code());
    data.push(0x40u8 | l.rainbow.speed.get());
    data.push(l.rainbow.direction.wire_code());
    data.push(l.solid.brightness.get() << 4);
    proof {
        let prefix = main_packet_preamble() + seq![
            status_byte(*config),
            pos_count_byte(*config),
            dpi_mask_byte(config.dpi@),
        ] + dpi_xy_block(config.dpi@) + zero_bytes(4) + dpi_colors_upto(config.dpi@, 6)
            + zero_bytes(6);
        assert(data@ =~= prefix + seq![config.lighting.mode.wire()] + seq![
            0x40u8 | config.lighting.rainbow.speed.0,
            config.lighting.rainbow.direction.wire(),
        ] + seq![config.lighting.solid.brightness.0 << 4]);
    }
    push_color_rbg(&mut data, l.solid.color);
    data.push(0x42);
    data.push(0x07);
    proof {
        let prefix = main_packet_preamble() + seq![
            status_byte(*config),
            pos_count_byte(*config),
            dpi_mask_byte(config.dpi@),
        ] + dpi_xy_block(config.dpi@) + zero_bytes(4) + dpi_colors_upto(config.dpi@, 6)
            + zero_bytes(6) + seq![config.lighting.mode.wire()] + seq![
            0x40u8 | config.lighting.rainbow.speed.0,
            config.lighting.rainbow.direction.wire(),
        ] + seq![config.lighting.solid.brightness.0 << 4] + color_rbg(config.lighting.solid.color);
        assert(data@ =~= prefix + seq![0x42u8, 0x07u8]);
    }
    push_breathing_colors(&mut data, &l.breathing.colors);
    data.push((l.tail.brightness.get() << 4) | l.tail.speed.get());
    data.push(0x40u8 | l.fade.speed.get());
    proof {
        let prefix = main_packet_preamble() + seq![
            status_byte(*config),
            pos_count_byte(*config),
            dpi_mask_byte(config.dpi@),
        ] + dpi_xy_block(config.dpi@) + zero_bytes(4) + dpi_colors_upto(config.dpi@, 6)
            + zero_bytes(6) + seq![config.lighting.mode.wire()] + seq![
            0x40u8 | config.lighting.rainbow.speed.0,
            config.lighting.rainbow.direction.wire(),
        ] + seq![config.lighting.solid.brightness.0 << 4] + color_rbg(config.lighting.solid.color)
            + seq![0x42u8, 0x07u8] + effect_colors_upto(config.lighting.breathing.colors@, 7);
        assert(data@ =~= prefix + seq![
            brightness_speed(config.lighting.tail.brightness, config.lighting.tail.speed),
        ] + seq![0x40u8 | config.lighting.fade.speed.0]);
    }
    push_main_reserved(&mut data);
    data.push((l.rave.brightness.get() << 4) | l.rave.speed.get());
    push_color_rbg(&mut data, l.rave.colors[0]);
    push_color_rbg(&mut data, l.rave.colors[1]);
    data.push(0x02);
    data.push((l.wave.brightness.get() << 4) | l.wave.speed.get());
    data.push(l.breathing_single.speed.get());
    push_color_rbg(&mut data, l.breathing_single.color);
    data.push(config.liftoff_distance.wire_code());
    proof {
        reveal_with_fuel(effect_colors_upto, 3);
        assert(color_rbg(config.lighting.rave.colors@[0]) + color_rbg(
            config.lighting.rave.colors@[1],
        ) =~= effect_colors_upto(config.lighting.rave.colors@, 2));
        assert(data@ =~= main_packet_core(*config));
    }
    push_zeros(&mut data, 390);
    proof {
        assert(data@ == main_packet_bytes(*config));
        lemma_main_packet_len(*config);
    }
    data
}

/// Builds the buttons packet: the six button bindings.
pub fn build_buttons_packet(config: &Config) -> (r: Vec<u8>)
    ensures
        r@ == buttons_packet_bytes(config.buttons),
        r@.len() == LONG_PACKET_LEN,
{
    let mut data: Vec<u8> = Vec::new();
    data.push(0x04);
    data.push(0x12);
    data.push(0x00);
    data.push(0x50);
    data.push(0x00);
    data.push(0x00);
    data.push(0x00);
    data.push(0x00);
    proof {
        assert(data@ =~= buttons_packet_preamble());
    }
    let b = &config.buttons;
    push_be32(&mut data, b.left.wire_code());
    push_be32(&mut data, b.right.wire_code());
    push_be32(&mut data, b.middle.wire_code());
    push_be32(&mut data, b.back.wire_code());
    push_be32(&mut data, b.forward.wire_code());
    push_be32(&mut data, b.dpi.wire_code());

    let ghost bound_prefix = buttons_packet_preamble() + be32(config.buttons.left.wire()) + be32(
        config.buttons.right.wire(),
    ) + be32(config.buttons.middle.wire()) + be32(config.buttons.back.wire()) + be32(
        config.buttons.forward.wire(),
    ) + be32(config.buttons.dpi.wire());

    let mut k: usize = 0;
    while k < 13
        invariant
            k <= 13,
            data@ == bound_prefix + disable_codes(k as int),
        decreases 13 - k,
    {
        push_be32(&mut data, crate::config::MouseButtonType::Disable.wire_code());
        proof {
            assert(bound_prefix + disable_codes(k as int) + be32(
                crate::config::MouseButtonType::Disable.wire(),
            ) =~= bound_prefix + disable_codes(k + 1));
        }
        k += 1;
    }
    proof {
        assert(data@ == buttons_packet_core(config.buttons));
    }
    push_zeros(&mut data, 436);
    proof {
        assert(data@ == buttons_packet_bytes(config.buttons));
        lemma_buttons_packet_len(config.buttons);
    }
    data
}

/// Builds the debounce packet: the debounce-time setting.
pub fn build_debounce_packet(config: &Config) -> (r: Vec<u8>)
    ensures
        r@ == debounce_packet_bytes(config.debounce_time),
        r@.len() == DEBOUNCE_PACKET_LEN,
{
    let mut data: Vec<u8> = Vec::new();
    data.push(0x05);
    data.push(0x1a);
    data.push(config.debounce_time.wire_code());
    data.push(0x00);
    data.push(0x00);
    data.push(0x00);
    proof {
        assert(data@ =~= debounce_packet_bytes(config.debounce_time));
    }
    data
}

// ---------------------------------------------------------------------------
// Length lemmas
// ---------------------------------------------------------------------------

proof fn lemma_xy_pairs_len(dpi: Seq<Dpi>, n: int)
    requires
        0 <= n,
    ensures
        xy_pairs_upto(dpi, n).len() == 2 * n,
    decreases n,
{
    if n > 0 {
        lemma_xy_pairs_len(dpi, n - 1);
    }
}

proof fn lemma_x_only_len(dpi: Seq<Dpi>, n: int)
    requires
        0 <= n,
    ensures
        x_only_upto(dpi, n).len() == n,
    decreases n,
{
    if n > 0 {
        lemma_x_only_len(dpi, n - 1);
    }
}

proof fn lemma_dpi_colors_len(dpi: Seq<Dpi>, n: int)
    requires
        0 <= n,
    ensures
        dpi_colors_upto(dpi, n).len() == 3 * n,
    decreases n,
{
    if n > 0 {
        lemma_dpi_colors_len(dpi, n - 1);
    }
}

proof fn lemma_effect_colors_len(colors: Seq<Color>, n: int)
    requires
        0 <= n,
    ensures
        effect_colors_upto(colors, n).len() == 3 * n,
    decreases n,
{
    if n > 0 {
        lemma_effect_colors_len(colors, n - 1);
    }
}

proof fn lemma_disable_codes_len(n: int)
    requires
        0 <= n,
    ensures
        disable_codes(n).len() == 4 * n,
    decreases n,
{
    if n > 0 {
        lemma_disable_codes_len(n - 1);
    }
}

/// The DPI magnitude block is always 12 bytes.
pub proof fn lemma_dpi_xy_block_len(dpi: Seq<Dpi>)
    ensures
        dpi_xy_block(dpi).len() == 12,
{
    lemma_xy_pairs_len(dpi, 6);
    lemma_x_only_len(dpi, 6);
}

/// The main packet's content bytes end at offset 130; with zero-fill the
/// packet is exactly 520 bytes, whatever the configuration holds.
pub proof fn lemma_main_packet_len(c: Config)
    ensures
        main_packet_core(c).len() == 130,
        main_packet_bytes(c).len() == 520,
{
    lemma_dpi_xy_block_len(c.dpi@);
    lemma_dpi_colors_len(c.dpi@, 6);
    lemma_effect_colors_len(c.lighting.breathing.colors@, 7);
    lemma_effect_colors_len(c.lighting.rave.colors@, 2);
}

/// The buttons packet's content bytes end at offset 84; with zero-fill the
/// packet is exactly 520 bytes, whatever the bindings hold.
pub proof fn lemma_buttons_packet_len(b: MouseButtons)
    ensures
        buttons_packet_core(b).len() == 84,
        buttons_packet_bytes(b).len() == 520,
{
    lemma_disable_codes_len(13);
}

// ---------------------------------------------------------------------------
// Bit-level lemmas
// ---------------------------------------------------------------------------

proof fn lemma_or_bit(a: u8, b: u8, k: u8)
    by (bit_vector)
    requires
        k < 8,
    ensures
        ((a | b) >> k) & 1 == (((a >> k) & 1) | ((b >> k) & 1)),
        (((a >> k) & 1) | ((b >> k) & 1)) == 1 <==> ((a >> k) & 1 == 1 || (b >> k) & 1 == 1),
{
}

proof fn lemma_shl_bit(m: u8, k: u8)
    by (bit_vector)
    requires
        m < 8,
        k < 8,
    ensures
        m == k ==> ((1u8 << m) >> k) & 1 == 1,
        m != k ==> ((1u8 << m) >> k) & 1 == 0,
{
}

proof fn lemma_zero_bit(k: u8)
    by (bit_vector)
    requires
        k < 8,
    ensures
        (0u8 >> k) & 1 == 0,
{
}

proof fn lemma_not_bit(a: u8, k: u8)
    by (bit_vector)
    requires
        k < 8,
    ensures
        ((!a) >> k) & 1 == 0 <==> (a >> k) & 1 == 1,
{
}

/// Which bits the enable bitmask holds: bit `k` of the mask over the first
/// `n` slots is set exactly when `k < n` and slot `k` is enabled.
proof fn lemma_enable_mask_bit(dpi: Seq<Dpi>, n: int, k: u8)
    requires
        0 <= n <= 6,
        k < 8,
    ensures
        ((enable_mask_upto(dpi, n) >> k) & 1 == 1) <==> (k < n && dpi[k as int].enable),
    decreases n,
{
    if n == 0 {
        lemma_zero_bit(k);
    } else {
        lemma_enable_mask_bit(dpi, n - 1, k);
        let m = enable_mask_upto(dpi, n - 1);
        let add = if dpi[n - 1].enable {
            1u8 << ((n - 1) as u8)
        } else {
            0u8
        };
        lemma_or_bit(m, add, k);
        if dpi[n - 1].enable {
            lemma_shl_bit((n - 1) as u8, k);
        } else {
            lemma_zero_bit(k);
        }
    }
}

// ---------------------------------------------------------------------------
// Packet properties
// ---------------------------------------------------------------------------

/// The DPI enable byte round-trips: bit `i` of the transmitted byte is
/// clear exactly when slot `i` is enabled — the firmware receives the
/// complement of the enable bitmask.
pub proof fn lemma_dpi_mask_round_trip(dpi: Seq<Dpi>)
    ensures
        forall|i: int|
            0 <= i < 6 ==> (((dpi_mask_byte(dpi) >> (i as u8)) & 1 == 0) <==> (
            #[trigger] dpi[i]).enable),
{
    assert forall|i: int| 0 <= i < 6 implies (((dpi_mask_byte(dpi) >> (i as u8)) & 1 == 0) <==> (
    #[trigger] dpi[i]).enable) by {
        lemma_enable_mask_bit(dpi, 6, i as u8);
        lemma_not_bit(enable_mask(dpi), i as u8);
    }
}

/// The status byte carries separate-axis mode in bit 3 and the polling
/// rate's wire code in the low three bits.
pub proof fn lemma_status_byte(c: Config)
    ensures
        (status_byte(c) & 0x08u8 != 0) <==> separate_xy(c.dpi@),
        status_byte(c) & 0x07u8 == c.polling_rate.wire(),
{
    let p = c.polling_rate.wire();
    assert(1 <= p <= 4);
    if separate_xy(c.dpi@) {
        assert(p <= 4 ==> ((8u8 | p) & 8u8 != 0) && ((8u8 | p) & 7u8 == p)) by (bit_vector);
    } else {
        assert(p <= 4 ==> ((0u8 | p) & 8u8 == 0) && ((0u8 | p) & 7u8 == p)) by (bit_vector);
    }
}

/// The combined effect byte packs the brightness into the high nibble and
/// the speed into the low nibble.
pub proof fn lemma_brightness_speed_nibbles(brightness: RangedByte<1, 4>, speed: RangedByte<1, 3>)
    requires
        brightness.valid(),
        speed.valid(),
    ensures
        brightness_speed(brightness, speed) == 16 * brightness.0 + speed.0,
{
    let b = brightness.0;
    let s = speed.0;
    assert(1 <= b <= 4 && 1 <= s <= 3 ==> ((b << 4) | s) == 16 * b + s) by (bit_vector);
}

/// The speed byte of the effects without a brightness field is the `0x40`
/// marker plus the speed.
pub proof fn lemma_speed_marker(speed: RangedByte<1, 3>)
    requires
        speed.valid(),
    ensures
        (0x40u8 | speed.0) == 0x40 + speed.0,
{
    let s = speed.0;
    assert(s <= 3 ==> (0x40u8 | s) == 0x40 + s) by (bit_vector);
}

/// Encoding is deterministic: equal configurations yield byte-identical
/// packets.
pub proof fn lemma_encoding_deterministic(c1: Config, c2: Config)
    requires
        c1 == c2,
    ensures
        main_packet_bytes(c1) == main_packet_bytes(c2),
        buttons_packet_bytes(c1.buttons) == buttons_packet_bytes(c2.buttons),
        debounce_packet_bytes(c1.debounce_time) == debounce_packet_bytes(c2.debounce_time),
{
}

/// Where the DPI header and magnitude block sit in the main packet: the
/// status byte at offset 10, the position/count byte at 11, the enable
/// byte at 12, and the magnitude block at 13..25 — 12 bytes of X and Y
/// pairs in separate-axis mode, otherwise 6 X bytes and 6 zero bytes.
pub proof fn lemma_main_packet_layout(c: Config)
    ensures
        main_packet_bytes(c).len() == 520,
        main_packet_bytes(c)[10] == status_byte(c),
        main_packet_bytes(c)[11] == pos_count_byte(c),
        main_packet_bytes(c)[12] == dpi_mask_byte(c.dpi@),
        main_packet_bytes(c).subrange(13, 25) == dpi_xy_block(c.dpi@),
        separate_xy(c.dpi@) ==> main_packet_bytes(c).subrange(13, 25) == xy_pairs_upto(c.dpi@, 6),
        !separate_xy(c.dpi@) ==> main_packet_bytes(c).subrange(13, 19) == x_only_upto(c.dpi@, 6)
            && main_packet_bytes(c).subrange(19, 25) == zero_bytes(6),
{
    lemma_main_packet_len(c);
    lemma_dpi_xy_block_len(c.dpi@);
    lemma_xy_pairs_len(c.dpi@, 6);
    lemma_x_only_len(c.dpi@, 6);
    assert(main_packet_bytes(c).subrange(13, 25) =~= dpi_xy_block(c.dpi@));
    if !separate_xy(c.dpi@) {
        assert(main_packet_bytes(c).subrange(13, 19) =~= x_only_upto(c.dpi@, 6));
        assert(main_packet_bytes(c).subrange(19, 25) =~= zero_bytes(6));
    }
}

/// Where each binding sits in the buttons packet: the six configured
/// bindings at offsets 8, 12, 16, 20, 24, 28, followed by thirteen
/// big-endian "disable" codes.
#[verifier::rlimit(80)]
pub proof fn lemma_buttons_packet_layout(b: MouseButtons)
    ensures
        buttons_packet_bytes(b).len() == 520,
        buttons_packet_bytes(b).subrange(8, 12) == be32(b.left.wire()),
        buttons_packet_bytes(b).subrange(12, 16) == be32(b.right.wire()),
        buttons_packet_bytes(b).subrange(16, 20) == be32(b.middle.wire()),
        buttons_packet_bytes(b).subrange(20, 24) == be32(b.back.wire()),
        buttons_packet_bytes(b).subrange(24, 28) == be32(b.forward.wire()),
        buttons_packet_bytes(b).subrange(28, 32) == be32(b.dpi.wire()),
        forall|k: int|
            0 <= k < 13 ==> #[trigger] buttons_packet_bytes(b).subrange(32 + 4 * k, 36 + 4 * k)
                == be32(crate::config::MouseButtonType::Disable.wire()),
{
    lemma_buttons_packet_len(b);
    lemma_disable_codes_len(13);
    assert(buttons_packet_bytes(b).subrange(8, 12) =~= be32(b.left.wire()));
    assert(buttons_packet_bytes(b).subrange(12, 16) =~= be32(b.right.wire()));
    assert(buttons_packet_bytes(b).subrange(16, 20) =~= be32(b.middle.wire()));
    assert(buttons_packet_bytes(b).subrange(20, 24) =~= be32(b.back.wire()));
    assert(buttons_packet_bytes(b).subrange(24, 28) =~= be32(b.forward.wire()));
    assert(buttons_packet_bytes(b).subrange(28, 32) =~= be32(b.dpi.wire()));
    assert forall|k: int| 0 <= k < 13 implies #[trigger] buttons_packet_bytes(b).subrange(
        32 + 4 * k,
        36 + 4 * k,
    ) == be32(crate::config::MouseButtonType::Disable.wire()) by {
        lemma_disable_codes_subrange(13, k);
        assert(buttons_packet_bytes(b).subrange(32 + 4 * k, 36 + 4 * k) =~= disable_codes(
            13,
        ).subrange(4 * k, 4 * k + 4));
    }
}

/// Each repetition inside the disable fill is the "disable" wire code.
proof fn lemma_disable_codes_subrange(n: int, k: int)
    requires
        0 <= k < n,
    ensures
        disable_codes(n).subrange(4 * k, 4 * k + 4) == be32(
            crate::config::MouseButtonType::Disable.wire(),
        ),
    decreases n,
{
    lemma_disable_codes_len(n);
    lemma_disable_codes_len(n - 1);
    if k == n - 1 {
        assert(disable_codes(n).subrange(4 * k, 4 * k + 4) =~= be32(
            crate::config::MouseButtonType::Disable.wire(),
        ));
    } else {
        lemma_disable_codes_subrange(n - 1, k);
        assert(disable_codes(n).subrange(4 * k, 4 * k + 4) =~= disable_codes(n - 1).subrange(
            4 * k,
            4 * k + 4,
        ));
    }
}

} // verus!
