//! The wire format: a colour as 24 timer compare values, one per bit,
//! and the run of zeros that resets the LEDs.

use crate::color::Color;
use vstd::prelude::*;

verus! {

/// Compare values that one LED takes: three channels of eight bits.
pub const SAMPLES_PER_LED: usize = 24;

/// Whether bit `n` of a byte is set, counted from the most significant
/// bit, which is bit 0.
pub open spec fn bit_is_set(byte: u8, n: int) -> bool {
    byte & (0x80u8 >> (n as u8)) != 0
}

/// The channel sent at place 0, 1 or 2 of a colour: green, red, blue.
pub open spec fn wire_byte(color: Color, channel: int) -> u8 {
    if channel == 0 {
        color.g
    } else if channel == 1 {
        color.r
    } else {
        color.b
    }
}

/// The bit sent at position `pos` of a colour's 24 bits.
pub open spec fn wire_bit(color: Color, pos: int) -> bool {
    bit_is_set(wire_byte(color, pos / 8), pos % 8)
}

/// The compare value that stands for a bit.
pub open spec fn duty_of(bit: bool, duty_zero: u16, duty_one: u16) -> u16 {
    if bit {
        duty_one
    } else {
        duty_zero
    }
}

/// The 24 compare values of a colour.
pub open spec fn pattern(color: Color, duty_zero: u16, duty_one: u16) -> Seq<u16> {
    Seq::new(24, |pos: int| duty_of(wire_bit(color, pos), duty_zero, duty_one))
}

/// The samples `s` with the 24 places of LED `led` replaced by `p`.
pub open spec fn with_pattern(s: Seq<u16>, led: int, p: Seq<u16>) -> Seq<u16> {
    Seq::new(
        s.len(),
        |i: int|
            if 24 * led <= i < 24 * led + 24 {
                p[i - 24 * led]
            } else {
                s[i]
            },
    )
}

/// The samples `s` with the places from `from` up to, not including,
/// `to` set to zero.
pub open spec fn with_reset(s: Seq<u16>, from: int, to: int) -> Seq<u16> {
    Seq::new(
        s.len(),
        |i: int|
            if from <= i < to {
                0u16
            } else {
                s[i]
            },
    )
}

/// Writes the eight compare values of one channel at `start`.
fn encode_byte(byte: u8, dest: &mut [u16], start: usize, duty_zero: u16, duty_one: u16)
    requires
        start + 8 <= old(dest)@.len(),
    ensures
        final(dest)@.len() == old(dest)@.len(),
        forall|i: int|
            0 <= i < old(dest)@.len() ==> final(dest)@[i] == (if start <= i < start + 8 {
                duty_of(bit_is_set(byte, i - start), duty_zero, duty_one)
            } else {
                old(dest)@[i]
            }),
{
    let mut bit_mask: u8 = 0b1000_0000;
    let mut bit_num: usize = 0;
    assert(0x80u8 >> 0u8 == 0x80u8) by (bit_vector);
    assert(dest.len() == dest@.len());
    while bit_num < 8
        invariant
            bit_num <= 8,
            start + 8 <= usize::MAX,
            start + 8 <= dest@.len(),
            dest@.len() == old(dest)@.len(),
            bit_mask == 0x80u8 >> (bit_num as u8),
            forall|i: int|
                0 <= i < dest@.len() ==> dest@[i] == (if start <= i < start + bit_num {
                    duty_of(bit_is_set(byte, i - start), duty_zero, duty_one)
                } else {
                    old(dest)@[i]
                }),
        decreases 8 - bit_num,
    {
        dest[start + bit_num] = if (byte & bit_mask) > 0 {
            duty_one
        } else {
            duty_zero
        };
        let ghost shift = bit_num as u8;
        assert((0x80u8 >> shift) >> 1u8 == 0x80u8 >> ((shift + 1) as u8)) by (bit_vector)
            requires
                shift < 8,
        ;
        bit_mask >>= 1;
        bit_num += 1;
    }
}

/// Writes the 24 compare values of `color` at the places of LED
/// `led_num`: green, red, blue, each from its most significant bit down,
/// `duty_one` for a set bit and `duty_zero` for a clear one. The other
/// places stay as they are.
pub fn encode(color: Color, dest: &mut [u16], led_num: usize, duty_zero: u16, duty_one: u16)
    requires
        24 * led_num + 24 <= old(dest)@.len(),
    ensures
        final(dest)@ == with_pattern(
            old(dest)@,
            led_num as int,
            pattern(color, duty_zero, duty_one),
        ),
{
    assert(dest.len() == dest@.len());
    let base: usize = 24 * led_num;
    encode_byte(color.g, dest, base, duty_zero, duty_one);
    encode_byte(color.r, dest, base + 8, duty_zero, duty_one);
    encode_byte(color.b, dest, base + 16, duty_zero, duty_one);
    assert(dest@ =~= with_pattern(
        old(dest)@,
        led_num as int,
        pattern(color, duty_zero, duty_one),
    ));
}

/// Sets the places from `from` up to, not including, `to` to zero: the
/// low line that makes the LEDs take over what they were sent. Nothing
/// changes where `from` is not below `to`.
pub fn encode_reset(dest: &mut [u16], from: usize, to: usize)
    requires
        to <= old(dest)@.len(),
    ensures
        final(dest)@ == with_reset(old(dest)@, from as int, to as int),
{
    let mut i: usize = from;
    while i < to
        invariant
            to <= dest@.len(),
            dest@.len() == old(dest)@.len(),
            from <= i,
            from <= to ==> i <= to,
            from > to ==> i == from,
            forall|k: int|
                0 <= k < dest@.len() ==> dest@[k] == (if from <= k < i {
                    0u16
                } else {
                    old(dest)@[k]
                }),
        decreases to - i,
    {
        dest[i] = 0;
        i += 1;
    }
    assert(dest@ =~= with_reset(old(dest)@, from as int, to as int));
}

/// The bit that a compare value stands for: 1 for `duty_one`, 0 for
/// `duty_zero`, none for any other value.
pub open spec fn bit_of_sample(sample: u16, duty_zero: u16, duty_one: u16) -> Option<bool> {
    if sample == duty_one {
        Some(true)
    } else if sample == duty_zero {
        Some(false)
    } else {
        None
    }
}

/// The number that the `count` samples from `start` on spell, most
/// significant bit first, a sample counting as 1 where it is `duty_one`.
pub open spec fn bits_value(samples: Seq<u16>, start: int, count: int, duty_one: u16) -> int
    decreases count,
{
    if count <= 0 {
        0
    } else {
        2 * bits_value(samples, start, count - 1, duty_one) + (if samples[start + count - 1]
            == duty_one {
            1int
        } else {
            0int
        })
    }
}

/// The colour that 24 samples spell, or none where one of them is
/// neither of the two compare values.
pub open spec fn decoded(samples: Seq<u16>, duty_zero: u16, duty_one: u16) -> Option<Color>
    recommends
        samples.len() == 24,
{
    if forall|i: int| 0 <= i < 24 ==> bit_of_sample(#[trigger] samples[i], duty_zero, duty_one) is Some {
        Some(
            Color {
                r: bits_value(samples, 8, 8, duty_one) as u8,
                g: bits_value(samples, 0, 8, duty_one) as u8,
                b: bits_value(samples, 16, 8, duty_one) as u8,
            },
        )
    } else {
        None
    }
}

/// Two to the power `n`.
pub open spec fn two_pow(n: int) -> int
    decreases n,
{
    if n <= 0 {
        1
    } else {
        2 * two_pow(n - 1)
    }
}

proof fn lemma_bits_value_bound(samples: Seq<u16>, start: int, count: int, duty_one: u16)
    requires
        0 <= count,
    ensures
        0 <= bits_value(samples, start, count, duty_one) < two_pow(count),
    decreases count,
{
    if count > 0 {
        lemma_bits_value_bound(samples, start, count - 1, duty_one);
    }
}

/// Reads the eight samples from `start` on as one byte.
fn decode_byte(samples: &[u16], start: usize, duty_zero: u16, duty_one: u16) -> (r: Option<u8>)
    requires
        start + 8 <= samples@.len(),
    ensures
        r is Some <==> forall|i: int|
            start <= i < start + 8 ==> bit_of_sample(
                #[trigger] samples@[i],
                duty_zero,
                duty_one,
            ) is Some,
        r matches Some(byte) ==> byte == bits_value(samples@, start as int, 8, duty_one),
{
    assert(samples.len() == samples@.len());
    let mut value: u8 = 0;
    let mut n: usize = 0;
    while n < 8
        invariant
            n <= 8,
            start + 8 <= samples@.len() <= usize::MAX,
            value == bits_value(samples@, start as int, n as int, duty_one),
            forall|i: int|
                start <= i < start + n ==> bit_of_sample(
                    #[trigger] samples@[i],
                    duty_zero,
                    duty_one,
                ) is Some,
        decreases 8 - n,
    {
        let sample: u16 = samples[start + n];
        proof {
            lemma_bits_value_bound(samples@, start as int, n as int, duty_one);
            lemma_bits_value_bound(samples@, start as int, n as int + 1, duty_one);
            assert(two_pow(8) == 256) by {
                reveal_with_fuel(two_pow, 9);
            }
            lemma_two_pow_grows(n as int + 1, 8);
        }
        if sample == duty_one {
            value = 2 * value + 1;
        } else if sample == duty_zero {
            value = 2 * value;
        } else {
            return None;
        }
        n += 1;
    }
    Some(value)
}

proof fn lemma_two_pow_grows(a: int, b: int)
    requires
        0 <= a <= b,
    ensures
        1 <= two_pow(a) <= two_pow(b),
    decreases b,
{
    if a < b {
        lemma_two_pow_grows(a, b - 1);
    } else if a > 0 {
        lemma_two_pow_grows(a - 1, b - 1);
    }
}

/// Reads the 24 samples of LED `led_num` back as a colour: green, red,
/// blue, each from its most significant bit down. Gives none where a
/// sample is neither `duty_one` nor `duty_zero`.
pub fn decode(samples: &[u16], led_num: usize, duty_zero: u16, duty_one: u16) -> (r: Option<Color>)
    requires
        24 * led_num + 24 <= samples@.len(),
    ensures
        r == decoded(
            samples@.subrange(24 * led_num, 24 * led_num + 24),
            duty_zero,
            duty_one,
        ),
{
    assert(samples.len() == samples@.len());
    let base: usize = 24 * led_num;
    let ghost part = samples@.subrange(24 * led_num, 24 * led_num + 24);
    proof {
        lemma_bits_value_shift(samples@, base as int, 0, 8, duty_one);
        lemma_bits_value_shift(samples@, base as int, 8, 8, duty_one);
        lemma_bits_value_shift(samples@, base as int, 16, 8, duty_one);
    }
    let g = match decode_byte(samples, base, duty_zero, duty_one) {
        Some(g) => g,
        None => {
            let ghost bad = choose|i: int|
                base <= i < base + 8 && !(bit_of_sample(
                    #[trigger] samples@[i],
                    duty_zero,
                    duty_one,
                ) is Some);
            assert(part[bad - base] == samples@[bad]);
            return None;
        },
    };
    let red = match decode_byte(samples, base + 8, duty_zero, duty_one) {
        Some(red) => red,
        None => {
            let ghost bad = choose|i: int|
                base + 8 <= i < base + 16 && !(bit_of_sample(
                    #[trigger] samples@[i],
                    duty_zero,
                    duty_one,
                ) is Some);
            assert(part[bad - base] == samples@[bad]);
            return None;
        },
    };
    let b = match decode_byte(samples, base + 16, duty_zero, duty_one) {
        Some(b) => b,
        None => {
            let ghost bad = choose|i: int|
                base + 16 <= i < base + 24 && !(bit_of_sample(
                    #[trigger] samples@[i],
                    duty_zero,
                    duty_one,
                ) is Some);
            assert(part[bad - base] == samples@[bad]);
            return None;
        },
    };
    proof {
        assert forall|i: int| 0 <= i < 24 implies bit_of_sample(
            #[trigger] part[i],
            duty_zero,
            duty_one,
        ) is Some by {
            assert(part[i] == samples@[base + i]);
        }
    }
    Some(Color { r: red, g, b })
}

/// The value of the bits of a part of the samples is that of the same
/// bits in the whole.
proof fn lemma_bits_value_shift(samples: Seq<u16>, base: int, start: int, count: int, duty_one: u16)
    requires
        0 <= base,
        0 <= start,
        0 <= count,
        start + count <= 24,
        base + 24 <= samples.len(),
    ensures
        bits_value(samples.subrange(base, base + 24), start, count, duty_one) == bits_value(
            samples,
            base + start,
            count,
            duty_one,
        ),
    decreases count,
{
    if count > 0 {
        lemma_bits_value_shift(samples, base, start, count - 1, duty_one);
    }
}

/// The weight of bit `n` of a byte, or 0 where the bit is clear.
pub open spec fn bit_weight(byte: u8, n: int) -> int {
    if bit_is_set(byte, n) {
        two_pow(7 - n)
    } else {
        0
    }
}

/// A byte is the sum of the weights of its set bits.
pub proof fn lemma_byte_is_sum_of_bits(byte: u8)
    ensures
        byte == bit_weight(byte, 0) + bit_weight(byte, 1) + bit_weight(byte, 2) + bit_weight(
            byte,
            3,
        ) + bit_weight(byte, 4) + bit_weight(byte, 5) + bit_weight(byte, 6) + bit_weight(byte, 7),
{
    reveal_with_fuel(two_pow, 9);
    assert(0x80u8 >> 0u8 == 0x80u8) by (bit_vector);
    assert(0x80u8 >> 1u8 == 0x40u8) by (bit_vector);
    assert(0x80u8 >> 2u8 == 0x20u8) by (bit_vector);
    assert(0x80u8 >> 3u8 == 0x10u8) by (bit_vector);
    assert(0x80u8 >> 4u8 == 0x08u8) by (bit_vector);
    assert(0x80u8 >> 5u8 == 0x04u8) by (bit_vector);
    assert(0x80u8 >> 6u8 == 0x02u8) by (bit_vector);
    assert(0x80u8 >> 7u8 == 0x01u8) by (bit_vector);
    assert(byte == (if byte & 0x80 != 0 {
        128int
    } else {
        0int
    }) + (if byte & 0x40 != 0 {
        64int
    } else {
        0int
    }) + (if byte & 0x20 != 0 {
        32int
    } else {
        0int
    }) + (if byte & 0x10 != 0 {
        16int
    } else {
        0int
    }) + (if byte & 0x08 != 0 {
        8int
    } else {
        0int
    }) + (if byte & 0x04 != 0 {
        4int
    } else {
        0int
    }) + (if byte & 0x02 != 0 {
        2int
    } else {
        0int
    }) + (if byte & 0x01 != 0 {
        1int
    } else {
        0int
    })) by (bit_vector);
}

/// The eight samples of one channel of a colour's pattern spell that
/// channel's byte.
proof fn lemma_channel_round_trip(color: Color, channel: int, duty_zero: u16, duty_one: u16)
    requires
        0 <= channel < 3,
        duty_zero != duty_one,
    ensures
        bits_value(pattern(color, duty_zero, duty_one), 8 * channel, 8, duty_one) == wire_byte(
            color,
            channel,
        ),
{
    let p = pattern(color, duty_zero, duty_one);
    let byte = wire_byte(color, channel);
    reveal_with_fuel(bits_value, 9);
    reveal_with_fuel(two_pow, 9);
    assert forall|n: int| 0 <= n < 8 implies (p[8 * channel + n] == duty_one) == bit_is_set(
        byte,
        n,
    ) by {
        assert((8 * channel + n) / 8 == channel);
        assert((8 * channel + n) % 8 == n);
    }
    lemma_byte_is_sum_of_bits(byte);
}

/// Encoding a colour and decoding the 24 samples gives the colour back,
/// whatever the two compare values are, as long as they differ.
pub proof fn lemma_decode_encode(color: Color, duty_zero: u16, duty_one: u16)
    requires
        duty_zero != duty_one,
    ensures
        decoded(pattern(color, duty_zero, duty_one), duty_zero, duty_one) == Some(color),
{
    lemma_channel_round_trip(color, 0, duty_zero, duty_one);
    lemma_channel_round_trip(color, 1, duty_zero, duty_one);
    lemma_channel_round_trip(color, 2, duty_zero, duty_one);
}

/// The samples of a whole frame: 24 for each colour in turn, then
/// `reset` zeros.
pub open spec fn frame_samples(colors: Seq<Color>, duty_zero: u16, duty_one: u16, reset: int) -> Seq<
    u16,
> {
    Seq::new(
        (24 * colors.len() + reset) as nat,
        |i: int|
            if i < 24 * colors.len() {
                pattern(colors[i / 24], duty_zero, duty_one)[i % 24]
            } else {
                0u16
            },
    )
}

/// After a colour was encoded at the places of one LED, those places
/// decode to the colour, and the places of every other LED hold what
/// they held before.
pub proof fn lemma_encoded_led_decodes(
    s: Seq<u16>,
    led: int,
    other: int,
    color: Color,
    duty_zero: u16,
    duty_one: u16,
)
    requires
        duty_zero != duty_one,
        0 <= led,
        24 * led + 24 <= s.len(),
        0 <= other,
        24 * other + 24 <= s.len(),
        other != led,
    ensures
        decoded(
            with_pattern(s, led, pattern(color, duty_zero, duty_one)).subrange(
                24 * led,
                24 * led + 24,
            ),
            duty_zero,
            duty_one,
        ) == Some(color),
        with_pattern(s, led, pattern(color, duty_zero, duty_one)).subrange(
            24 * other,
            24 * other + 24,
        ) == s.subrange(24 * other, 24 * other + 24),
{
    let p = pattern(color, duty_zero, duty_one);
    let t = with_pattern(s, led, p);
    assert(t.subrange(24 * led, 24 * led + 24) =~= p);
    assert(t.subrange(24 * other, 24 * other + 24) =~= s.subrange(24 * other, 24 * other + 24));
    lemma_decode_encode(color, duty_zero, duty_one);
}

/// In the samples of a whole frame, the places of each LED decode to
/// its colour, and every sample after the last LED is zero.
pub proof fn lemma_frame_decodes(
    colors: Seq<Color>,
    duty_zero: u16,
    duty_one: u16,
    reset: int,
    led: int,
)
    requires
        duty_zero != duty_one,
        0 <= reset,
        0 <= led < colors.len(),
    ensures
        decoded(
            frame_samples(colors, duty_zero, duty_one, reset).subrange(24 * led, 24 * led + 24),
            duty_zero,
            duty_one,
        ) == Some(colors[led]),
        forall|i: int|
            24 * colors.len() <= i < 24 * colors.len() + reset ==> frame_samples(
                colors,
                duty_zero,
                duty_one,
                reset,
            )[i] == 0,
{
    let f = frame_samples(colors, duty_zero, duty_one, reset);
    let p = pattern(colors[led], duty_zero, duty_one);
    assert forall|i: int| 0 <= i < 24 implies f[24 * led + i] == p[i] by {
        assert((24 * led + i) / 24 == led);
        assert((24 * led + i) % 24 == i);
    }
    assert(f.subrange(24 * led, 24 * led + 24) =~= p);
    lemma_decode_encode(colors[led], duty_zero, duty_one);
}

} // verus!
