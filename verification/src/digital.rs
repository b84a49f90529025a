use vstd::prelude::*;

verus! {

/// Direction of a digital pin: bits `[0, channels)` of a frame's word
/// carry one direction bit per channel.
#[derive(Debug, Clone, Copy, PartialEq, Eq, Structural)]
pub enum DigitalDirection {
    Input,
    Output,
}

/// True when bit `bit` of `word` is set.
pub open spec fn bit_set(word: u32, bit: u32) -> bool
    recommends
        bit < 32,
{
    word & (1u32 << bit) != 0
}

/// The value/level bit of `channel` in one frame's word: bit `channel + 16`.
pub open spec fn value_bit(word: u32, channel: u32) -> bool
    recommends
        channel < 16,
{
    bit_set(word, (channel + 16) as u32)
}

/// The direction bit of `channel` in one frame's word: bit `channel`,
/// set for `Input`, clear for `Output`.
pub open spec fn direction_is_input(word: u32, channel: u32) -> bool
    recommends
        channel < 16,
{
    bit_set(word, channel)
}

/// One frame's word with the value bit of `channel` set to `value`
/// and every other bit kept.
pub open spec fn with_value_bit(word: u32, channel: u32, value: bool) -> u32
    recommends
        channel < 16,
{
    if value {
        word | (1u32 << ((channel + 16) as u32))
    } else {
        word & !(1u32 << ((channel + 16) as u32))
    }
}

/// One frame's word with the direction bit of `channel` set (`Input`)
/// or cleared (`Output`) and every other bit kept.
pub open spec fn with_direction_raw(word: u32, channel: u32, input: bool) -> u32
    recommends
        channel < 16,
{
    if input {
        word | (1u32 << channel)
    } else {
        word & !(1u32 << channel)
    }
}

/// One frame's word with the direction bit of `channel` set to `mode`
/// and every other bit kept.
pub open spec fn with_direction_bit(word: u32, channel: u32, mode: DigitalDirection) -> u32
    recommends
        channel < 16,
{
    with_direction_raw(word, channel, mode is Input)
}

/// Writing a value bit lands on its own channel and leaves every other
/// value bit and every direction bit as it was.
pub proof fn lemma_with_value_bit(word: u32, channel: u32, value: bool, other: u32)
    by (bit_vector)
    requires
        channel < 16,
        other < 16,
    ensures
        value_bit(with_value_bit(word, channel, value), channel) == value,
        other != channel ==> value_bit(with_value_bit(word, channel, value), other) == value_bit(
            word,
            other,
        ),
        direction_is_input(with_value_bit(word, channel, value), other) == direction_is_input(
            word,
            other,
        ),
{
}

proof fn lemma_with_direction_raw(word: u32, channel: u32, input: bool, other: u32)
    by (bit_vector)
    requires
        channel < 16,
        other < 16,
    ensures
        direction_is_input(with_direction_raw(word, channel, input), channel) == input,
        other != channel ==> direction_is_input(with_direction_raw(word, channel, input), other)
            == direction_is_input(word, other),
        value_bit(with_direction_raw(word, channel, input), other) == value_bit(word, other),
{
}

/// Writing a direction bit lands on its own channel and leaves every
/// other direction bit and every value bit as it was.
pub proof fn lemma_with_direction_bit(
    word: u32,
    channel: u32,
    mode: DigitalDirection,
    other: u32,
)
    requires
        channel < 16,
        other < 16,
    ensures
        direction_is_input(with_direction_bit(word, channel, mode), channel) == (
        mode is Input),
        other != channel ==> direction_is_input(with_direction_bit(word, channel, mode), other)
            == direction_is_input(word, other),
        value_bit(with_direction_bit(word, channel, mode), other) == value_bit(word, other),
{
    lemma_with_direction_raw(word, channel, mode is Input, other);
}

/// Two channels of one frame's word do not cross-talk: after making
/// `out` an output driven high and `inp` an input, the word reads back
/// exactly what each channel was given — `out` high and an output,
/// `inp` an input with its value bit untouched.
pub proof fn lemma_same_frame_independent(word: u32, out: u32, inp: u32)
    requires
        out < 16,
        inp < 16,
        out != inp,
    ensures
        ({
            let configured = with_direction_bit(
                with_value_bit(with_direction_bit(word, out, DigitalDirection::Output), out, true),
                inp,
                DigitalDirection::Input,
            );
            &&& value_bit(configured, out)
            &&& !direction_is_input(configured, out)
            &&& direction_is_input(configured, inp)
            &&& value_bit(configured, inp) == value_bit(word, inp)
        }),
{
    let w1 = with_direction_bit(word, out, DigitalDirection::Output);
    let w2 = with_value_bit(w1, out, true);
    let w3 = with_direction_bit(w2, inp, DigitalDirection::Input);
    lemma_with_direction_bit(word, out, DigitalDirection::Output, out);
    lemma_with_direction_bit(word, out, DigitalDirection::Output, inp);
    lemma_with_value_bit(w1, out, true, out);
    lemma_with_value_bit(w1, out, true, inp);
    lemma_with_direction_bit(w2, inp, DigitalDirection::Input, inp);
    lemma_with_direction_bit(w2, inp, DigitalDirection::Input, out);
}

} // verus!
