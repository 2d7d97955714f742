//! Fill colours: how one is drawn at random, and how it is written out for
//! the canvas.

use rand::rngs::ThreadRng;
use rand::Rng;
use vstd::prelude::*;

verus! {

/// The generator that `rand::thread_rng` hands out. Nothing is known of its
/// state.
#[verifier::external_type_specification]
#[verifier::external_body]
pub struct ExThreadRng(rand::rngs::ThreadRng);

/// `rand::thread_rng` gives a handle to the calling thread's generator.
/// Nothing is claimed of the handle. The generator is seeded from the
/// system on a thread's first call and again from time to time; `rand`
/// panics where the system has no entropy to give, which no precondition
/// can rule out.
pub assume_specification[ rand::thread_rng ]() -> (rng: ThreadRng)
;

/// `Rng::gen_range` on the half-open range `low..high` of `u8`: the sample is
/// at least `low` and less than `high`. Nothing is claimed of how the samples
/// are spread. `rand` panics on an empty range, which the precondition
/// leaves out.
#[verifier::external_body]
fn sample_below(rng: &mut ThreadRng, low: u8, high: u8) -> (n: u8)
    requires
        low < high,
    ensures
        low <= n < high,
{
    rng.gen_range(low..high)
}

/// The end of the range that a channel is sampled from: every sampled
/// channel is below it, so the brightest value, 255, is never drawn.
pub const CHANNEL_END: u8 = 255;

/// A fill colour of three 8-bit channels.
#[derive(Clone, Copy, Debug, PartialEq, Eq, Structural)]
pub struct Color {
    pub r: u8,
    pub g: u8,
    pub b: u8,
}

impl Color {
    /// Whether sampling can give this colour: every channel lies in
    /// `0..CHANNEL_END`.
    pub open spec fn is_sample(self) -> bool {
        self.r < CHANNEL_END && self.g < CHANNEL_END && self.b < CHANNEL_END
    }

    /// Draws a colour: three samples from the generator, one per channel, in
    /// the order red, green, blue, put together by [`Color::from_samples`].
    /// Which colour comes out is the generator's choice; only its range is
    /// known.
    pub fn random(rng: &mut ThreadRng) -> (color: Color)
        ensures
            color.is_sample(),
    {
        let r = sample_below(rng, 0, CHANNEL_END);
        let g = sample_below(rng, 0, CHANNEL_END);
        let b = sample_below(rng, 0, CHANNEL_END);
        Color::from_samples(r, g, b)
    }

    /// The colour of three samples: the first is its red, the second its
    /// green, the third its blue.
    pub fn from_samples(first: u8, second: u8, third: u8) -> (color: Color)
        ensures
            color.r == first,
            color.g == second,
            color.b == third,
    {
        Color { r: first, g: second, b: third }
    }

    /// The colour as the canvas reads it, see [`fill_style`].
    pub open spec fn style(self) -> Seq<char> {
        fill_style(self.r as nat, self.g as nat, self.b as nat)
    }

    /// Writes the colour out as `rgb(r, g, b)`, each channel in decimal.
    pub fn to_style(&self) -> (text: String)
        ensures
            text@ == self.style(),
    {
        proof {
            reveal_strlit("rgb(");
            reveal_strlit(", ");
            reveal_strlit(")");
        }
        let mut text = String::from_str("rgb(");
        assert(text@ =~= seq!['r', 'g', 'b', '(']);
        append_decimal(&mut text, self.r);
        text.append(", ");
        append_decimal(&mut text, self.g);
        text.append(", ");
        append_decimal(&mut text, self.b);
        text.append(")");
        assert(", "@ =~= seq![',', ' ']);
        assert(")"@ =~= seq![')']);
        text
    }
}

/// The character of one decimal digit.
pub open spec fn digit(d: nat) -> char {
    if d == 0 {
        '0'
    } else if d == 1 {
        '1'
    } else if d == 2 {
        '2'
    } else if d == 3 {
        '3'
    } else if d == 4 {
        '4'
    } else if d == 5 {
        '5'
    } else if d == 6 {
        '6'
    } else if d == 7 {
        '7'
    } else if d == 8 {
        '8'
    } else {
        '9'
    }
}

/// A number in decimal, without leading zeros.
pub open spec fn decimal(n: nat) -> Seq<char>
    decreases n,
{
    if n < 10 {
        seq![digit(n)]
    } else {
        decimal(n / 10).push(digit(n % 10))
    }
}

/// The text `rgb(r, g, b)`.
pub open spec fn fill_style(r: nat, g: nat, b: nat) -> Seq<char> {
    seq!['r', 'g', 'b', '('] + decimal(r) + seq![',', ' '] + decimal(g) + seq![',', ' ']
        + decimal(b) + seq![')']
}

fn digit_text(d: u8) -> (text: &'static str)
    requires
        d < 10,
    ensures
        text@ == seq![digit(d as nat)],
{
    proof {
        reveal_strlit("0");
        reveal_strlit("1");
        reveal_strlit("2");
        reveal_strlit("3");
        reveal_strlit("4");
        reveal_strlit("5");
        reveal_strlit("6");
        reveal_strlit("7");
        reveal_strlit("8");
        reveal_strlit("9");
    }
    let text = if d == 0 {
        "0"
    } else if d == 1 {
        "1"
    } else if d == 2 {
        "2"
    } else if d == 3 {
        "3"
    } else if d == 4 {
        "4"
    } else if d == 5 {
        "5"
    } else if d == 6 {
        "6"
    } else if d == 7 {
        "7"
    } else if d == 8 {
        "8"
    } else {
        "9"
    };
    assert(text@ =~= seq![digit(d as nat)]);
    text
}

fn append_decimal(text: &mut String, n: u8)
    ensures
        final(text)@ == old(text)@ + decimal(n as nat),
{
    reveal_with_fuel(decimal, 3);
    if n >= 100 {
        text.append(digit_text(n / 100));
    }
    if n >= 10 {
        text.append(digit_text(n / 10 % 10));
    }
    text.append(digit_text(n % 10));
    assert(text@ =~= old(text)@ + decimal(n as nat));
}

} // verus!
