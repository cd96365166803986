//! Backgrounds of one colour: reading the colour, naming the image file, and
//! filling the image.

use vstd::prelude::*;
use vstd::slice::slice_subrange;
use vstd::string::StringExecFns;
use crate::text::{append_unsigned, decimal_digits};

verus! {

/// The byte of the character `#`.
pub const HASH: u8 = 35;

/// Why a text is no colour.
#[derive(Clone, Copy, Debug, PartialEq, Eq, Structural)]
pub enum ColorError {
    /// A channel is cut short: the text ends before its second character.
    TooShort,
    /// A channel is not a number in base sixteen.
    InvalidDigit,
}

/// A colour: its red, green and blue channel.
#[derive(Clone, Copy, Debug, PartialEq, Eq, Structural)]
pub struct Color {
    pub red: u8,
    pub green: u8,
    pub blue: u8,
}

/// The number that a digit of base sixteen writes, in either case.
pub open spec fn hex_value(b: u8) -> Option<int> {
    if 48 <= b <= 57 {
        Some(b - 48)
    } else if 97 <= b <= 102 {
        Some(b - 87)
    } else if 65 <= b <= 70 {
        Some(b - 55)
    } else {
        None
    }
}

/// The number that the two characters of a channel write: two digits, or a
/// plus sign and one digit.
pub open spec fn channel_value(first: u8, second: u8) -> Option<int> {
    match (hex_value(first), hex_value(second)) {
        (Some(high), Some(low)) => Some(16 * high + low),
        (None, Some(low)) => if first == 43 {
            Some(low)
        } else {
            None
        },
        _ => None,
    }
}

/// The number of `#` that `s` starts with.
pub open spec fn leading_hashes(s: Seq<u8>) -> nat
    decreases s.len(),
{
    if s.len() > 0 && s[0] == 35 {
        1 + leading_hashes(s.drop_first())
    } else {
        0
    }
}

/// The channel of `body` that starts at `at`.
pub open spec fn channel_at(body: Seq<u8>, at: int) -> Result<int, ColorError> {
    if body.len() < at + 2 {
        Err(ColorError::TooShort)
    } else {
        match channel_value(body[at], body[at + 1]) {
            Some(v) => Ok(v),
            None => Err(ColorError::InvalidDigit),
        }
    }
}

/// The colour that the text `s` writes: after any number of `#`, two
/// characters each for red, green and blue. The first channel that fails
/// decides the error. What follows the blue channel is not read.
pub open spec fn color_of(s: Seq<u8>) -> Result<Color, ColorError> {
    let body = s.skip(leading_hashes(s) as int);
    match channel_at(body, 0) {
        Err(e) => Err(e),
        Ok(red) => match channel_at(body, 2) {
            Err(e) => Err(e),
            Ok(green) => match channel_at(body, 4) {
                Err(e) => Err(e),
                Ok(blue) => Ok(Color { red: red as u8, green: green as u8, blue: blue as u8 }),
            },
        },
    }
}

/// The text of a colour error.
pub open spec fn color_error_text(error: ColorError) -> Seq<char> {
    match error {
        ColorError::TooShort => "Invalid color: a channel is cut short"@,
        ColorError::InvalidDigit => "Invalid color: invalid digit found in string"@,
    }
}

/// The name of the image file that is made at the time `timestamp`.
pub open spec fn solid_color_name(timestamp: nat) -> Seq<char> {
    "solid_color_"@ + decimal_digits(timestamp) + ".png"@
}

/// The channel of the byte at index `i` of an image of one colour.
pub open spec fn channel_of(color: Color, i: int) -> u8 {
    if i % 3 == 0 {
        color.red
    } else if i % 3 == 1 {
        color.green
    } else {
        color.blue
    }
}

/// The bytes of an image of one colour: red, green and blue for every pixel.
pub open spec fn solid_bytes(pixels: nat, color: Color) -> Seq<u8> {
    Seq::new(pixels * 3, |i: int| channel_of(color, i))
}

/// A run of `#` that ends at `k`, where `s` ends or goes on with another
/// byte, is the run that `s` starts with.
pub proof fn lemma_leading_hashes(s: Seq<u8>, k: int)
    requires
        0 <= k <= s.len(),
        forall|i: int| 0 <= i < k ==> s[i] == 35,
        k == s.len() || s[k] != 35,
    ensures
        leading_hashes(s) == k,
    decreases k,
{
    if k > 0 {
        let t = s.drop_first();
        lemma_leading_hashes(t, k - 1);
    }
}

impl ColorError {
    /// The text that reaches the caller.
    pub fn message(self) -> (r: String)
        ensures
            r@ == color_error_text(self),
    {
        match self {
            ColorError::TooShort => String::from_str("Invalid color: a channel is cut short"),
            ColorError::InvalidDigit => String::from_str(
                "Invalid color: invalid digit found in string",
            ),
        }
    }
}

/// The number of a digit of base sixteen.
pub fn hex_digit(b: u8) -> (r: Option<u8>)
    ensures
        match r {
            Some(v) => hex_value(b) == Some(v as int),
            None => hex_value(b) is None,
        },
{
    if b >= 48 && b <= 57 {
        Some(b - 48)
    } else if b >= 97 && b <= 102 {
        Some(b - 87)
    } else if b >= 65 && b <= 70 {
        Some(b - 55)
    } else {
        None
    }
}

/// Reads the channel of `body` that starts at `at`.
pub fn read_channel(body: &[u8], at: usize) -> (r: Result<u8, ColorError>)
    ensures
        match r {
            Ok(v) => channel_at(body@, at as int) == Ok::<int, ColorError>(v as int),
            Err(e) => channel_at(body@, at as int) == Err::<int, ColorError>(e),
        },
{
    if body.len() < 2 || at > body.len() - 2 {
        return Err(ColorError::TooShort);
    }
    let first: u8 = body[at];
    let second: u8 = body[at + 1];
    match hex_digit(second) {
        None => Err(ColorError::InvalidDigit),
        Some(low) => match hex_digit(first) {
            Some(high) => Ok(16 * high + low),
            None => if first == 43 {
                Ok(low)
            } else {
                Err(ColorError::InvalidDigit)
            },
        },
    }
}

/// Reads a colour such as `#1e90ff`.
pub fn parse_hex_color(color: &[u8]) -> (r: Result<Color, ColorError>)
    ensures
        r == color_of(color@),
{
    let mut start: usize = 0;
    let mut stopped = false;
    while start < color.len() && !stopped
        invariant
            start <= color.len(),
            forall|i: int| 0 <= i < start ==> color@[i] == 35,
            stopped ==> start < color.len() && color@[start as int] != 35,
        decreases color.len() - start + (if stopped { 0int } else { 1int }),
    {
        if color[start] == HASH {
            start += 1;
        } else {
            stopped = true;
        }
    }
    proof {
        lemma_leading_hashes(color@, start as int);
    }
    let body = slice_subrange(color, start, color.len());
    let red = match read_channel(body, 0) {
        Ok(v) => v,
        Err(e) => {
            return Err(e);
        },
    };
    let green = match read_channel(body, 2) {
        Ok(v) => v,
        Err(e) => {
            return Err(e);
        },
    };
    let blue = match read_channel(body, 4) {
        Ok(v) => v,
        Err(e) => {
            return Err(e);
        },
    };
    Ok(Color { red, green, blue })
}

/// The name of the image file that is made at the time `timestamp`, in
/// seconds.
pub fn solid_color_file_name(timestamp: u64) -> (r: String)
    ensures
        r@ == solid_color_name(timestamp as nat),
{
    let mut name = String::from_str("solid_color_");
    append_unsigned(&mut name, timestamp as u128);
    name.append(".png");
    name
}

/// The bytes of an image of one colour, pixel by pixel. `None` where the
/// image would hold more bytes than can be addressed.
pub fn solid_pixels(width: u32, height: u32, color: Color) -> (r: Option<Vec<u8>>)
    ensures
        r is Some <==> width * height * 3 <= usize::MAX,
        r matches Some(bytes) ==> bytes@ == solid_bytes((width * height) as nat, color),
{
    assert(width * height <= 0xffff_ffff * 0xffff_ffff) by (nonlinear_arith)
        requires
            width <= 0xffff_ffff,
            height <= 0xffff_ffff,
    ;
    let wanted: u128 = width as u128 * height as u128 * 3;
    if wanted > usize::MAX as u128 {
        return None;
    }
    let count: usize = wanted as usize;
    let mut bytes: Vec<u8> = Vec::new();
    let mut i: usize = 0;
    while i < count
        invariant
            i <= count,
            i % 3 == 0,
            count % 3 == 0,
            bytes@.len() == i,
            forall|j: int| 0 <= j < i ==> bytes@[j] == channel_of(color, j),
        decreases count - i,
    {
        bytes.push(color.red);
        bytes.push(color.green);
        bytes.push(color.blue);
        i += 3;
    }
    Some(bytes)
}

} // verus!
