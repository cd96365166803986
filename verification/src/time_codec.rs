//! Elapsed time as the encoder reports it: either a bare decimal number of
//! seconds, or hours, minutes and seconds separated by colons.
//!
//! Reading never fails. A field that is not a decimal counts as zero, and a
//! text with two fields, or with more than three, reads as zero: one malformed
//! progress line must not end a session.

use vstd::prelude::*;
use vstd::utf8::{encode_utf8, is_ascii_chars, is_ascii_chars_encode_utf8};
use crate::decimal::{
    all_digits, decimal_micros, digits_value, fraction_micros, is_decimal, is_digit,
    lemma_number_with_fraction, lemma_whole_number, parse_decimal,
};
use crate::fixed::{saturate, saturate_wide, Fixed};

verus! {

/// The byte of the character `:`.
pub const COLON: u8 = 58;

/// The fields of `s` between the separators `sep`, in order. A text without
/// a separator is one field; two separators in a row hold an empty field.
pub open spec fn split_fields(s: Seq<u8>, sep: u8) -> Seq<Seq<u8>>
    decreases s.len(),
{
    if s.len() == 0 {
        seq![Seq::<u8>::empty()]
    } else {
        let before = split_fields(s.drop_last(), sep);
        if s.last() == sep {
            before.push(Seq::<u8>::empty())
        } else {
            before.drop_last().push(before.last().push(s.last()))
        }
    }
}

/// The contents of a list of byte vectors.
pub open spec fn field_views(fields: Seq<Vec<u8>>) -> Seq<Seq<u8>> {
    fields.map_values(|f: Vec<u8>| f@)
}

/// Millionths of a second that one field stands for: its value where it is a
/// decimal, zero where it is not.
pub open spec fn field_micros(field: Seq<u8>) -> int {
    if is_decimal(field) {
        decimal_micros(field)
    } else {
        0
    }
}

/// Millionths of a second that an elapsed-time text stands for.
pub open spec fn elapsed_micros(text: Seq<u8>) -> int {
    let fields = split_fields(text, 58);
    if fields.len() == 1 {
        field_micros(fields[0])
    } else if fields.len() == 3 {
        saturate(field_micros(fields[0]) * 3600 + field_micros(fields[1]) * 60 + field_micros(
            fields[2],
        ))
    } else {
        0
    }
}

/// Millionths of a second that an elapsed-time text stands for, read from
/// the bytes that encode it.
pub open spec fn elapsed_of(text: Seq<char>) -> int {
    elapsed_micros(encode_utf8(text))
}

/// The bytes of a text of ASCII characters: one for each character.
pub open spec fn ascii_bytes(text: Seq<char>) -> Seq<u8> {
    Seq::new(text.len(), |i: int| text[i] as u8)
}

/// A text of ASCII characters is read character by character.
pub proof fn lemma_elapsed_of_ascii(text: Seq<char>)
    requires
        is_ascii_chars(text),
    ensures
        elapsed_of(text) == elapsed_micros(ascii_bytes(text)),
{
    is_ascii_chars_encode_utf8(text);
    assert(encode_utf8(text) =~= ascii_bytes(text));
}

/// There is always at least one field.
pub proof fn lemma_split_nonempty(s: Seq<u8>, sep: u8)
    ensures
        split_fields(s, sep).len() >= 1,
    decreases s.len(),
{
    if s.len() > 0 {
        lemma_split_nonempty(s.drop_last(), sep);
    }
}

/// Bytes without a separator, put behind a text, lengthen its last field.
pub proof fn lemma_split_append(s: Seq<u8>, tail: Seq<u8>, sep: u8)
    requires
        !tail.contains(sep),
    ensures
        split_fields(s + tail, sep) == split_fields(s, sep).drop_last().push(
            split_fields(s, sep).last() + tail,
        ),
    decreases tail.len(),
{
    let fields = split_fields(s, sep);
    lemma_split_nonempty(s, sep);
    if tail.len() > 0 {
        let shorter = tail.drop_last();
        lemma_split_append(s, shorter, sep);
        assert((s + tail).drop_last() =~= s + shorter);
        let before = split_fields(s + shorter, sep);
        assert(before.last().push(tail.last()) =~= fields.last() + tail);
    }
}

/// A text without a separator is its own single field.
pub proof fn lemma_split_plain(s: Seq<u8>, sep: u8)
    requires
        !s.contains(sep),
    ensures
        split_fields(s, sep) == seq![s],
{
    lemma_split_append(Seq::<u8>::empty(), s, sep);
}

/// A separator followed by bytes without one starts a new field.
pub proof fn lemma_split_field(s: Seq<u8>, field: Seq<u8>, sep: u8)
    requires
        !field.contains(sep),
    ensures
        split_fields(s + seq![sep] + field, sep) == split_fields(s, sep).push(field),
{
    let cut = s + seq![sep];
    assert(cut.drop_last() =~= s);
    lemma_split_append(cut, field, sep);
}

/// A text without a colon stands for the decimal it writes, or for zero where
/// it writes none.
pub proof fn lemma_elapsed_of_seconds(text: Seq<u8>)
    requires
        !text.contains(58),
    ensures
        elapsed_micros(text) == field_micros(text),
{
    lemma_split_plain(text, 58);
}

/// Hours, minutes and seconds, separated by colons, stand for
/// `hours * 3600 + minutes * 60 + seconds`.
pub proof fn lemma_elapsed_of_clock(hours: Seq<u8>, minutes: Seq<u8>, seconds: Seq<u8>)
    requires
        !hours.contains(58),
        !minutes.contains(58),
        !seconds.contains(58),
    ensures
        elapsed_micros(hours + seq![58u8] + minutes + seq![58u8] + seconds) == saturate(
            field_micros(hours) * 3600 + field_micros(minutes) * 60 + field_micros(seconds),
        ),
{
    lemma_split_plain(hours, 58);
    lemma_split_field(hours, minutes, 58);
    lemma_split_field(hours + seq![58u8] + minutes, seconds, 58);
}

/// Digits hold no colon.
proof fn lemma_digits_hold_no_colon(digits: Seq<u8>)
    requires
        all_digits(digits),
    ensures
        !digits.contains(58),
{
    if digits.contains(58) {
        let i = choose|i: int| 0 <= i < digits.len() && digits[i] == 58;
        assert(is_digit(digits[i]));
    }
}

/// A clock time written in digits stands for the hours times 3600, the
/// minutes times 60, and the seconds with their fraction, in millionths.
pub proof fn lemma_clock_time(
    hours: Seq<u8>,
    minutes: Seq<u8>,
    seconds: Seq<u8>,
    fraction: Seq<u8>,
)
    requires
        all_digits(hours),
        all_digits(minutes),
        all_digits(seconds),
        all_digits(fraction),
        hours.len() > 0,
        minutes.len() > 0,
        seconds.len() > 0,
    ensures
        elapsed_micros(
            hours + seq![58u8] + minutes + seq![58u8] + (seconds + seq![46u8] + fraction),
        ) == saturate(
            saturate((digits_value(hours) * 1_000_000) as int) * 3600 + saturate(
                (digits_value(minutes) * 1_000_000) as int,
            ) * 60 + saturate(
                (digits_value(seconds) * 1_000_000 + fraction_micros(fraction)) as int,
            ),
        ),
{
    let last = seconds + seq![46u8] + fraction;
    lemma_digits_hold_no_colon(hours);
    lemma_digits_hold_no_colon(minutes);
    lemma_elapsed_of_clock(hours, minutes, last);
    lemma_whole_number(hours);
    lemma_whole_number(minutes);
    lemma_number_with_fraction(seconds, fraction);
}

/// Two fields stand for zero.
pub proof fn lemma_elapsed_of_two_fields(first: Seq<u8>, second: Seq<u8>)
    requires
        !first.contains(58),
        !second.contains(58),
    ensures
        elapsed_micros(first + seq![58u8] + second) == 0,
{
    lemma_split_plain(first, 58);
    lemma_split_field(first, second, 58);
}

/// More than three fields stand for zero.
pub proof fn lemma_elapsed_of_many_fields(text: Seq<u8>, third: Seq<u8>, last: Seq<u8>)
    requires
        split_fields(text, 58).len() >= 2,
        !third.contains(58),
        !last.contains(58),
    ensures
        elapsed_micros(text + seq![58u8] + third + seq![58u8] + last) == 0,
{
    lemma_split_field(text, third, 58);
    lemma_split_field(text + seq![58u8] + third, last, 58);
}

/// Splits `bytes` at every `sep`.
pub fn split_on(bytes: &[u8], sep: u8) -> (fields: Vec<Vec<u8>>)
    ensures
        field_views(fields@) == split_fields(bytes@, sep),
{
    let mut done: Vec<Vec<u8>> = Vec::new();
    let mut current: Vec<u8> = Vec::new();
    let mut i: usize = 0;
    while i < bytes.len()
        invariant
            i <= bytes.len(),
            field_views(done@).push(current@) == split_fields(bytes@.take(i as int), sep),
        decreases bytes.len() - i,
    {
        assert(bytes@.take(i + 1).drop_last() =~= bytes@.take(i as int));
        let b: u8 = bytes[i];
        if b == sep {
            done.push(current);
            current = Vec::new();
        } else {
            current.push(b);
        }
        i += 1;
    }
    assert(bytes@.take(bytes.len() as int) =~= bytes@);
    done.push(current);
    done
}

/// The value of one field: what it writes as a decimal, or zero.
pub fn field_value(field: &[u8]) -> (r: Fixed)
    ensures
        r@ == field_micros(field@),
{
    match parse_decimal(field) {
        Some(v) => v,
        None => Fixed::zero(),
    }
}

/// Reads an elapsed time, in seconds, from the encoder's text.
pub fn parse_time_to_seconds(time_str: &str) -> (r: Fixed)
    ensures
        r@ == elapsed_of(time_str@),
{
    let fields = split_on(time_str.as_bytes(), COLON);
    if fields.len() == 1 {
        field_value(fields[0].as_slice())
    } else if fields.len() == 3 {
        let hours: Fixed = field_value(fields[0].as_slice());
        let minutes: Fixed = field_value(fields[1].as_slice());
        let seconds: Fixed = field_value(fields[2].as_slice());
        let total: i128 = hours.micros as i128 * 3600 + minutes.micros as i128 * 60
            + seconds.micros as i128;
        Fixed { micros: saturate_wide(total) }
    } else {
        Fixed::zero()
    }
}

} // verus!
