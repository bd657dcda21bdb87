//! Text of the readouts, composed in buffers of a fixed number of bytes.

use crate::error::ErrorKind;
use heapless::CapacityError;
use vstd::prelude::*;
use vstd::utf8::encode_utf8;
use vstd::utf8::is_ascii_chars;
use vstd::utf8::is_ascii_chars_encode_utf8;

verus! {

/// Bytes that one readout may take.
pub const LABEL_BYTES: usize = 16;

/// A `heapless::String` of `LABEL_BYTES` bytes. The verifier cannot name the
/// storage inside it, so it knows the buffer by `buffer_text` alone.
#[verifier::external_body]
pub struct LabelBuffer {
    inner: heapless::String<16>,
}

/// `heapless::CapacityError`, which a full buffer answers with.
#[verifier::external_type_specification]
#[verifier::external_body]
pub struct ExCapacityError(CapacityError);

/// The characters that a buffer holds.
pub uninterp spec fn buffer_text(buffer: LabelBuffer) -> Seq<char>;

/// The number of bytes that `text` takes in UTF-8.
pub open spec fn byte_len(text: Seq<char>) -> nat {
    encode_utf8(text).len()
}

/// `text` is short enough for a readout.
pub open spec fn fits(text: Seq<char>) -> bool {
    byte_len(text) <= LABEL_BYTES
}

/// `heapless::String::new`: a buffer without text.
#[verifier::external_body]
fn buffer_new() -> (buffer: LabelBuffer)
    ensures
        buffer_text(buffer) == Seq::<char>::empty(),
{
    LabelBuffer { inner: heapless::String::new() }
}

/// `heapless::String::push_str`: where the bytes of `piece` still fit beside
/// those held, `piece` is appended; where they do not, the buffer keeps its
/// text and the call fails.
#[verifier::external_body]
fn buffer_push_str(buffer: &mut LabelBuffer, piece: &str) -> (pushed: Result<(), CapacityError>)
    ensures
        byte_len(buffer_text(*old(buffer))) + byte_len(piece@) <= 16 ==> pushed.is_ok()
            && buffer_text(*final(buffer)) == buffer_text(*old(buffer)) + piece@,
        byte_len(buffer_text(*old(buffer))) + byte_len(piece@) > 16 ==> pushed.is_err()
            && buffer_text(*final(buffer)) == buffer_text(*old(buffer)),
{
    buffer.inner.push_str(piece)
}

/// `heapless::String::as_str`, copied into a `String`: the text held.
#[verifier::external_body]
fn buffer_to_string(buffer: &LabelBuffer) -> (text: String)
    ensures
        text@ == buffer_text(*buffer),
{
    buffer.inner.as_str().to_owned()
}

/// The decimal digit of `d`, for `d` below ten.
pub open spec fn digit(d: nat) -> char {
    if d == 0 {
        '0'
    } else if d == 1 {
        '1'
    } else if d == 2 {
        '2'
    } else if d == 3 {
        '3'
    } else if d == 4 {
        '4'
    } else if d == 5 {
        '5'
    } else if d == 6 {
        '6'
    } else if d == 7 {
        '7'
    } else if d == 8 {
        '8'
    } else {
        '9'
    }
}

/// `n` written in decimal, without sign or leading zeros.
pub open spec fn decimal(n: nat) -> Seq<char>
    decreases n,
{
    if n < 10 {
        seq![digit(n)]
    } else {
        decimal(n / 10).push(digit(n % 10))
    }
}

/// `format!` with `{}` on a `u16`, which is its `Display`: the number in
/// decimal, without sign or leading zeros.
#[verifier::external_body]
fn decimal_text(value: u16) -> (text: String)
    ensures
        text@ == decimal(value as nat),
{
    format!("{}", value)
}

/// Ten to the power of `k`.
pub open spec fn pow10(k: nat) -> nat
    decreases k,
{
    if k == 0 {
        1
    } else {
        10 * pow10((k - 1) as nat)
    }
}

/// A number below ten to the `k` has at most `k` digits, all of them ASCII.
pub proof fn lemma_decimal_digits(n: nat, k: nat)
    requires
        k >= 1,
        n < pow10(k),
    ensures
        1 <= decimal(n).len() <= k,
        is_ascii_chars(decimal(n)),
    decreases n,
{
    if n >= 10 {
        if k == 1 {
            assert(pow10(1) == 10) by {
                reveal_with_fuel(pow10, 2);
            }
        }
        lemma_decimal_digits(n / 10, (k - 1) as nat);
    }
}

/// The bytes of two texts in a row are those of the first and those of the
/// second.
pub proof fn lemma_byte_len_concat(a: Seq<char>, b: Seq<char>)
    ensures
        byte_len(a + b) == byte_len(a) + byte_len(b),
    decreases a.len(),
{
    if a.len() == 0 {
        assert(a + b =~= b);
    } else {
        assert((a + b).drop_first() =~= a.drop_first() + b);
        lemma_byte_len_concat(a.drop_first(), b);
    }
}

/// `prefix`, `body` and `suffix` in a row.
pub open spec fn joined(prefix: Seq<char>, body: Seq<char>, suffix: Seq<char>) -> Seq<char> {
    prefix + body + suffix
}

/// Composes a readout from its three parts. It fails with `FormatOverflow`
/// exactly where the parts together take more than `LABEL_BYTES` bytes.
pub fn compose_label(prefix: &str, body: &str, suffix: &str) -> (label: Result<String, ErrorKind>)
    ensures
        fits(joined(prefix@, body@, suffix@)) ==> label.is_ok() && label.unwrap()@ == joined(
            prefix@,
            body@,
            suffix@,
        ),
        !fits(joined(prefix@, body@, suffix@)) ==> label == Err::<String, ErrorKind>(
            ErrorKind::FormatOverflow,
        ),
{
    proof {
        lemma_byte_len_concat(prefix@, body@);
        lemma_byte_len_concat(prefix@ + body@, suffix@);
        assert(Seq::<char>::empty() + prefix@ =~= prefix@);
        assert(byte_len(Seq::<char>::empty()) == 0);
    }
    let mut buffer = buffer_new();
    match buffer_push_str(&mut buffer, prefix) {
        Ok(()) => {},
        Err(_) => {
            return Err(ErrorKind::FormatOverflow);
        },
    }
    match buffer_push_str(&mut buffer, body) {
        Ok(()) => {},
        Err(_) => {
            return Err(ErrorKind::FormatOverflow);
        },
    }
    match buffer_push_str(&mut buffer, suffix) {
        Ok(()) => {},
        Err(_) => {
            return Err(ErrorKind::FormatOverflow);
        },
    }
    Ok(buffer_to_string(&buffer))
}

/// The readout of a CO2 concentration.
pub open spec fn co2_text(co2: u16) -> Seq<char> {
    joined("CO2: "@, decimal(co2 as nat), " ppm"@)
}

/// The readout of a temperature that is written as `shown`.
pub open spec fn temperature_text(shown: Seq<char>) -> Seq<char> {
    joined("Temp: "@, shown, " C"@)
}

/// The readout of a relative humidity that is written as `shown`.
pub open spec fn humidity_text(shown: Seq<char>) -> Seq<char> {
    joined("RH: "@, shown, " %"@)
}

/// Every CO2 readout fits its buffer.
pub proof fn lemma_co2_text_fits(co2: u16)
    ensures
        fits(co2_text(co2)),
{
    reveal_strlit("CO2: ");
    reveal_strlit(" ppm");
    reveal_with_fuel(pow10, 6);
    lemma_decimal_digits(co2 as nat, 5);
    let text = co2_text(co2);
    assert(is_ascii_chars(text));
    is_ascii_chars_encode_utf8(text);
}

/// The readout of a CO2 concentration in parts per million.
pub fn co2_label(co2: u16) -> (label: Result<String, ErrorKind>)
    ensures
        label.is_ok(),
        label.unwrap()@ == co2_text(co2),
{
    let digits = decimal_text(co2);
    proof {
        lemma_co2_text_fits(co2);
    }
    compose_label("CO2: ", digits.as_str(), " ppm")
}

/// The readout of a temperature in degrees Celsius, where `shown` is the
/// value as it is to be read. It fails with `FormatOverflow` exactly where
/// the readout takes more than `LABEL_BYTES` bytes.
pub fn temperature_label(shown: &str) -> (label: Result<String, ErrorKind>)
    ensures
        fits(temperature_text(shown@)) ==> label.is_ok() && label.unwrap()@ == temperature_text(
            shown@,
        ),
        !fits(temperature_text(shown@)) ==> label == Err::<String, ErrorKind>(
            ErrorKind::FormatOverflow,
        ),
{
    compose_label("Temp: ", shown, " C")
}

/// The readout of a relative humidity in percent, where `shown` is the
/// value as it is to be read. It fails with `FormatOverflow` exactly where
/// the readout takes more than `LABEL_BYTES` bytes.
pub fn humidity_label(shown: &str) -> (label: Result<String, ErrorKind>)
    ensures
        fits(humidity_text(shown@)) ==> label.is_ok() && label.unwrap()@ == humidity_text(shown@),
        !fits(humidity_text(shown@)) ==> label == Err::<String, ErrorKind>(
            ErrorKind::FormatOverflow,
        ),
{
    compose_label("RH: ", shown, " %")
}

} // verus!
