use crate::vad_error::{ErrorType, ParseErr};
use base64::Engine;
use vstd::prelude::*;

verus! {

/// Why standard base64 decoding failed, with the positions and bytes the
/// decoder reports.
#[derive(Debug, Clone, Copy, PartialEq, Eq, Structural)]
pub enum Base64Failure {
    /// A byte that is not a base64 symbol, at an offset.
    InvalidByte(usize, u8),
    /// An input whose count of symbols cannot end a base64 quad.
    InvalidLength(usize),
    /// A last symbol with nonzero bits that would be discarded, at an offset.
    InvalidLastSymbol(usize, u8),
    /// Padding that is absent, misplaced or not canonical.
    InvalidPadding,
}

/// What standard base64 (RFC 4648 alphabet, canonical padding) decodes the
/// UTF-8 encoding of `input` to: the bytes, or why it is not valid base64.
pub uninterp spec fn base64_standard_decode(input: Seq<char>) -> Result<Seq<u8>, Base64Failure>;

/// The symbol of a 6-bit value in the standard base64 alphabet (RFC 4648,
/// table 1): `A`-`Z`, `a`-`z`, `0`-`9`, then `+` and `/`.
pub open spec fn standard_symbol(v: int) -> char {
    if v < 26 {
        ('A' as int + v) as char
    } else if v < 52 {
        ('a' as int + (v - 26)) as char
    } else if v < 62 {
        ('0' as int + (v - 52)) as char
    } else if v == 62 {
        '+'
    } else {
        '/'
    }
}

/// The standard base64 encoding of `b` with canonical padding (RFC 4648,
/// section 4): each three bytes become four symbols, a last group of one or
/// two bytes becomes two or three symbols padded with `=` to four.
pub open spec fn standard_encode(b: Seq<u8>) -> Seq<char>
    decreases b.len(),
{
    if b.len() == 0 {
        Seq::empty()
    } else if b.len() == 1 {
        seq![standard_symbol(b[0] as int / 4), standard_symbol((b[0] % 4) * 16), '=', '=']
    } else if b.len() == 2 {
        seq![
            standard_symbol(b[0] as int / 4),
            standard_symbol((b[0] % 4) * 16 + b[1] / 16),
            standard_symbol((b[1] % 16) * 4),
            '=',
        ]
    } else {
        seq![
            standard_symbol(b[0] as int / 4),
            standard_symbol((b[0] % 4) * 16 + b[1] / 16),
            standard_symbol((b[1] % 16) * 4 + b[2] / 64),
            standard_symbol(b[2] as int % 64),
        ] + standard_encode(b.subrange(3, b.len() as int))
    }
}

/// Decodes `input` with `base64::engine::general_purpose::STANDARD.decode`.
/// Trusted: the bytes on success, and on failure the variant and fields of
/// the `base64::DecodeError`, are those that `base64_standard_decode` names
/// for the input; the decoding itself is not restated beyond this: the
/// standard padded encoding of any bytes decodes back to those bytes, as the
/// crate documents for its RFC 4648 `STANDARD` engine.
#[verifier::external_body]
fn standard_decode(input: &String) -> (r: Result<Vec<u8>, Base64Failure>)
    ensures
        base64_standard_decode(input@) == match r {
            Ok(v) => Ok::<Seq<u8>, Base64Failure>(v@),
            Err(f) => Err::<Seq<u8>, Base64Failure>(f),
        },
        forall|b: Seq<u8>|
            #[trigger] standard_encode(b) == input@ ==> match r {
                Ok(v) => v@ == b,
                Err(_) => false,
            },
{
    match base64::engine::general_purpose::STANDARD.decode(input) {
        Ok(v) => Ok(v),
        Err(base64::DecodeError::InvalidByte(i, b)) => Err(Base64Failure::InvalidByte(i, b)),
        Err(base64::DecodeError::InvalidLength(n)) => Err(Base64Failure::InvalidLength(n)),
        Err(base64::DecodeError::InvalidLastSymbol(i, b)) => Err(Base64Failure::InvalidLastSymbol(i, b)),
        Err(base64::DecodeError::InvalidPadding) => Err(Base64Failure::InvalidPadding),
    }
}

/// The character of a decimal digit.
pub open spec fn digit_char(d: nat) -> char {
    if d == 0 { '0' } else if d == 1 { '1' } else if d == 2 { '2' } else if d == 3 { '3' }
    else if d == 4 { '4' } else if d == 5 { '5' } else if d == 6 { '6' } else if d == 7 { '7' }
    else if d == 8 { '8' } else { '9' }
}

/// The decimal digits of `n`, most significant first, without leading zeros.
pub open spec fn decimal(n: nat) -> Seq<char>
    decreases n,
{
    if n < 10 {
        seq![digit_char(n)]
    } else {
        decimal(n / 10).push(digit_char(n % 10))
    }
}

/// How a decoding failure is shown: `Invalid symbol {byte}, offset {index}.`,
/// `Invalid input length: {len}`, `Invalid last symbol {byte}, offset {index}.`
/// or `Invalid padding`, with the numbers in decimal.
pub open spec fn failure_text(f: Base64Failure) -> Seq<char> {
    match f {
        Base64Failure::InvalidByte(i, b) => "Invalid symbol "@ + decimal(b as nat) + ", offset "@
            + decimal(i as nat) + "."@,
        Base64Failure::InvalidLength(n) => "Invalid input length: "@ + decimal(n as nat),
        Base64Failure::InvalidLastSymbol(i, b) => "Invalid last symbol "@ + decimal(b as nat)
            + ", offset "@ + decimal(i as nat) + "."@,
        Base64Failure::InvalidPadding => "Invalid padding"@,
    }
}

/// The message of a failed base64 decoding: `parse base64 error because {why} TAT`.
pub open spec fn base64_failure_message(f: Base64Failure) -> Seq<char> {
    "parse base64 error because "@ + failure_text(f) + " TAT"@
}

fn digit_str(d: usize) -> (r: &'static str)
    requires
        d < 10,
    ensures
        r@ == seq![digit_char(d as nat)],
{
    let r = if d == 0 { "0" } else if d == 1 { "1" } else if d == 2 { "2" } else if d == 3 { "3" }
        else if d == 4 { "4" } else if d == 5 { "5" } else if d == 6 { "6" } else if d == 7 { "7" }
        else if d == 8 { "8" } else { "9" };
    proof {
        reveal_strlit("0");
        reveal_strlit("1");
        reveal_strlit("2");
        reveal_strlit("3");
        reveal_strlit("4");
        reveal_strlit("5");
        reveal_strlit("6");
        reveal_strlit("7");
        reveal_strlit("8");
        reveal_strlit("9");
    }
    assert(r@ =~= seq![digit_char(d as nat)]);
    r
}

/// Appends the decimal digits of `n` to `s`.
fn append_decimal(s: &mut String, n: usize)
    ensures
        final(s)@ == old(s)@ + decimal(n as nat),
    decreases n,
{
    if n >= 10 {
        append_decimal(s, n / 10);
    }
    s.append(digit_str(n % 10));
    assert(final(s)@ =~= old(s)@ + decimal(n as nat)) by {
        if n >= 10 {
            assert(decimal(n as nat) == decimal((n / 10) as nat).push(digit_char((n % 10) as nat)));
        }
    }
}

/// Shows a decoding failure as `failure_text` says.
pub fn failure_to_text(f: Base64Failure) -> (r: String)
    ensures
        r@ == failure_text(f),
{
    match f {
        Base64Failure::InvalidByte(i, b) => {
            let mut r = String::from_str("Invalid symbol ");
            append_decimal(&mut r, b as usize);
            r.append(", offset ");
            append_decimal(&mut r, i);
            r.append(".");
            r
        },
        Base64Failure::InvalidLength(n) => {
            let mut r = String::from_str("Invalid input length: ");
            append_decimal(&mut r, n);
            r
        },
        Base64Failure::InvalidLastSymbol(i, b) => {
            let mut r = String::from_str("Invalid last symbol ");
            append_decimal(&mut r, b as usize);
            r.append(", offset ");
            append_decimal(&mut r, i);
            r.append(".");
            r
        },
        Base64Failure::InvalidPadding => String::from_str("Invalid padding"),
    }
}

/// Whether `e` is a parse error carrying exactly `text`.
pub open spec fn is_parse_err(e: ParseErr, text: Seq<char>) -> bool {
    e.kind() == ErrorType::TpParseErr && e.text()@ == text
}

/// Accepts decoded audio bytes when they hold whole 16-bit samples (an even
/// count), else fails with a parse error.
pub fn accept_decoded(decoded: Vec<u8>) -> (r: Result<Vec<u8>, ParseErr>)
    ensures
        decoded.len() % 2 == 0 ==> r == Ok::<Vec<u8>, ParseErr>(decoded),
        decoded.len() % 2 != 0 ==> (r matches Err(e) && is_parse_err(
            e,
            "decoded data can't mod by 2 TAT"@,
        )),
{
    if decoded.len() % 2 != 0 {
        return Err(ParseErr::with_msg(String::from_str("decoded data can't mod by 2 TAT")));
    }
    Ok(decoded)
}

/// Handles the outcome of decoding: the bytes go through `accept_decoded`,
/// a failure becomes a parse error with `base64_failure_message`.
pub fn accept_decoding(decoded: Result<Vec<u8>, Base64Failure>) -> (r: Result<Vec<u8>, ParseErr>)
    ensures
        decoded matches Err(f) ==> (r matches Err(e) && is_parse_err(e, base64_failure_message(f))),
        decoded matches Ok(d) ==> {
            &&& d.len() % 2 == 0 ==> (r matches Ok(v) && v@ == d@)
            &&& d.len() % 2 != 0 ==> (r matches Err(e) && is_parse_err(
                e,
                "decoded data can't mod by 2 TAT"@,
            ))
        },
{
    match decoded {
        Err(f) => {
            let mut msg = String::from_str("parse base64 error because ");
            let why = failure_to_text(f);
            msg.append(why.as_str());
            msg.append(" TAT");
            Err(ParseErr::with_msg(msg))
        },
        Ok(d) => accept_decoded(d),
    }
}

/// Decodes standard base64 text into bytes that hold whole 16-bit samples:
/// the standard encoding of an even number of bytes gives those bytes back.
/// Invalid base64 gives a parse error whose message shows why; an odd
/// number of decoded bytes gives the parse error of `accept_decoded`.
pub fn base64_2_vecu8(input: String) -> (r: Result<Vec<u8>, ParseErr>)
    ensures
        base64_standard_decode(input@) matches Err(f) ==> (r matches Err(e) && is_parse_err(
            e,
            base64_failure_message(f),
        )),
        base64_standard_decode(input@) matches Ok(d) ==> {
            &&& d.len() % 2 == 0 ==> (r matches Ok(v) && v@ == d)
            &&& d.len() % 2 != 0 ==> (r matches Err(e) && is_parse_err(
                e,
                "decoded data can't mod by 2 TAT"@,
            ))
        },
        forall|b: Seq<u8>|
            #[trigger] standard_encode(b) == input@ && b.len() % 2 == 0 ==> (r matches Ok(v) && v@
                == b),
{
    accept_decoding(standard_decode(&input))
}

} // verus!
