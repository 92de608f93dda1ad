use percent_encoding::{utf8_percent_encode, NON_ALPHANUMERIC};
use vstd::prelude::*;
use vstd::string::*;

verus! {

/// ASCII letters and digits: the bytes that percent-encoding leaves as they are.
pub open spec fn is_ascii_alphanumeric(b: u8) -> bool {
    (48 <= b <= 57) || (65 <= b <= 90) || (97 <= b <= 122)
}

/// The upper-case hexadecimal digit of `d`, for `d < 16`.
pub open spec fn hex_digit_upper(d: u8) -> char {
    if d < 10 {
        (d + 48) as char
    } else {
        (d + 55) as char
    }
}

/// One byte, percent-encoded against the set of all non-alphanumeric bytes.
pub open spec fn spec_percent_encode_byte(b: u8) -> Seq<char> {
    if is_ascii_alphanumeric(b) {
        seq![b as char]
    } else {
        seq!['%', hex_digit_upper(b / 16), hex_digit_upper(b % 16)]
    }
}

/// Bytes, percent-encoded one after the other.
pub open spec fn spec_percent_encode(bytes: Seq<u8>) -> Seq<char>
    decreases bytes.len(),
{
    if bytes.len() == 0 {
        Seq::empty()
    } else {
        spec_percent_encode_byte(bytes[0]) + spec_percent_encode(bytes.drop_first())
    }
}

/// Calls `percent_encoding::utf8_percent_encode(input, NON_ALPHANUMERIC).to_string()`.
/// Claimed, as the crate's source shows: every byte of the UTF-8 encoding of `input`
/// that is not an ASCII letter or digit becomes `%` and two upper-case hexadecimal
/// digits; the others stay as they are.
#[verifier::external_body]
pub(crate) fn percent_encode_non_alphanumeric(input: &str) -> (res: String)
    ensures
        res@ == spec_percent_encode(input.spec_bytes()),
{
    utf8_percent_encode(input, NON_ALPHANUMERIC).to_string()
}

} // verus!
