use vstd::prelude::*;
use vstd::string::*;
use vstd::utf8::encode_utf8;

verus! {

/// The base64 symbol for a six-bit value.
pub open spec fn base64_symbol(v: int) -> char {
    if v < 26 {
        (v + 65) as char
    } else if v < 52 {
        (v - 26 + 97) as char
    } else if v < 62 {
        (v - 52 + 48) as char
    } else if v == 62 {
        '+'
    } else {
        '/'
    }
}

/// Padded base64 (RFC 4648, section 4): each group of three bytes becomes four symbols;
/// a last group of one or two bytes is padded with `=`.
pub open spec fn spec_base64(bytes: Seq<u8>) -> Seq<char>
    decreases bytes.len(),
{
    if bytes.len() == 0 {
        Seq::empty()
    } else if bytes.len() == 1 {
        seq![base64_symbol(bytes[0] as int / 4), base64_symbol((bytes[0] as int % 4) * 16), '=', '=']
    } else if bytes.len() == 2 {
        seq![
            base64_symbol(bytes[0] as int / 4),
            base64_symbol((bytes[0] as int % 4) * 16 + bytes[1] as int / 16),
            base64_symbol((bytes[1] as int % 16) * 4),
            '=',
        ]
    } else {
        seq![
            base64_symbol(bytes[0] as int / 4),
            base64_symbol((bytes[0] as int % 4) * 16 + bytes[1] as int / 16),
            base64_symbol((bytes[1] as int % 16) * 4 + bytes[2] as int / 64),
            base64_symbol(bytes[2] as int % 64),
        ] + spec_base64(bytes.skip(3))
    }
}

/// The largest input `data_encoding` is sure to encode without panicking.
pub open spec fn base64_input_limit() -> int {
    (usize::MAX / 512) as int
}

/// Calls `data_encoding::BASE64.encode(input)`. Claimed, as the crate documents: the
/// padded base64 of RFC 4648 with the standard alphabet. The crate only promises not
/// to panic for inputs up to `usize::MAX / 512` bytes, which `requires` asks.
#[verifier::external_body]
pub(crate) fn base64_encode(input: &[u8]) -> (res: String)
    requires
        input@.len() <= base64_input_limit(),
    ensures
        res@ == spec_base64(input@),
{
    data_encoding::BASE64.encode(input)
}

/// The prefix of a base64 SVG data URI.
pub open spec fn svg_data_uri_prefix() -> Seq<char> {
    "data:image/svg+xml;base64,"@
}

/// An SVG image as a base64 data URI.
pub open spec fn spec_svg_data_uri(svg: Seq<char>) -> Seq<char> {
    svg_data_uri_prefix() + spec_base64(encode_utf8(svg))
}

/// An SVG document as a base64 data URI, for an `img` source.
pub fn asset_base64_svg(svg_contents: &str) -> (res: String)
    requires
        encode_utf8(svg_contents@).len() <= base64_input_limit(),
    ensures
        res@ == spec_svg_data_uri(svg_contents@),
{
    let mut uri = String::from_str("data:image/svg+xml;base64,");
    let encoded = base64_encode(svg_contents.as_bytes());
    uri.append(encoded.as_str());
    uri
}

/// A PNG image as a base64 data URI.
pub fn png_base64_uri(png: &[u8]) -> (res: String)
    requires
        png@.len() <= base64_input_limit(),
    ensures
        res@ == "data:image/png;base64,"@ + spec_base64(png@),
{
    let mut uri = String::from_str("data:image/png;base64,");
    let encoded = base64_encode(png);
    uri.append(encoded.as_str());
    uri
}

/// A UTF-8 encoding takes at most four bytes per character.
pub proof fn lemma_utf8_len_bound(chars: Seq<char>)
    ensures
        encode_utf8(chars).len() <= 4 * chars.len(),
    decreases chars.len(),
{
    if chars.len() > 0 {
        lemma_utf8_len_bound(chars.drop_first());
    }
}

} // verus!
