//! Text forms that other crates define: identifiers as hyphenated
//! hexadecimal, percent-encoding, form encoding of query pairs, and URIs.

use crate::text::digit;
use vstd::arithmetic::power::pow;
use vstd::prelude::*;
use vstd::string::StringSliceAdditionalSpecFns;

verus! {

/// The error of `http` when a text is no URI.
#[verifier::external_type_specification]
#[verifier::external_body]
pub struct ExInvalidUri(http::uri::InvalidUri);

/// The error of `http` when the parts given to a builder make no URI.
#[verifier::external_type_specification]
#[verifier::external_body]
pub struct ExHttpError(http::Error);

/// The character of a hexadecimal digit, letters in lower case.
pub open spec fn hex_lower(n: int) -> char {
    if n < 10 {
        digit(n)
    } else if n == 10 {
        'a'
    } else if n == 11 {
        'b'
    } else if n == 12 {
        'c'
    } else if n == 13 {
        'd'
    } else if n == 14 {
        'e'
    } else {
        'f'
    }
}

/// The character of a hexadecimal digit, letters in upper case.
pub open spec fn hex_upper(n: int) -> char {
    if n < 10 {
        digit(n)
    } else if n == 10 {
        'A'
    } else if n == 11 {
        'B'
    } else if n == 12 {
        'C'
    } else if n == 13 {
        'D'
    } else if n == 14 {
        'E'
    } else {
        'F'
    }
}

/// The `k`-th of the 32 hexadecimal digits of `value`, the most significant
/// being digit 0.
pub open spec fn hex_digit_of(value: u128, k: int) -> int {
    (value as int / pow(16, (31 - k) as nat)) % 16
}

/// The hyphenated form of a 128-bit identifier: its 32 hexadecimal digits in
/// lower case, most significant first, in groups of 8, 4, 4, 4 and 12 with a
/// hyphen between groups.
pub open spec fn hyphenated(value: u128) -> Seq<char> {
    Seq::new(
        36,
        |i: int|
            if i == 8 || i == 13 || i == 18 || i == 23 {
                '-'
            } else if i < 8 {
                hex_lower(hex_digit_of(value, i))
            } else if i < 13 {
                hex_lower(hex_digit_of(value, i - 1))
            } else if i < 18 {
                hex_lower(hex_digit_of(value, i - 2))
            } else if i < 23 {
                hex_lower(hex_digit_of(value, i - 3))
            } else {
                hex_lower(hex_digit_of(value, i - 4))
            },
    )
}

/// Whether a byte stands for itself in percent-encoding: an ASCII letter or
/// digit, or one of `-`, `.`, `_`, `~`.
pub open spec fn is_unreserved(b: u8) -> bool {
    ||| 0x30 <= b <= 0x39
    ||| 0x41 <= b <= 0x5a
    ||| 0x61 <= b <= 0x7a
    ||| b == 0x2d
    ||| b == 0x2e
    ||| b == 0x5f
    ||| b == 0x7e
}

/// The percent-encoding of a sequence of bytes: an unreserved byte as its
/// character, any other as `%` and its two hexadecimal digits in upper case.
pub open spec fn percent_encoded(bytes: Seq<u8>) -> Seq<char>
    decreases bytes.len(),
{
    if bytes.len() == 0 {
        Seq::empty()
    } else {
        let first = if is_unreserved(bytes[0]) {
            seq![bytes[0] as char]
        } else {
            seq!['%', hex_upper(bytes[0] as int / 16), hex_upper(bytes[0] as int % 16)]
        };
        first + percent_encoded(bytes.drop_first())
    }
}

/// Whether a character stands for itself in percent-encoding: an ASCII
/// letter or digit, or one of `-`, `.`, `_`, `~`.
pub open spec fn is_unreserved_char(c: char) -> bool {
    (c as u32) < 0x80 && is_unreserved((c as u32) as u8)
}

/// Whether a text is made of characters that stand for themselves.
pub open spec fn is_plain_text(text: Seq<char>) -> bool {
    forall|i: int| 0 <= i < text.len() ==> is_unreserved_char(#[trigger] text[i])
}

/// A text made of letters, digits and `-`, `.`, `_`, `~` is its own
/// percent-encoding.
pub proof fn plain_text_encodes_to_itself(text: Seq<char>)
    requires
        is_plain_text(text),
    ensures
        percent_encoded(vstd::utf8::encode_utf8(text)) == text,
    decreases text.len(),
{
    if text.len() > 0 {
        let c = text[0];
        let scalar = c as u32;
        let rest = text.drop_first();
        assert forall|i: int| 0 <= i < rest.len() implies is_unreserved_char(
            #[trigger] rest[i],
        ) by {
            assert(rest[i] == text[i + 1]);
        }
        plain_text_encodes_to_itself(rest);
        assert(is_unreserved_char(c));
        assert((scalar & 0x7F) as u8 == scalar) by (bit_vector)
            requires
                scalar < 0x80,
        ;
        let b = (scalar & 0x7F) as u8;
        let bytes = vstd::utf8::encode_utf8(text);
        assert(bytes == seq![b] + vstd::utf8::encode_utf8(rest));
        assert(bytes[0] == b);
        assert(bytes.drop_first() =~= vstd::utf8::encode_utf8(rest));
        vstd::utf8::char_u32_cast(c, scalar);
        assert(b as char == c);
        assert(text =~= seq![c] + rest);
    } else {
        assert(text =~= Seq::<char>::empty());
    }
}

/// Whether a byte stands for itself in form encoding: an ASCII letter or
/// digit, or one of `*`, `-`, `.`, `_`.
pub open spec fn is_form_safe(b: u8) -> bool {
    ||| 0x30 <= b <= 0x39
    ||| 0x41 <= b <= 0x5a
    ||| 0x61 <= b <= 0x7a
    ||| b == 0x2a
    ||| b == 0x2d
    ||| b == 0x2e
    ||| b == 0x5f
}

/// The form encoding of a sequence of bytes: a safe byte as its character,
/// a space as `+`, any other byte as `%` and its two hexadecimal digits in
/// upper case.
pub open spec fn form_text(bytes: Seq<u8>) -> Seq<char>
    decreases bytes.len(),
{
    if bytes.len() == 0 {
        Seq::empty()
    } else {
        let first = if is_form_safe(bytes[0]) {
            seq![bytes[0] as char]
        } else if bytes[0] == 0x20 {
            seq!['+']
        } else {
            seq!['%', hex_upper(bytes[0] as int / 16), hex_upper(bytes[0] as int % 16)]
        };
        first + form_text(bytes.drop_first())
    }
}

/// The form encoding of one pair: name and value, each encoded from its
/// bytes in UTF-8, with `=` between them.
pub open spec fn form_pair(pair: (Seq<char>, Seq<char>)) -> Seq<char> {
    form_text(vstd::utf8::encode_utf8(pair.0)) + seq!['='] + form_text(
        vstd::utf8::encode_utf8(pair.1),
    )
}

/// The form encoding of a list of pairs: the pairs in order with `&`
/// between them.
pub open spec fn form_encoded(pairs: Seq<(Seq<char>, Seq<char>)>) -> Seq<char>
    decreases pairs.len(),
{
    if pairs.len() == 0 {
        Seq::empty()
    } else if pairs.len() == 1 {
        form_pair(pairs[0])
    } else {
        form_encoded(pairs.drop_last()) + seq!['&'] + form_pair(pairs.last())
    }
}

/// Whether a character stands for itself in form encoding.
pub open spec fn is_form_safe_char(c: char) -> bool {
    (c as u32) < 0x80 && is_form_safe((c as u32) as u8)
}

/// Whether a text is made of characters that stand for themselves in form
/// encoding.
pub open spec fn is_form_safe_text(text: Seq<char>) -> bool {
    forall|i: int| 0 <= i < text.len() ==> is_form_safe_char(#[trigger] text[i])
}

/// A text made of letters, digits and `*`, `-`, `.`, `_` is its own form
/// encoding.
pub proof fn form_safe_text_is_kept(text: Seq<char>)
    requires
        is_form_safe_text(text),
    ensures
        form_text(vstd::utf8::encode_utf8(text)) == text,
    decreases text.len(),
{
    if text.len() > 0 {
        let c = text[0];
        let scalar = c as u32;
        let rest = text.drop_first();
        assert forall|i: int| 0 <= i < rest.len() implies is_form_safe_char(
            #[trigger] rest[i],
        ) by {
            assert(rest[i] == text[i + 1]);
        }
        form_safe_text_is_kept(rest);
        assert(is_form_safe_char(c));
        assert((scalar & 0x7F) as u8 == scalar) by (bit_vector)
            requires
                scalar < 0x80,
        ;
        let b = (scalar & 0x7F) as u8;
        let bytes = vstd::utf8::encode_utf8(text);
        assert(bytes == seq![b] + vstd::utf8::encode_utf8(rest));
        assert(bytes[0] == b);
        assert(bytes.drop_first() =~= vstd::utf8::encode_utf8(rest));
        vstd::utf8::char_u32_cast(c, scalar);
        assert(b as char == c);
        assert(text =~= seq![c] + rest);
    } else {
        assert(text =~= Seq::<char>::empty());
    }
}

/// The hyphenated form of an identifier is its own form encoding.
pub proof fn hyphenated_is_form_safe(id: u128)
    ensures
        is_form_safe_text(hyphenated(id)),
{
    assert forall|i: int| 0 <= i < hyphenated(id).len() implies is_form_safe_char(
        #[trigger] hyphenated(id)[i],
    ) by {
        let c = hyphenated(id)[i];
        assert(c == '-' || exists|n: int| 0 <= n < 16 && c == hex_lower(n)) by {
            let k = if i < 8 {
                i
            } else if i < 13 {
                i - 1
            } else if i < 18 {
                i - 2
            } else if i < 23 {
                i - 3
            } else {
                i - 4
            };
            if !(i == 8 || i == 13 || i == 18 || i == 23) {
                assert(c == hex_lower(hex_digit_of(id, k)));
                assert(0 <= hex_digit_of(id, k) < 16);
            }
        }
    }
}

/// What `http::Uri` writes for the URI it reads from a text; `None` where
/// the text is no URI.
pub uninterp spec fn uri_text(text: Seq<char>) -> Option<Seq<char>>;

/// What `http::Uri` writes for the URI that its builder makes of the scheme
/// `https`, an authority and a path with query; `None` where the builder fails.
pub uninterp spec fn https_uri_text(authority: Seq<char>, path_and_query: Seq<char>) -> Option<
    Seq<char>,
>;

/// The texts of a list of pairs of strings.
pub open spec fn pairs_text(pairs: Seq<(String, String)>) -> Seq<(Seq<char>, Seq<char>)> {
    pairs.map_values(|p: (String, String)| (p.0@, p.1@))
}

/// The hyphenated form of an identifier.
///
/// Calls `to_string` on the `uuid::Uuid` made by `uuid::Uuid::from_u128`.
/// Assumed: the result is [`hyphenated`] of the value.
#[verifier::external_body]
pub(crate) fn id_text(id: u128) -> (r: String)
    ensures
        r@ == hyphenated(id),
{
    uuid::Uuid::from_u128(id).to_string()
}

/// The percent-encoding of a text.
///
/// Calls `urlencoding::encode`. Assumed: the result is [`percent_encoded`]
/// of the bytes of the text in UTF-8.
#[verifier::external_body]
pub(crate) fn percent_encode(text: &str) -> (r: String)
    ensures
        r@ == percent_encoded(text.spec_bytes()),
{
    urlencoding::encode(text).into_owned()
}

/// The form encoding of a list of pairs.
///
/// Calls `serde_urlencoded::to_string`, which does not fail on a list of
/// pairs of strings. Assumed: the result is [`form_encoded`] of the texts of
/// the pairs.
#[verifier::external_body]
pub(crate) fn form_encode(pairs: &Vec<(String, String)>) -> (r: String)
    ensures
        r@ == form_encoded(pairs_text(pairs@)),
{
    match serde_urlencoded::to_string(pairs) {
        Ok(text) => text,
        Err(_) => String::new(),
    }
}

/// Reads a text as a URI and writes the URI out again.
///
/// Calls `str::parse` for `http::Uri` and `to_string` on the URI. Assumed:
/// the outcome is [`uri_text`] of the text.
#[verifier::external_body]
pub(crate) fn read_uri(text: &str) -> (r: Result<String, http::uri::InvalidUri>)
    ensures
        match r {
            Ok(s) => uri_text(text@) == Some(s@),
            Err(_) => uri_text(text@) is None,
        },
{
    match text.parse::<http::Uri>() {
        Ok(uri) => Ok(uri.to_string()),
        Err(e) => Err(e),
    }
}

/// The `https` URI of an authority and a path with query, as text.
///
/// Calls `http::uri::Builder::build` on a builder given the scheme `https`,
/// the authority and the path with query, and `to_string` on the URI.
/// Assumed: the outcome is [`https_uri_text`] of the two texts.
#[verifier::external_body]
pub(crate) fn https_uri(authority: &str, path_and_query: &str) -> (r: Result<String, http::Error>)
    ensures
        match r {
            Ok(s) => https_uri_text(authority@, path_and_query@) == Some(s@),
            Err(_) => https_uri_text(authority@, path_and_query@) is None,
        },
{
    let builder = http::Uri::builder().scheme("https").authority(authority);
    match builder.path_and_query(path_and_query).build() {
        Ok(uri) => Ok(uri.to_string()),
        Err(e) => Err(e),
    }
}

} // verus!
