//! Platform helpers that compute on plain values: URL query encoding, the
//! filter for drawing hyperlinks, and the renderer-failure classifier.

pub mod garde_graphique;
pub mod web_diag;

use vstd::prelude::*;
use crate::text::{all_ascii, hex_value, lemma_ascii_encoding, lemma_hex_digit_round_trip, hex_upper, hex_upper_exec, chars_of, char_is_control, is_control, push_char, string_from_chars, trim, trimmed};

verus! {

/// The unreserved set of RFC 3986: ASCII letters, digits, `-`, `_`, `.`, `~`.
pub open spec fn is_unreserved(b: u8) -> bool {
    ||| 65 <= b <= 90
    ||| 97 <= b <= 122
    ||| 48 <= b <= 57
    ||| b == 45
    ||| b == 95
    ||| b == 46
    ||| b == 126
}

/// One byte as it appears in the encoded query: itself when unreserved,
/// `%XX` (upper-case hex) otherwise.
pub open spec fn encode_byte(b: u8) -> Seq<char> {
    if is_unreserved(b) {
        seq![b as char]
    } else {
        seq!['%', hex_upper(b / 16), hex_upper(b % 16)]
    }
}

/// The percent-encoding of a byte sequence.
pub open spec fn spec_percent_encode(bytes: Seq<u8>) -> Seq<char>
    decreases bytes.len(),
{
    if bytes.len() == 0 {
        Seq::empty()
    } else {
        spec_percent_encode(bytes.drop_last()) + encode_byte(bytes.last())
    }
}

/// Percent-encodes the UTF-8 bytes of `s` for a URL query value: every byte
/// outside the unreserved set becomes `%XX`.
pub fn percent_encode(s: &str) -> (out: String)
    ensures
        out@ == spec_percent_encode(vstd::utf8::encode_utf8(s@)),
{
    let bytes = s.as_bytes();
    let mut out = String::new();
    for i in 0..bytes.len()
        invariant
            bytes@ == vstd::utf8::encode_utf8(s@),
            out@ == spec_percent_encode(bytes@.take(i as int)),
    {
        let b = bytes[i];
        assert(bytes@.take(i + 1).drop_last() == bytes@.take(i as int));
        if (65 <= b && b <= 90) || (97 <= b && b <= 122) || (48 <= b && b <= 57) || b == 45 || b == 95
            || b == 46 || b == 126 {
            push_char(&mut out, b as char);
        } else {
            push_char(&mut out, '%');
            push_char(&mut out, hex_upper_exec(b / 16));
            push_char(&mut out, hex_upper_exec(b % 16));
        }
    }
    assert(bytes@.take(bytes@.len() as int) == bytes@);
    out
}

/// What `url::Url::parse` makes of a string: on success, the URL's scheme,
/// whether it has a host, and its serialization.
pub uninterp spec fn spec_url_parse(input: Seq<char>) -> Option<(Seq<char>, bool, Seq<char>)>;

/// Calls `url::Url::parse` and reads back `scheme()`, `host_str().is_some()`
/// and the serialization (`Into<String>`). The contract claims only that the
/// outcome is a function of the input, named `spec_url_parse`.
#[verifier::external_body]
fn parse_url(input: &str) -> (r: Option<(String, bool, String)>)
    ensures
        match r {
            None => spec_url_parse(input@) is None,
            Some((scheme, host, href)) => spec_url_parse(input@) == Some((scheme@, host, href@)),
        },
{
    url::Url::parse(input).ok().map(|u| (u.scheme().to_string(), u.host_str().is_some(), u.into()))
}

/// Whether the URL outcome is a web page: scheme `http` or `https`, with a host.
pub open spec fn is_web_page(parsed: Option<(Seq<char>, bool, Seq<char>)>) -> bool {
    match parsed {
        Some((scheme, host, _)) => host && (scheme == "http"@ || scheme == "https"@),
        None => false,
    }
}

/// The hyperlink a drawing may open for `value`, if any.
pub open spec fn spec_web_hyperlink(value: Seq<char>) -> Option<Seq<char>> {
    if exists|i: int| 0 <= i < value.len() && is_control(#[trigger] value[i]) {
        None
    } else {
        let parsed = spec_url_parse(trim(value));
        match parsed {
            Some((_, _, href)) if is_web_page(parsed) => Some(href),
            _ => None,
        }
    }
}

/// Drawing hyperlinks may open web pages, never local files or custom
/// handlers: a value holding a control character is refused, and the
/// trimmed value must parse as an `http` or `https` URL with a host. The
/// result is the URL's serialization.
pub fn web_hyperlink(value: &str) -> (r: Option<String>)
    ensures
        match r {
            Some(href) => spec_web_hyperlink(value@) == Some(href@),
            None => spec_web_hyperlink(value@) is None,
        },
{
    let v = chars_of(value);
    for i in 0..v.len()
        invariant
            v@ == value@,
            forall|j: int| 0 <= j < i ==> !is_control(#[trigger] v@[j]),
    {
        if char_is_control(v[i]) {
            assert(is_control(value@[i as int]));
            return None;
        }
    }
    let t = trimmed(&v);
    let t = string_from_chars(&t);
    web_page(parse_url(t.as_str()))
}

/// What a drawing hyperlink opens, given what the URL parser made of it:
/// its serialization when it is an `http` or `https` URL with a host,
/// nothing otherwise.
pub fn web_page(parsed: Option<(String, bool, String)>) -> (r: Option<String>)
    ensures
        match parsed {
            Some((scheme, host, href)) => if host && (scheme@ == "http"@ || scheme@ == "https"@) {
                r matches Some(h) && h@ == href@
            } else {
                r is None
            },
            None => r is None,
        },
{
    match parsed {
        Some((scheme, host, href)) => {
            let s = chars_of(scheme.as_str());
            if host && (crate::text::seq_eq(&s, &chars_of("http")) || crate::text::seq_eq(&s, &chars_of("https"))) {
                Some(href)
            } else {
                None
            }
        },
        None => None,
    }
}

/// A character that may stand in an encoded query value: an unreserved
/// ASCII character or `%`.
pub open spec fn is_query_safe(c: char) -> bool {
    c == '%' || ((c as u32) < 256 && is_unreserved(c as u32 as u8))
}

/// Whatever the input, the encoded query value holds only unreserved
/// ASCII characters and `%`.
pub proof fn law_percent_encoding_is_query_safe(bytes: Seq<u8>)
    ensures
        forall|i: int| 0 <= i < spec_percent_encode(bytes).len() ==> is_query_safe(
            #[trigger] spec_percent_encode(bytes)[i],
        ),
    decreases bytes.len(),
{
    if bytes.len() > 0 {
        law_percent_encoding_is_query_safe(bytes.drop_last());
        let prev = spec_percent_encode(bytes.drop_last());
        let b = bytes.last();
        let e = encode_byte(b);
        assert(spec_percent_encode(bytes) == prev + e);
        assert forall|j: int| 0 <= j < e.len() implies is_query_safe(#[trigger] e[j]) by {
            if !is_unreserved(b) {
                if j > 0 {
                    let n: u8 = if j == 1 { b / 16 } else { b % 16 };
                    assert(e[j] == hex_upper(n));
                }
            } else {
                assert(e[j] == b as char);
                assert((b as char) as u32 == b);
            }
        }
        assert forall|i: int| 0 <= i < spec_percent_encode(bytes).len() implies is_query_safe(
            #[trigger] spec_percent_encode(bytes)[i],
        ) by {
            if i >= prev.len() {
                assert(spec_percent_encode(bytes)[i] == e[i - prev.len()]);
            } else {
                assert(spec_percent_encode(bytes)[i] == prev[i]);
            }
        }
    }
}

/// Text made of unreserved characters only comes out as it went in.
pub proof fn law_unreserved_text_is_unchanged(s: Seq<char>)
    requires
        forall|i: int| 0 <= i < s.len() ==> (#[trigger] s[i] as u32) < 128 && is_unreserved(s[i] as u32 as u8),
    ensures
        spec_percent_encode(vstd::utf8::encode_utf8(s)) == s,
    decreases s.len(),
{
    assert(all_ascii(s));
    lemma_ascii_encoding(s);
    lemma_unreserved_prefix(s, s.len() as int);
    assert(vstd::utf8::encode_utf8(s).take(s.len() as int) == vstd::utf8::encode_utf8(s));
    assert(s.take(s.len() as int) == s);
}

proof fn lemma_unreserved_prefix(s: Seq<char>, n: int)
    requires
        0 <= n <= s.len(),
        forall|i: int| 0 <= i < s.len() ==> (#[trigger] s[i] as u32) < 128 && is_unreserved(s[i] as u32 as u8),
        vstd::utf8::encode_utf8(s).len() == s.len(),
        forall|i: int| 0 <= i < s.len() ==> #[trigger] vstd::utf8::encode_utf8(s)[i] == s[i] as u32,
    ensures
        spec_percent_encode(vstd::utf8::encode_utf8(s).take(n)) == s.take(n),
    decreases n,
{
    let b = vstd::utf8::encode_utf8(s);
    if n > 0 {
        lemma_unreserved_prefix(s, n - 1);
        assert(b.take(n).drop_last() == b.take(n - 1));
        let x = b[n - 1];
        let v = s[n - 1] as u32;
        assert(x == v);
        assert(v < 128 ==> (v as u8) as u32 == v) by (bit_vector);
        assert(is_unreserved(x));
        vstd::utf8::char_u32_cast(s[n - 1], v);
        assert((x as char) == s[n - 1]);
        assert(s.take(n) == s.take(n - 1).push(s[n - 1]));
    } else {
        assert(b.take(0) == Seq::<u8>::empty());
        assert(s.take(0) == Seq::<char>::empty());
    }
}

/// Number of bytes outside the unreserved set.
pub open spec fn reserved_count(bytes: Seq<u8>) -> nat
    decreases bytes.len(),
{
    if bytes.len() == 0 {
        0
    } else {
        reserved_count(bytes.drop_last()) + if is_unreserved(bytes.last()) {
            0nat
        } else {
            1nat
        }
    }
}

/// Every byte outside the unreserved set grows into three characters,
/// every other byte stays one.
pub proof fn law_percent_encoding_length(bytes: Seq<u8>)
    ensures
        spec_percent_encode(bytes).len() == bytes.len() + 2 * reserved_count(bytes),
    decreases bytes.len(),
{
    if bytes.len() > 0 {
        law_percent_encoding_length(bytes.drop_last());
    }
}

/// Percent-decoding: `%HH` is the byte `0xHH`, any other character its
/// own byte.
pub open spec fn spec_percent_decode(s: Seq<char>) -> Seq<u8>
    decreases s.len(),
{
    if s.len() == 0 {
        Seq::empty()
    } else if s[0] == '%' && s.len() >= 3 {
        seq![(16 * hex_value(s[1]) + hex_value(s[2])) as u8] + spec_percent_decode(s.skip(3))
    } else {
        seq![s[0] as u32 as u8] + spec_percent_decode(s.skip(1))
    }
}

proof fn lemma_encode_front(b: u8, rest: Seq<u8>)
    ensures
        spec_percent_encode(seq![b] + rest) == encode_byte(b) + spec_percent_encode(rest),
    decreases rest.len(),
{
    let whole = seq![b] + rest;
    if rest.len() == 0 {
        assert(whole =~= seq![b]);
        assert(whole.drop_last() =~= Seq::<u8>::empty());
        assert(spec_percent_encode(Seq::<u8>::empty()) == Seq::<char>::empty());
        assert(spec_percent_encode(whole) == spec_percent_encode(whole.drop_last()) + encode_byte(b));
        assert(spec_percent_encode(whole) =~= encode_byte(b));
        assert(encode_byte(b) + spec_percent_encode(rest) =~= encode_byte(b));
    } else {
        lemma_encode_front(b, rest.drop_last());
        assert(whole.drop_last() =~= seq![b] + rest.drop_last());
        assert(whole.last() == rest.last());
        assert(spec_percent_encode(whole) == spec_percent_encode(whole.drop_last()) + encode_byte(rest.last()));
        assert(spec_percent_encode(rest) == spec_percent_encode(rest.drop_last()) + encode_byte(rest.last()));
        assert(encode_byte(b) + spec_percent_encode(rest) =~= encode_byte(b) + spec_percent_encode(
            rest.drop_last(),
        ) + encode_byte(rest.last()));
    }
}

/// Decoding the encoded query value gives back the bytes.
pub proof fn law_percent_decoding_gives_back_the_bytes(bytes: Seq<u8>)
    ensures
        spec_percent_decode(spec_percent_encode(bytes)) == bytes,
    decreases bytes.len(),
{
    if bytes.len() > 0 {
        let b = bytes[0];
        let rest = bytes.drop_first();
        assert(bytes =~= seq![b] + rest);
        lemma_encode_front(b, rest);
        law_percent_decoding_gives_back_the_bytes(rest);
        let tail = spec_percent_encode(rest);
        let e = encode_byte(b);
        let all = e + tail;
        if is_unreserved(b) {
            assert(all[0] == b as char);
            assert((b as char) as u32 == b);
            let v = b as u32;
            assert(v < 256 ==> (v as u8) as u32 == v) by (bit_vector);
            assert(all.skip(1) =~= tail);
            assert(spec_percent_decode(all) =~= seq![b] + rest);
        } else {
            lemma_hex_digit_round_trip(b / 16);
            lemma_hex_digit_round_trip(b % 16);
            assert(all[0] == '%');
            assert(all[1] == hex_upper(b / 16));
            assert(all[2] == hex_upper(b % 16));
            assert(all.skip(3) =~= tail);
            assert((16 * (b / 16) + b % 16) as u8 == b);
            assert(spec_percent_decode(all) =~= seq![b] + rest);
        }
    }
}


/// The bytes that stand for themselves are exactly RFC 3986's unreserved
/// ones: ASCII letters and digits, `-`, `.`, `_` and `~`. Every other
/// byte, `#`, `&`, `=` and space included, becomes `%` and two upper-case
/// hex digits of its value.
pub proof fn law_only_rfc3986_unreserved_bytes_stay(b: u8)
    ensures
        (65 <= b <= 90 || 97 <= b <= 122 || 48 <= b <= 57 || b == 45 || b == 46 || b == 95 || b == 126)
            ==> spec_percent_encode(seq![b]) == seq![b as char],
        !(65 <= b <= 90 || 97 <= b <= 122 || 48 <= b <= 57 || b == 45 || b == 46 || b == 95 || b == 126)
            ==> spec_percent_encode(seq![b]) == seq![
            '%',
            (if b / 16 < 10 { 48 + b / 16 } else { 55 + b / 16 }) as char,
            (if b % 16 < 10 { 48 + b % 16 } else { 55 + b % 16 }) as char,
        ],
{
    assert(seq![b].drop_last() =~= Seq::<u8>::empty());
    assert(spec_percent_encode(Seq::<u8>::empty()) == Seq::<char>::empty());
    assert(spec_percent_encode(seq![b]) == spec_percent_encode(seq![b].drop_last()) + encode_byte(seq![b].last()));
    assert(spec_percent_encode(seq![b]) =~= encode_byte(b));
}

} // verus!
