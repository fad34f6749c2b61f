//! Image data URLs: recognising the image type from the file signature,
//! and turning image bytes into a `data:` URL and back.

use crate::text::{concat_str, push_char};
use data_encoding::{DecodeError, BASE64, HEXLOWER};
use regex::Regex;
use vstd::prelude::*;
use vstd::string::StrSliceExecFns;
use vstd::utf8::{encode_utf8, is_ascii_chars};

verus! {

broadcast use vstd::string::group_string_axioms;

// ---------------------------------------------------------------------
// Specifications
// ---------------------------------------------------------------------

/// Whether `s` begins with `p`.
pub open spec fn has_prefix<T>(s: Seq<T>, p: Seq<T>) -> bool {
    p.len() <= s.len() && s.subrange(0, p.len() as int) == p
}

/// The lowercase hexadecimal digit for `v` (below 16).
pub open spec fn hex_digit(v: nat) -> char {
    if v < 10 {
        crate::text::digit_char(v)
    } else if v == 10 {
        'a'
    } else if v == 11 {
        'b'
    } else if v == 12 {
        'c'
    } else if v == 13 {
        'd'
    } else if v == 14 {
        'e'
    } else {
        'f'
    }
}

/// Lowercase hexadecimal text of `data`: two digits per byte, high
/// nibble first.
pub open spec fn hex_lower(data: Seq<u8>) -> Seq<char>
    decreases data.len(),
{
    if data.len() == 0 {
        Seq::empty()
    } else {
        seq![hex_digit((data[0] / 16) as nat), hex_digit((data[0] % 16) as nat)] + hex_lower(
            data.drop_first(),
        )
    }
}

/// The hexadecimal signatures of the supported image files.
pub open spec fn jpeg_hex() -> Seq<char> {
    seq!['f', 'f', 'd', '8', 'f', 'f', 'e', '0']
}

pub open spec fn png_hex() -> Seq<char> {
    seq!['8', '9', '5', '0', '4', 'e', '4', '7']
}

pub open spec fn gif_hex() -> Seq<char> {
    seq!['4', '7', '4', '9', '4', '6', '3', '8']
}

pub open spec fn jpeg_name() -> Seq<char> {
    seq!['j', 'p', 'e', 'g']
}

pub open spec fn png_name() -> Seq<char> {
    seq!['p', 'n', 'g']
}

pub open spec fn gif_name() -> Seq<char> {
    seq!['g', 'i', 'f']
}

/// The image type named by the signature that hexadecimal text `hex`
/// begins with, checked in the order jpeg, png, gif.
pub open spec fn file_type_of_hex(hex: Seq<char>) -> Option<Seq<char>> {
    if has_prefix(hex, jpeg_hex()) {
        Some(jpeg_name())
    } else if has_prefix(hex, png_hex()) {
        Some(png_name())
    } else if has_prefix(hex, gif_hex()) {
        Some(gif_name())
    } else {
        None
    }
}

/// The image type named by the first four bytes of `data`.
pub open spec fn image_type(data: Seq<u8>) -> Option<Seq<char>> {
    if has_prefix(data, seq![0xffu8, 0xd8u8, 0xffu8, 0xe0u8]) {
        Some(jpeg_name())
    } else if has_prefix(data, seq![0x89u8, 0x50u8, 0x4eu8, 0x47u8]) {
        Some(png_name())
    } else if has_prefix(data, seq![0x47u8, 0x49u8, 0x46u8, 0x38u8]) {
        Some(gif_name())
    } else {
        None
    }
}

/// The symbols of padded base64 text.
pub open spec fn is_base64_symbol(c: char) -> bool {
    ('A' <= c <= 'Z') || ('a' <= c <= 'z') || ('0' <= c <= '9') || c == '+' || c == '/' || c
        == '='
}

/// The base64 symbol for the six-bit value `v` (RFC 4648, table 1):
/// `A`-`Z`, `a`-`z`, `0`-`9`, `+`, `/`.
pub open spec fn base64_symbol(v: int) -> char {
    if v < 26 {
        (65 + v) as char
    } else if v < 52 {
        (97 + v - 26) as char
    } else if v < 62 {
        (48 + v - 52) as char
    } else if v == 62 {
        '+'
    } else {
        '/'
    }
}

/// The padded base64 text (RFC 4648, section 4) of `data`: every three
/// bytes give four symbols of six bits each, most significant first; a
/// last group of one or two bytes is filled with zero bits and padded
/// with `=` to four characters.
pub open spec fn base64_text(data: Seq<u8>) -> Seq<char>
    decreases data.len(),
{
    if data.len() == 0 {
        Seq::empty()
    } else if data.len() == 1 {
        seq![base64_symbol((data[0] / 4) as int), base64_symbol((data[0] % 4) * 16), '=', '=']
    } else if data.len() == 2 {
        seq![
            base64_symbol((data[0] / 4) as int),
            base64_symbol((data[0] % 4) * 16 + data[1] / 16),
            base64_symbol((data[1] % 16) * 4),
            '=',
        ]
    } else {
        seq![
            base64_symbol((data[0] / 4) as int),
            base64_symbol((data[0] % 4) * 16 + data[1] / 16),
            base64_symbol((data[1] % 16) * 4 + data[2] / 64),
            base64_symbol((data[2] % 64) as int),
        ] + base64_text(data.skip(3))
    }
}

/// What `data_encoding::BASE64.decode` gives for `text`: `None` where it
/// refuses the text.
pub uninterp spec fn base64_decoding(text: Seq<u8>) -> Option<Seq<u8>>;

/// `s` with every `"\r\n"` removed, scanning from the left.
pub open spec fn without_crlf(s: Seq<char>) -> Seq<char>
    decreases s.len(),
{
    if s.len() == 0 {
        s
    } else if s.len() >= 2 && s[0] == '\r' && s[1] == '\n' {
        without_crlf(s.skip(2))
    } else {
        seq![s[0]] + without_crlf(s.skip(1))
    }
}

pub open spec fn data_url_head() -> Seq<char> {
    seq!['d', 'a', 't', 'a', ':', 'i', 'm', 'a', 'g', 'e', '/']
}

pub open spec fn base64_marker() -> Seq<char> {
    seq![';', 'b', 'a', 's', 'e', '6', '4', ',']
}

/// `data:image/<kind>;base64,<payload>`
pub open spec fn data_url(kind: Seq<char>, payload: Seq<char>) -> Seq<char> {
    data_url_head() + kind + base64_marker() + payload
}

/// Whether `p` is a regular expression made of `^` and lowercase
/// letters and digits only: it matches the texts that begin with those
/// letters and digits.
pub open spec fn anchored_literal(p: Seq<char>) -> bool {
    &&& p.len() >= 1
    &&& p[0] == '^'
    &&& forall|i: int| 1 <= i < p.len() ==> ('0' <= #[trigger] p[i] <= '9' || 'a' <= p[i] <= 'z')
}

/// The part of a data URL after its first comma; `None` without comma.
pub open spec fn after_first_comma(s: Seq<char>) -> Option<Seq<char>>
    decreases s.len(),
{
    if s.len() == 0 {
        None
    } else if s[0] == ',' {
        Some(s.skip(1))
    } else {
        after_first_comma(s.skip(1))
    }
}

/// Whether `text` (as bytes) is the padded base64 text of some data.
pub open spec fn is_base64_of_some(text: Seq<u8>) -> bool {
    exists|d: Seq<u8>| text == encode_utf8(#[trigger] base64_text(d))
}

/// The bytes of what follows the first comma of `s`.
pub open spec fn payload_bytes(s: Seq<char>) -> Seq<u8> {
    encode_utf8(after_first_comma(s)->0)
}

// ---------------------------------------------------------------------
// Trusted calls
// ---------------------------------------------------------------------

/// The error of `data_encoding`'s decoders, carried as it is.
#[verifier::external_type_specification]
#[verifier::external_body]
pub struct ExDecodeError(DecodeError);

/// Whether `haystack` matches the regular expression `pattern`.
///
/// Trusted: calls `Regex::new(pattern).unwrap().is_match(haystack)` of the
/// `regex` crate. For a pattern of `^` followed by letters and digits the
/// crate's documented syntax makes it match exactly the texts that begin
/// with those characters; a pattern of at most 64 such characters stays
/// far below the crate's default size limit of the compiled expression,
/// so it always compiles.
#[verifier::external_body]
fn regex_is_match(pattern: &str, haystack: &str) -> (m: bool)
    requires
        anchored_literal(pattern@),
        pattern@.len() <= 64,
    ensures
        m == has_prefix(haystack@, pattern@.skip(1)),
{
    Regex::new(pattern).unwrap().is_match(haystack)
}

/// Lowercase hexadecimal text of `data`.
///
/// Trusted: calls `data_encoding::HEXLOWER.encode`, the hexadecimal
/// encoding with symbols `0123456789abcdef`, most significant nibble
/// first. `encode_len` asserts that the input is at most `usize::MAX / 512`
/// bytes long.
#[verifier::external_body]
fn hex_encode(data: &[u8]) -> (s: String)
    requires
        data@.len() <= usize::MAX / 512,
    ensures
        s@ == hex_lower(data@),
{
    HEXLOWER.encode(data)
}

/// Padded base64 text of `data`.
///
/// Trusted: calls `data_encoding::BASE64.encode`, documented as the RFC
/// 4648 encoding with the symbols `A`-`Z`, `a`-`z`, `0`-`9`, `+`, `/` and
/// padding `=`, which `base64_text` writes out. `encode_len` asserts that the input is
/// at most `usize::MAX / 512` bytes long.
#[verifier::external_body]
fn base64_encode(data: &[u8]) -> (s: String)
    requires
        data@.len() <= usize::MAX / 512,
    ensures
        s@ == base64_text(data@),
{
    BASE64.encode(data)
}

/// Decodes padded base64 text.
///
/// Trusted: calls `data_encoding::BASE64.decode`; its outcome is named
/// `base64_decoding`. The crate documents its encodings as correct:
/// decoding the encoding of some data gives the data back. Which other
/// texts it accepts (it also accepts concatenated padded texts) is left
/// to the name. `decode_len` asserts that the input is at most
/// `usize::MAX / 8` bytes long.
#[verifier::external_body]
fn base64_decode(text: &[u8]) -> (r: Result<Vec<u8>, DecodeError>)
    requires
        text@.len() <= usize::MAX / 8,
    ensures
        r is Ok <==> base64_decoding(text@) is Some,
        r is Ok ==> base64_decoding(text@) == Some(r->Ok_0@),
        forall|d: Seq<u8>|
            #![trigger base64_text(d)]
            text@ == encode_utf8(base64_text(d)) ==> r is Ok && r->Ok_0@ == d,
{
    BASE64.decode(text)
}

/// Splits `s` at the first occurrence of `delimiter`.
///
/// Trusted: calls `str::split_once`, documented to split the string on
/// the first occurrence of the delimiter and return the parts before and
/// after it, or `None` when it does not occur.
#[verifier::external_body]
fn split_once_char(s: &str, delimiter: char) -> (r: Option<(&str, &str)>)
    ensures
        r is None <==> !s@.contains(delimiter),
        r matches Some(parts) ==> s@ == parts.0@ + seq![delimiter] + parts.1@
            && !parts.0@.contains(delimiter),
{
    s.split_once(delimiter)
}

// ---------------------------------------------------------------------
// Lemmas
// ---------------------------------------------------------------------

proof fn lemma_hex_lower_len(data: Seq<u8>)
    ensures
        hex_lower(data).len() == 2 * data.len(),
    decreases data.len(),
{
    if data.len() > 0 {
        lemma_hex_lower_len(data.drop_first());
    }
}

/// The first `2 * k` hexadecimal digits of `data` are those of its
/// first `k` bytes.
proof fn lemma_hex_lower_take(data: Seq<u8>, k: int)
    requires
        0 <= k <= data.len(),
    ensures
        hex_lower(data).subrange(0, 2 * k) == hex_lower(data.take(k)),
    decreases k,
{
    lemma_hex_lower_len(data);
    lemma_hex_lower_len(data.take(k));
    if k > 0 {
        lemma_hex_lower_take(data.drop_first(), k - 1);
        assert(data.take(k).drop_first() =~= data.drop_first().take(k - 1));
        assert(hex_lower(data).subrange(0, 2 * k) =~= seq![
            hex_digit((data[0] / 16) as nat),
            hex_digit((data[0] % 16) as nat),
        ] + hex_lower(data.drop_first()).subrange(0, 2 * (k - 1)));
    } else {
        assert(hex_lower(data).subrange(0, 0) =~= Seq::<char>::empty());
    }
}

proof fn lemma_hex_digit_injective(a: nat, b: nat)
    requires
        a < 16,
        b < 16,
        hex_digit(a) == hex_digit(b),
    ensures
        a == b,
{
}

/// Two bytes with the same pair of hexadecimal digits are equal.
proof fn lemma_hex_pair_injective(a: u8, b: u8)
    requires
        hex_digit((a / 16) as nat) == hex_digit((b / 16) as nat),
        hex_digit((a % 16) as nat) == hex_digit((b % 16) as nat),
    ensures
        a == b,
{
    lemma_hex_digit_injective((a / 16) as nat, (b / 16) as nat);
    lemma_hex_digit_injective((a % 16) as nat, (b % 16) as nat);
}

/// The hexadecimal text of `data` begins with the text of the four bytes
/// `sig` exactly when `data` begins with `sig`.
proof fn lemma_hex_signature(data: Seq<u8>, sig: Seq<u8>)
    requires
        sig.len() == 4,
    ensures
        has_prefix(hex_lower(data), hex_lower(sig)) <==> has_prefix(data, sig),
{
    lemma_hex_lower_len(data);
    lemma_hex_lower_len(sig);
    reveal_with_fuel(hex_lower, 5);
    if data.len() >= 4 {
        lemma_hex_lower_take(data, 4);
        let t = data.take(4);
        assert(t.drop_first().drop_first().drop_first().drop_first() =~= Seq::<u8>::empty());
        assert(sig.drop_first().drop_first().drop_first().drop_first() =~= Seq::<u8>::empty());
        if has_prefix(hex_lower(data), hex_lower(sig)) {
            let ht = hex_lower(t);
            let hs = hex_lower(sig);
            assert(ht == hs);
            assert(ht[0] == hs[0] && ht[1] == hs[1]);
            lemma_hex_pair_injective(t[0], sig[0]);
            assert(ht[2] == hs[2] && ht[3] == hs[3]);
            lemma_hex_pair_injective(t[1], sig[1]);
            assert(ht[4] == hs[4] && ht[5] == hs[5]);
            lemma_hex_pair_injective(t[2], sig[2]);
            assert(ht[6] == hs[6] && ht[7] == hs[7]);
            lemma_hex_pair_injective(t[3], sig[3]);
            assert(t =~= sig);
        }
        if has_prefix(data, sig) {
            assert(t =~= sig);
        }
    }
}

/// Law: the image type read from the hexadecimal text of some bytes is
/// the image type of their signature.
pub proof fn lemma_file_type_of_hex(data: Seq<u8>)
    ensures
        file_type_of_hex(hex_lower(data)) == image_type(data),
{
    reveal_with_fuel(hex_lower, 5);
    let j = seq![0xffu8, 0xd8u8, 0xffu8, 0xe0u8];
    let p = seq![0x89u8, 0x50u8, 0x4eu8, 0x47u8];
    let g = seq![0x47u8, 0x49u8, 0x46u8, 0x38u8];
    assert(hex_lower(j) =~= jpeg_hex()) by {
        assert(j.drop_first().drop_first().drop_first().drop_first() =~= Seq::<u8>::empty());
    }
    assert(hex_lower(p) =~= png_hex()) by {
        assert(p.drop_first().drop_first().drop_first().drop_first() =~= Seq::<u8>::empty());
    }
    assert(hex_lower(g) =~= gif_hex()) by {
        assert(g.drop_first().drop_first().drop_first().drop_first() =~= Seq::<u8>::empty());
    }
    lemma_hex_signature(data, j);
    lemma_hex_signature(data, p);
    lemma_hex_signature(data, g);
}

/// Removing `"\r\n"` leaves text without carriage returns unchanged.
proof fn lemma_without_crlf_no_cr(s: Seq<char>)
    requires
        !s.contains('\r'),
    ensures
        without_crlf(s) == s,
    decreases s.len(),
{
    if s.len() > 0 {
        assert(s[0] != '\r');
        assert(!s.skip(1).contains('\r')) by {
            if s.skip(1).contains('\r') {
                let k = choose|k: int| 0 <= k < s.skip(1).len() && s.skip(1)[k] == '\r';
                assert(s[k + 1] == '\r');
            }
        }
        lemma_without_crlf_no_cr(s.skip(1));
        assert(seq![s[0]] + s.skip(1) =~= s);
    }
}

/// Base64 text is four symbols for every three bytes (the last group
/// padded), each a base64 symbol or `=`.
proof fn lemma_base64_text_shape(data: Seq<u8>)
    ensures
        base64_text(data).len() == 4 * ((data.len() + 2) / 3),
        forall|i: int|
            0 <= i < base64_text(data).len() ==> is_base64_symbol(#[trigger] base64_text(data)[i]),
    decreases data.len(),
{
    if data.len() >= 3 {
        lemma_base64_text_shape(data.skip(3));
    }
}

/// The printable ASCII characters other than a double quote and a backslash.
pub open spec fn is_plain_char(c: char) -> bool {
    ' ' <= c <= '~' && c != '"' && c != '\\'
}

/// Every character of the data URL of image data is a plain character.
pub proof fn lemma_data_url_plain(data: Seq<u8>)
    requires
        image_type(data) is Some,
    ensures
        forall|i: int|
            0 <= i < data_url(image_type(data)->0, base64_text(data)).len() ==> is_plain_char(
                #[trigger] data_url(image_type(data)->0, base64_text(data))[i],
            ),
{
    lemma_base64_text_shape(data);
    let kind = image_type(data)->0;
    let b = base64_text(data);
    let u = data_url(kind, b);
    let h = data_url_head().len() + kind.len() + base64_marker().len();
    assert forall|i: int| 0 <= i < u.len() implies is_plain_char(#[trigger] u[i]) by {
        if i >= h {
            assert(u[i] == b[i - h]);
            assert(is_base64_symbol(b[i - h]));
        }
    }
}

/// Base64 text holds neither carriage returns nor commas.
proof fn lemma_base64_symbols(s: Seq<char>)
    requires
        forall|i: int| 0 <= i < s.len() ==> is_base64_symbol(#[trigger] s[i]),
    ensures
        !s.contains('\r'),
        !s.contains(','),
        is_ascii_chars(s),
{
}

/// The part after the first comma of `p + "," + q` is `q` when `p` holds
/// no comma.
proof fn lemma_after_first_comma(p: Seq<char>, q: Seq<char>)
    requires
        !p.contains(','),
    ensures
        after_first_comma(p + seq![','] + q) == Some(q),
    decreases p.len(),
{
    let s = p + seq![','] + q;
    if p.len() == 0 {
        assert(s.skip(1) =~= q);
    } else {
        assert(p[0] != ',');
        assert(!p.skip(1).contains(',')) by {
            if p.skip(1).contains(',') {
                let k = choose|k: int| 0 <= k < p.skip(1).len() && p.skip(1)[k] == ',';
                assert(p[k + 1] == ',');
            }
        }
        lemma_after_first_comma(p.skip(1), q);
        assert(s.skip(1) =~= p.skip(1) + seq![','] + q);
    }
}

/// What `split_once` gives back is the part after the first comma.
proof fn lemma_split_is_after_first_comma(s: Seq<char>, a: Seq<char>, b: Seq<char>)
    requires
        s == a + seq![','] + b,
        !a.contains(','),
    ensures
        after_first_comma(s) == Some(b),
{
    lemma_after_first_comma(a, b);
}

/// Without a comma there is no part after the first comma.
proof fn lemma_no_comma(s: Seq<char>)
    requires
        !s.contains(','),
    ensures
        after_first_comma(s) is None,
    decreases s.len(),
{
    if s.len() > 0 {
        assert(s[0] != ',');
        assert(!s.skip(1).contains(',')) by {
            if s.skip(1).contains(',') {
                let k = choose|k: int| 0 <= k < s.skip(1).len() && s.skip(1)[k] == ',';
                assert(s[k + 1] == ',');
            }
        }
        lemma_no_comma(s.skip(1));
    }
}

// ---------------------------------------------------------------------
// Executable functions
// ---------------------------------------------------------------------

/// The image type ("jpeg", "png" or "gif") whose signature the
/// hexadecimal text `hex` begins with. Text with none of the three
/// signatures is refused (the function panics on it).
pub fn get_file_type(hex: &str) -> (t: &str)
    requires
        file_type_of_hex(hex@) is Some,
    ensures
        t@ == file_type_of_hex(hex@)->0,
{
    let jpeg = "^ffd8ffe0";
    let png = "^89504e47";
    let gif = "^47494638";
    proof {
        reveal_strlit("^ffd8ffe0");
        reveal_strlit("^89504e47");
        reveal_strlit("^47494638");
        reveal_strlit("jpeg");
        reveal_strlit("png");
        reveal_strlit("gif");
        assert(jpeg@.skip(1) =~= jpeg_hex());
        assert(png@.skip(1) =~= png_hex());
        assert(gif@.skip(1) =~= gif_hex());
    }
    if regex_is_match(jpeg, hex) {
        let t = "jpeg";
        assert(t@ =~= jpeg_name());
        t
    } else if regex_is_match(png, hex) {
        let t = "png";
        assert(t@ =~= png_name());
        t
    } else if regex_is_match(gif, hex) {
        let t = "gif";
        assert(t@ =~= gif_name());
        t
    } else {
        proof {
            assert(false);
        }
        ""
    }
}

/// `s` with every `"\r\n"` removed.
fn remove_crlf(s: &str) -> (r: String)
    requires
        s.is_ascii(),
    ensures
        r@ == without_crlf(s@),
{
    let n = s.unicode_len();
    let mut r = String::new();
    let mut i: usize = 0;
    assert(s@.skip(0) =~= s@);
    while i < n
        invariant
            s.is_ascii(),
            n == s@.len(),
            i <= n,
            r@ + without_crlf(s@.skip(i as int)) == without_crlf(s@),
        decreases n - i,
    {
        let rest = Ghost(s@.skip(i as int));
        let b = s.get_ascii(i);
        if b == 13u8 && i + 1 < n && s.get_ascii(i + 1) == 10u8 {
            proof {
                assert(rest@[0] == '\r' && rest@[1] == '\n');
                assert(rest@.skip(2) =~= s@.skip(i + 2));
            }
            i = i + 2;
        } else {
            let c = b as char;
            proof {
                assert(rest@[0] == s@[i as int]);
                assert('\0' <= s@[i as int] <= '\u{7f}');
                assert(c == s@[i as int]);
                assert(rest@.skip(1) =~= s@.skip(i + 1));
                if rest@.len() >= 2 && rest@[0] == '\r' {
                    assert(rest@[1] == s@[i + 1]);
                }
            }
            push_char(&mut r, c);
            i = i + 1;
        }
    }
    proof {
        assert(s@.skip(n as int) =~= Seq::<char>::empty());
    }
    r
}

/// Whether `data` begins with the signature of a jpeg, png or gif file.
pub fn has_image_signature(data: &[u8]) -> (b: bool)
    ensures
        b == (image_type(data@) is Some),
{
    if data.len() < 4 {
        return false;
    }
    let a = data[0];
    let b = data[1];
    let c = data[2];
    let d = data[3];
    let jpeg = a == 0xffu8 && b == 0xd8u8 && c == 0xffu8 && d == 0xe0u8;
    let png = a == 0x89u8 && b == 0x50u8 && c == 0x4eu8 && d == 0x47u8;
    let gif = a == 0x47u8 && b == 0x49u8 && c == 0x46u8 && d == 0x38u8;
    proof {
        let head = data@.subrange(0, 4);
        assert(head =~= seq![a, b, c, d]);
        let pj = seq![0xffu8, 0xd8u8, 0xffu8, 0xe0u8];
        let pp = seq![0x89u8, 0x50u8, 0x4eu8, 0x47u8];
        let pg = seq![0x47u8, 0x49u8, 0x46u8, 0x38u8];
        if head == pj {
            assert(head[0] == pj[0] && head[1] == pj[1] && head[2] == pj[2] && head[3] == pj[3]);
        }
        if jpeg {
            assert(head =~= pj);
        }
        if head == pp {
            assert(head[0] == pp[0] && head[1] == pp[1] && head[2] == pp[2] && head[3] == pp[3]);
        }
        if png {
            assert(head =~= pp);
        }
        if head == pg {
            assert(head[0] == pg[0] && head[1] == pg[1] && head[2] == pg[2] && head[3] == pg[3]);
        }
        if gif {
            assert(head =~= pg);
        }
    }
    jpeg || png || gif
}

/// The `data:` URL of an image: `data:image/<type>;base64,<base64 text>`.
/// Data without a jpeg, png or gif signature is refused (it panics).
pub fn bytes_to_base64(vec: Vec<u8>) -> (url: String)
    requires
        vec@.len() <= usize::MAX / 512,
        image_type(vec@) is Some,
    ensures
        url@ == data_url(image_type(vec@)->0, base64_text(vec@)),
        after_first_comma(url@) == Some(base64_text(vec@)),
        decodable_data_url(url@),
{
    let encoded = base64_encode(vec.as_slice());
    let hex = hex_encode(vec.as_slice());
    proof {
        lemma_file_type_of_hex(vec@);
        lemma_base64_text_shape(vec@);
        lemma_base64_symbols(encoded@);
        lemma_without_crlf_no_cr(encoded@);
        lemma_data_url_payload(vec@, image_type(vec@)->0);
    }
    let kind = get_file_type(hex.as_str());
    let payload = remove_crlf(encoded.as_str());
    let head = "data:image/";
    let marker = ";base64,";
    proof {
        reveal_strlit("data:image/");
        reveal_strlit(";base64,");
    }
    let url = concat_str(head, kind);
    let url = concat_str(url.as_str(), marker);
    let url = concat_str(url.as_str(), payload.as_str());
    assert(url@ =~= data_url(image_type(vec@)->0, base64_text(vec@)));
    url
}

/// Whether `s` is a data URL whose part after the first comma is base64
/// text, short enough to decode.
pub open spec fn decodable_data_url(s: Seq<char>) -> bool {
    &&& after_first_comma(s) is Some
    &&& payload_bytes(s).len() <= usize::MAX / 8
    &&& (is_base64_of_some(payload_bytes(s)) || base64_decoding(payload_bytes(s)) is Some)
}

/// The bytes encoded in base64 after the first comma of a data URL.
/// A text without comma, or whose payload the decoder refuses, is refused
/// (it panics).
pub fn from_base64(base64: String) -> (data: Vec<u8>)
    requires
        decodable_data_url(base64@),
    ensures
        base64_decoding(payload_bytes(base64@)) == Some(data@),
        forall|d: Seq<u8>|
            #![trigger base64_text(d)]
            base64_text(d) == after_first_comma(base64@)->0 ==> data@ == d,
{
    let parts = split_once_char(base64.as_str(), ',');
    match parts {
        Some((head, payload)) => {
            proof {
                lemma_split_is_after_first_comma(base64@, head@, payload@);
            }
            let decoded = base64_decode(payload.as_bytes());
            match decoded {
                Ok(v) => v,
                Err(_) => {
                    // ruled out: the payload is the base64 text of some data,
                    // or one that the decoder accepts
                    proof {
                        if is_base64_of_some(payload_bytes(base64@)) {
                            let d = choose|d: Seq<u8>|
                                payload_bytes(base64@) == encode_utf8(#[trigger] base64_text(d));
                            assert(encode_utf8(payload@) == encode_utf8(base64_text(d)));
                        }
                        assert(false);
                    }
                    Vec::new()
                },
            }
        },
        None => {
            // ruled out: the text has a comma
            proof {
                lemma_no_comma(base64@);
                assert(false);
            }
            Vec::new()
        },
    }
}

/// Decodes the base64 payload of a data URL: `None` when the text has no
/// comma or what follows the first comma is not base64 text.
pub fn decode_data_url(base64: String) -> (data: Option<Vec<u8>>)
    ensures
        data is Some <==> decodable_data_url(base64@),
        data is Some ==> base64_decoding(payload_bytes(base64@)) == Some(data->0@),
        forall|d: Seq<u8>|
            #![trigger base64_text(d)]
            data is Some && base64_text(d) == after_first_comma(base64@)->0 ==> data->0@ == d,
{
    let parts = split_once_char(base64.as_str(), ',');
    match parts {
        Some((head, payload)) => {
            proof {
                lemma_split_is_after_first_comma(base64@, head@, payload@);
            }
            let bytes = payload.as_bytes();
            if bytes.len() > usize::MAX / 8 {
                return None;
            }
            match base64_decode(bytes) {
                Ok(_) => {
                    proof {
                        assert(encode_utf8(payload@) == bytes@);
                    }
                    Some(from_base64(base64))
                },
                Err(_) => {
                    proof {
                        if is_base64_of_some(payload_bytes(base64@)) {
                            let d = choose|d: Seq<u8>|
                                payload_bytes(base64@) == encode_utf8(#[trigger] base64_text(d));
                            assert(encode_utf8(payload@) == encode_utf8(base64_text(d)));
                        }
                    }
                    None
                },
            }
        },
        None => {
            proof {
                lemma_no_comma(base64@);
            }
            None
        },
    }
}

/// The data URL of some data carries its base64 text after the first
/// comma, and can be decoded.
proof fn lemma_data_url_payload(data: Seq<u8>, kind: Seq<char>)
    requires
        kind == jpeg_name() || kind == png_name() || kind == gif_name(),
        forall|i: int|
            0 <= i < base64_text(data).len() ==> is_base64_symbol(#[trigger] base64_text(data)[i]),
        base64_text(data).len() <= usize::MAX / 8,
    ensures
        after_first_comma(data_url(kind, base64_text(data))) == Some(base64_text(data)),
        decodable_data_url(data_url(kind, base64_text(data))),
{
    let b = base64_text(data);
    let head = data_url_head() + kind + seq![';', 'b', 'a', 's', 'e', '6', '4'];
    assert(!head.contains(',')) by {
        if head.contains(',') {
            let k = choose|k: int| 0 <= k < head.len() && head[k] == ',';
            assert(false);
        }
    }
    assert(data_url(kind, b) =~= head + seq![','] + b);
    lemma_after_first_comma(head, b);
    lemma_base64_symbols(b);
    vstd::utf8::is_ascii_chars_encode_utf8(b);
    assert(encode_utf8(b) == encode_utf8(base64_text(data)));
}

/// Law: decoding the data URL made of some image bytes gives the bytes
/// back. `url` is what `bytes_to_base64` returns for `data`, `decoded` what
/// `from_base64` returns for `url`.
pub proof fn lemma_data_url_round_trip(data: Seq<u8>, url: Seq<char>, decoded: Seq<u8>)
    requires
        image_type(data) is Some,
        url == data_url(image_type(data)->0, base64_text(data)),
        after_first_comma(url) == Some(base64_text(data)),
        forall|d: Seq<u8>|
            #![trigger base64_text(d)]
            base64_text(d) == after_first_comma(url)->0 ==> decoded == d,
    ensures
        decoded == data,
{
    assert(base64_text(data) == after_first_comma(url)->0);
    assert(decoded == data);
}

} // verus!
