use vstd::prelude::*;
use vstd::bytes::*;
use vstd::utf8::*;
use vstd::slice::{slice_subrange, slice_to_vec};
use vstd::string::{StrSliceExecFns, StringSliceAdditionalSpecFns};

verus! {

// The canonical wire form used for transactions and payload envelopes:
// fixed-width quantities are eight little-endian bytes, strings are a
// length prefix followed by their UTF-8 form, and enums carry a one-byte
// discriminator tag written by their own encoders.

/// The canonical encoding of a 64-bit quantity: eight little-endian bytes.
pub open spec fn spec_enc_u64(x: u64) -> Seq<u8> {
    spec_u64_to_le_bytes(x)
}

/// Reading a 64-bit quantity back from the front of `b`; the second
/// component is how many bytes were consumed.
pub open spec fn spec_dec_u64(b: Seq<u8>) -> Option<(u64, int)> {
    if b.len() >= 8 {
        Some((spec_u64_from_le_bytes(b.subrange(0, 8)), 8int))
    } else {
        None
    }
}

/// Whether a string's UTF-8 form is short enough for its 64-bit length
/// prefix. Every string that fits in memory satisfies this.
pub open spec fn str_fits(s: Seq<char>) -> bool {
    encode_utf8(s).len() <= u64::MAX
}

/// The canonical encoding of a string: the byte length of its UTF-8 form,
/// then that form.
pub open spec fn spec_enc_str(s: Seq<char>) -> Seq<u8> {
    spec_enc_u64(encode_utf8(s).len() as u64) + encode_utf8(s)
}

/// Reading a string back from the front of `b`: a length, then that many
/// bytes, which must be valid UTF-8.
pub open spec fn spec_dec_str(b: Seq<u8>) -> Option<(Seq<char>, int)> {
    match spec_dec_u64(b) {
        None => None,
        Some((n, _)) => {
            if b.len() - 8 < n {
                None
            } else {
                let body = b.subrange(8, 8 + n as int);
                if valid_utf8(body) {
                    Some((decode_utf8(body), 8 + n as int))
                } else {
                    None
                }
            }
        },
    }
}

pub proof fn lemma_dec_enc_u64(x: u64, rest: Seq<u8>)
    ensures
        spec_dec_u64(spec_enc_u64(x) + rest) == Some((x, 8int)),
{
    lemma_auto_spec_u64_to_from_le_bytes();
    assert((spec_enc_u64(x) + rest).subrange(0, 8) =~= spec_enc_u64(x));
}

pub proof fn lemma_dec_enc_str(s: Seq<char>, rest: Seq<u8>)
    requires
        str_fits(s),
    ensures
        spec_dec_str(spec_enc_str(s) + rest) == Some((s, spec_enc_str(s).len() as int)),
{
    let e = encode_utf8(s);
    let n = e.len() as u64;
    lemma_auto_spec_u64_to_from_le_bytes();
    let all = spec_enc_str(s) + rest;
    assert(all.subrange(0, 8) =~= spec_enc_u64(n));
    assert(all.len() - 8 >= n);
    assert(all.subrange(8, 8 + n as int) =~= e);
    encode_utf8_valid_utf8(s);
    encode_utf8_decode_utf8(s);
}

/// Appends the canonical encoding of `x` to `out`.
pub fn enc_u64_into(out: &mut Vec<u8>, x: u64)
    ensures
        final(out)@ == old(out)@ + spec_enc_u64(x),
{
    let mut tmp = u64_to_le_bytes(x);
    out.append(&mut tmp);
}

/// Appends the canonical encoding of `s` to `out`.
pub fn enc_str_into(out: &mut Vec<u8>, s: &String)
    ensures
        final(out)@ == old(out)@ + spec_enc_str(s@),
        str_fits(s@),
{
    let mut bs = s.as_str().as_bytes_vec();
    let n: u64 = bs.len() as u64;
    enc_u64_into(out, n);
    out.append(&mut bs);
    proof {
        assert(out@ =~= old(out)@ + spec_enc_str(s@));
    }
}

/// Reads a 64-bit quantity at `pos`, returning it with the position just
/// past it.
pub fn dec_u64(b: &Vec<u8>, pos: usize) -> (r: Option<(u64, usize)>)
    requires
        pos <= b@.len(),
    ensures
        (r is Some) == (spec_dec_u64(b@.skip(pos as int)) is Some),
        r matches Some((x, next)) ==> {
            &&& spec_dec_u64(b@.skip(pos as int)) == Some((x, (next - pos) as int))
            &&& pos < next <= b@.len()
        },
{
    if b.len() - pos >= 8 {
        let s = slice_subrange(b.as_slice(), pos, pos + 8);
        proof {
            assert(b@.subrange(pos as int, pos as int + 8) =~= b@.skip(pos as int).subrange(
                0,
                8,
            ));
        }
        let x = u64_from_le_bytes(s);
        Some((x, pos + 8))
    } else {
        None
    }
}

/// Reads a string at `pos`, returning it with the position just past it.
pub fn dec_str(b: &Vec<u8>, pos: usize) -> (r: Option<(String, usize)>)
    requires
        pos <= b@.len(),
    ensures
        (r is Some) == (spec_dec_str(b@.skip(pos as int)) is Some),
        r matches Some(p) ==> {
            &&& spec_dec_str(b@.skip(pos as int)) matches Some(q)
                && p.0@ == q.0
                && p.1 - pos == q.1
            &&& pos < p.1 <= b@.len()
        },
{
    match dec_u64(b, pos) {
        None => None,
        Some((n, p1)) => {
            if ((b.len() - p1) as u64) < n {
                None
            } else {
                let len = n as usize;
                let body = slice_to_vec(slice_subrange(b.as_slice(), p1, p1 + len));
                proof {
                    assert(b@.subrange(p1 as int, p1 as int + len as int) =~= b@.skip(
                        pos as int,
                    ).subrange(8, 8 + n as int));
                }
                match bytes_to_string(body) {
                    None => None,
                    Some(s) => Some((s, p1 + len)),
                }
            }
        },
    }
}

// === the hexadecimal form of the canonical bytes ===

/// One of the sixteen lowercase hexadecimal digits.
pub open spec fn hex_digit_char(n: int) -> char
    recommends
        0 <= n < 16,
{
    if n == 0 {
        '0'
    } else if n == 1 {
        '1'
    } else if n == 2 {
        '2'
    } else if n == 3 {
        '3'
    } else if n == 4 {
        '4'
    } else if n == 5 {
        '5'
    } else if n == 6 {
        '6'
    } else if n == 7 {
        '7'
    } else if n == 8 {
        '8'
    } else if n == 9 {
        '9'
    } else if n == 10 {
        'a'
    } else if n == 11 {
        'b'
    } else if n == 12 {
        'c'
    } else if n == 13 {
        'd'
    } else if n == 14 {
        'e'
    } else {
        'f'
    }
}

/// The lowercase hexadecimal form of a byte sequence: two digits per byte,
/// high nibble first.
pub open spec fn spec_hex_of(b: Seq<u8>) -> Seq<char> {
    Seq::new(
        2 * b.len(),
        |i: int|
            if i % 2 == 0 {
                hex_digit_char(b[i / 2] as int / 16)
            } else {
                hex_digit_char(b[i / 2] as int % 16)
            },
    )
}

/// The numeric value of one hexadecimal digit byte, either case, or 16
/// where the byte is no hexadecimal digit.
pub open spec fn hex_byte_val(c: u8) -> int {
    if 48 <= c <= 57 {
        c - 48
    } else if 97 <= c <= 102 {
        c - 87
    } else if 65 <= c <= 70 {
        c - 55
    } else {
        16
    }
}

pub open spec fn all_hex_bytes(b: Seq<u8>) -> bool {
    forall|i: int| 0 <= i < b.len() ==> hex_byte_val(#[trigger] b[i]) < 16
}

/// Reading a byte sequence back from its hexadecimal form: an even count
/// of digit bytes decodes pairwise, high nibble first; anything else is
/// rejected.
pub open spec fn spec_hex_decode(b: Seq<u8>) -> Option<Seq<u8>> {
    if b.len() % 2 == 0 && all_hex_bytes(b) {
        Some(
            Seq::new(
                b.len() / 2,
                |i: int| (hex_byte_val(b[2 * i]) * 16 + hex_byte_val(b[2 * i + 1])) as u8,
            ),
        )
    } else {
        None
    }
}

proof fn lemma_hex_digit_val(n: int)
    requires
        0 <= n < 16,
    ensures
        hex_byte_val(hex_digit_char(n) as u8) == n,
        '\0' <= hex_digit_char(n) <= '\u{7f}',
{
}

/// The hexadecimal form decodes back to the bytes it was made from.
pub proof fn lemma_hex_roundtrip(b: Seq<u8>)
    ensures
        is_ascii_chars(spec_hex_of(b)),
        spec_hex_decode(encode_utf8(spec_hex_of(b))) == Some(b),
{
    let h = spec_hex_of(b);
    assert forall|i: int| 0 <= i < h.len() implies '\0' <= #[trigger] h[i] <= '\u{7f}' by {
        if i % 2 == 0 {
            lemma_hex_digit_val(b[i / 2] as int / 16);
        } else {
            lemma_hex_digit_val(b[i / 2] as int % 16);
        }
    }
    assert(is_ascii_chars(h));
    is_ascii_chars_encode_utf8(h);
    let eb = encode_utf8(h);
    assert(eb.len() == 2 * b.len());
    assert forall|i: int| 0 <= i < eb.len() implies hex_byte_val(#[trigger] eb[i]) < 16 by {
        assert(eb[i] == h[i] as u8);
        if i % 2 == 0 {
            lemma_hex_digit_val(b[i / 2] as int / 16);
        } else {
            lemma_hex_digit_val(b[i / 2] as int % 16);
        }
    }
    let d = spec_hex_decode(eb)->Some_0;
    assert forall|i: int| 0 <= i < b.len() implies d[i] == b[i] by {
        assert(eb[2 * i] == h[2 * i] as u8);
        assert(eb[2 * i + 1] == h[2 * i + 1] as u8);
        lemma_hex_digit_val(b[i] as int / 16);
        lemma_hex_digit_val(b[i] as int % 16);
    }
    assert(d =~= b);
}

// === trusted conversions at the byte/text boundary ===

/// Relies on String::from_utf8: it succeeds exactly on valid UTF-8 and
/// returns the string whose UTF-8 form is the input.
#[verifier::external_body]
pub fn bytes_to_string(v: Vec<u8>) -> (r: Option<String>)
    ensures
        (r is Some) == valid_utf8(v@),
        r matches Some(s) ==> s@ == decode_utf8(v@),
{
    String::from_utf8(v).ok()
}

/// What String::from_utf8_lossy returns: a function of the bytes alone.
pub uninterp spec fn utf8_lossy_of(b: Seq<u8>) -> Seq<char>;

/// Relies on String::from_utf8_lossy: the result depends on the bytes
/// alone, and valid UTF-8 passes through unchanged.
#[verifier::external_body]
pub fn bytes_to_string_lossy(v: &Vec<u8>) -> (r: String)
    ensures
        r@ == utf8_lossy_of(v@),
        valid_utf8(v@) ==> r@ == decode_utf8(v@),
{
    String::from_utf8_lossy(v.as_slice()).into_owned()
}

/// Relies on hex::encode: lowercase, two digits for each byte, in order.
#[verifier::external_body]
pub fn hex_encode(b: &Vec<u8>) -> (r: String)
    ensures
        r@ == spec_hex_of(b@),
{
    hex::encode(b.as_slice())
}

/// Relies on hex::decode: an even count of ASCII hexadecimal digit bytes,
/// either case, decodes pairwise with the high nibble first; an odd length
/// or any other byte is an error.
#[verifier::external_body]
pub fn hex_decode(s: &str) -> (r: Option<Vec<u8>>)
    ensures
        (r is Some) == (spec_hex_decode(s.spec_bytes()) is Some),
        r matches Some(v) ==> spec_hex_decode(s.spec_bytes()) == Some(v@),
{
    hex::decode(s).ok()
}

} // verus!
