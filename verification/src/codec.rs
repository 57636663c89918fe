//! The result codec: a compact, self-describing binary envelope for a
//! build outcome. A leading discriminant byte says which variant the
//! envelope carries; every payload is length-prefixed; text payloads are
//! carried code point by code point so that decoding inverts encoding
//! exactly.
//!
//! Layout. A successful outcome is `1`, then for the markup and script
//! payloads a little-endian 32-bit code-point count followed by the code
//! points, four little-endian bytes each, then the module's byte count
//! and its raw bytes. A compile error is `2`, then the diagnostic in the
//! same counted-code-point form. An outcome with a payload whose length
//! does not fit 32 bits is not representable and is refused.

use vstd::prelude::*;
use vstd::arithmetic::div_mod::{
    lemma_div_denominator,
    lemma_fundamental_div_mod,
    lemma_fundamental_div_mod_converse,
    lemma_multiply_divide_lt,
};
use vstd::string::*;
use crate::errors::ApiError;
use crate::outcome::{OutcomeView, Response};
use crate::strutil::push_char;

verus! {

/// Relies on char::from_u32: `Some` exactly for a unicode scalar value
/// (below the surrogate range or above it, up to the largest code
/// point), returning the char with that code point.
pub assume_specification[ char::from_u32 ](i: u32) -> (r: Option<char>)
    ensures
        (i < 0xD800 || (0xE000 <= i && i <= 0x10FFFF)) == (r is Some),
        r matches Some(c) ==> c as u32 == i,
;

/// The four little-endian bytes of a 32-bit value.
pub open spec fn spec_le32(n: int) -> Seq<u8>
    recommends
        0 <= n < 0x1_0000_0000,
{
    seq![
        (n % 256) as u8,
        ((n / 256) % 256) as u8,
        ((n / 65536) % 256) as u8,
        ((n / 16777216) % 256) as u8,
    ]
}

/// The value four little-endian bytes carry.
pub open spec fn spec_le32_value(b: Seq<u8>) -> int
    recommends
        b.len() == 4,
{
    b[0] + 256 * b[1] + 65536 * b[2] + 16777216 * b[3]
}

/// Reading back the four bytes of a 32-bit value yields the value.
pub proof fn lemma_le32_round_trip(n: int)
    requires
        0 <= n < 0x1_0000_0000,
    ensures
        spec_le32(n).len() == 4,
        spec_le32_value(spec_le32(n)) == n,
{
    lemma_fundamental_div_mod(n, 256);
    lemma_fundamental_div_mod(n / 256, 256);
    lemma_fundamental_div_mod(n / 65536, 256);
    lemma_div_denominator(n, 256, 256);
    lemma_div_denominator(n, 65536, 256);
    lemma_multiply_divide_lt(n, 16777216, 256);
    assert(n / 16777216 < 256);
    assert((n / 16777216) % 256 == n / 16777216) by {
        lemma_fundamental_div_mod_converse(n / 16777216, 256, 0, n / 16777216);
    }
}

/// Four bytes are exactly the encoding of the value they carry.
pub proof fn lemma_le32_bytes_inverse(b: Seq<u8>)
    requires
        b.len() == 4,
    ensures
        0 <= spec_le32_value(b) < 0x1_0000_0000,
        spec_le32(spec_le32_value(b)) == b,
{
    let n = spec_le32_value(b);
    assert(n == (b[1] + 256 * b[2] + 65536 * b[3]) * 256 + b[0]);
    lemma_fundamental_div_mod_converse(n, 256, b[1] + 256 * b[2] + 65536 * b[3], b[0] as int);
    let q1 = n / 256;
    assert(q1 == (b[2] + 256 * b[3]) * 256 + b[1]);
    lemma_fundamental_div_mod_converse(q1, 256, b[2] + 256 * b[3], b[1] as int);
    let q2 = q1 / 256;
    assert(q2 == (b[3] as int) * 256 + b[2]);
    lemma_fundamental_div_mod_converse(q2, 256, b[3] as int, b[2] as int);
    let q3 = q2 / 256;
    lemma_fundamental_div_mod_converse(q3, 256, 0, b[3] as int);
    lemma_div_denominator(n, 256, 256);
    lemma_div_denominator(n, 65536, 256);
    assert(n / 65536 == q2);
    assert(n / 16777216 == q3);
    assert(spec_le32(n) =~= b);
}

/// The four little-endian bytes of one character's code point.
pub open spec fn spec_char_bytes(c: char) -> Seq<u8> {
    spec_le32((c as u32) as int)
}

/// The code points of `s`, four little-endian bytes each.
pub open spec fn spec_enc_chars(s: Seq<char>) -> Seq<u8>
    decreases s.len(),
{
    if s.len() == 0 {
        Seq::empty()
    } else {
        spec_char_bytes(s[0]) + spec_enc_chars(s.skip(1))
    }
}

/// Each code point takes exactly four bytes.
pub proof fn lemma_enc_chars_len(s: Seq<char>)
    ensures
        spec_enc_chars(s).len() == 4 * s.len(),
    decreases s.len(),
{
    if s.len() > 0 {
        lemma_enc_chars_len(s.skip(1));
    }
}

/// Appending one character appends its four bytes.
pub proof fn lemma_enc_chars_push(s: Seq<char>, c: char)
    ensures
        spec_enc_chars(s.push(c)) == spec_enc_chars(s) + spec_char_bytes(c),
    decreases s.len(),
{
    lemma_enc_chars_len(s);
    lemma_enc_chars_len(s.push(c));
    if s.len() == 0 {
        assert(s.push(c)[0] == c);
        assert(s.push(c).skip(1) =~= Seq::<char>::empty());
        assert(spec_enc_chars(s.push(c)) =~= spec_enc_chars(s) + spec_char_bytes(c));
    } else {
        assert(s.push(c)[0] == s[0]);
        assert(s.push(c).skip(1) =~= s.skip(1).push(c));
        lemma_enc_chars_push(s.skip(1), c);
        assert(spec_enc_chars(s.push(c)) =~= spec_enc_chars(s) + spec_char_bytes(c));
    }
}

/// The bytes of the `i`-th character sit at positions `4*i .. 4*i+4`.
pub proof fn lemma_enc_chars_group(s: Seq<char>, i: int)
    requires
        0 <= i < s.len(),
    ensures
        spec_enc_chars(s).subrange(4 * i, 4 * i + 4) == spec_char_bytes(s[i]),
    decreases i,
{
    lemma_enc_chars_len(s);
    lemma_enc_chars_len(s.skip(1));
    if i == 0 {
        assert(spec_enc_chars(s).subrange(0, 4) =~= spec_char_bytes(s[0]));
    } else {
        lemma_enc_chars_group(s.skip(1), i - 1);
        assert(spec_enc_chars(s).subrange(4 * i, 4 * i + 4) =~= spec_enc_chars(
            s.skip(1),
        ).subrange(4 * (i - 1), 4 * (i - 1) + 4));
        assert(s.skip(1)[i - 1] == s[i]);
    }
}

/// Whether an outcome fits the envelope: every payload length must fit
/// in 32 bits.
pub open spec fn spec_encodable(o: OutcomeView) -> bool {
    match o {
        OutcomeView::Output { index_html, js, wasm } => {
            &&& index_html.len() < 0x1_0000_0000
            &&& js.len() < 0x1_0000_0000
            &&& wasm.len() < 0x1_0000_0000
        },
        OutcomeView::CompileError { diagnostic } => diagnostic.len() < 0x1_0000_0000,
    }
}

/// The envelope of an outcome.
pub open spec fn spec_encode(o: OutcomeView) -> Seq<u8>
    recommends
        spec_encodable(o),
{
    match o {
        OutcomeView::Output { index_html, js, wasm } => seq![1u8] + spec_le32(
            index_html.len() as int,
        ) + spec_enc_chars(index_html) + spec_le32(js.len() as int) + spec_enc_chars(js)
            + spec_le32(wasm.len() as int) + wasm,
        OutcomeView::CompileError { diagnostic } => seq![2u8] + spec_le32(
            diagnostic.len() as int,
        ) + spec_enc_chars(diagnostic),
    }
}

/// Where every piece of the envelope sits.
pub proof fn lemma_encoding_shape(v: OutcomeView)
    requires
        spec_encodable(v),
    ensures
        ({
            let b = spec_encode(v);
            match v {
                OutcomeView::Output { index_html, js, wasm } => {
                    let h = index_html.len() as int;
                    let j = js.len() as int;
                    let w = wasm.len() as int;
                    &&& b.len() == 13 + 4 * h + 4 * j + w
                    &&& b[0] == 1u8
                    &&& b.subrange(1, 5) == spec_le32(h)
                    &&& b.subrange(5, 5 + 4 * h) == spec_enc_chars(index_html)
                    &&& b.subrange(5 + 4 * h, 9 + 4 * h) == spec_le32(j)
                    &&& b.subrange(9 + 4 * h, 9 + 4 * h + 4 * j) == spec_enc_chars(js)
                    &&& b.subrange(9 + 4 * h + 4 * j, 13 + 4 * h + 4 * j) == spec_le32(w)
                    &&& b.subrange(13 + 4 * h + 4 * j, b.len() as int) == wasm
                },
                OutcomeView::CompileError { diagnostic } => {
                    let d = diagnostic.len() as int;
                    &&& b.len() == 5 + 4 * d
                    &&& b[0] == 2u8
                    &&& b.subrange(1, 5) == spec_le32(d)
                    &&& b.subrange(5, 5 + 4 * d) == spec_enc_chars(diagnostic)
                },
            }
        }),
{
    match v {
        OutcomeView::Output { index_html, js, wasm } => {
            let h = index_html.len() as int;
            let j = js.len() as int;
            let w = wasm.len() as int;
            let b = spec_encode(v);
            lemma_enc_chars_len(index_html);
            lemma_enc_chars_len(js);
            assert(b.subrange(1, 5) =~= spec_le32(h));
            assert(b.subrange(5, 5 + 4 * h) =~= spec_enc_chars(index_html));
            assert(b.subrange(5 + 4 * h, 9 + 4 * h) =~= spec_le32(j));
            assert(b.subrange(9 + 4 * h, 9 + 4 * h + 4 * j) =~= spec_enc_chars(js));
            assert(b.subrange(9 + 4 * h + 4 * j, 13 + 4 * h + 4 * j) =~= spec_le32(w));
            assert(b.subrange(13 + 4 * h + 4 * j, b.len() as int) =~= wasm);
        },
        OutcomeView::CompileError { diagnostic } => {
            let d = diagnostic.len() as int;
            let b = spec_encode(v);
            lemma_enc_chars_len(diagnostic);
            assert(b.subrange(1, 5) =~= spec_le32(d));
            assert(b.subrange(5, 5 + 4 * d) =~= spec_enc_chars(diagnostic));
        },
    }
}

fn append_le32(v: &mut Vec<u8>, n: u32)
    ensures
        final(v)@ == old(v)@ + spec_le32(n as int),
{
    v.push((n % 256) as u8);
    v.push(((n / 256) % 256) as u8);
    v.push(((n / 65536) % 256) as u8);
    v.push(((n / 16777216) % 256) as u8);
    assert(v@ =~= old(v)@ + spec_le32(n as int));
}

fn append_chars(v: &mut Vec<u8>, s: &str)
    ensures
        final(v)@ == old(v)@ + spec_enc_chars(s@),
{
    let n = s.unicode_len();
    proof {
        assert(s@.take(0) =~= Seq::<char>::empty());
        assert(v@ + spec_enc_chars(s@.take(0)) =~= v@);
    }
    let mut i: usize = 0;
    while i < n
        invariant
            0 <= i <= n,
            n == s@.len(),
            v@ == old(v)@ + spec_enc_chars(s@.take(i as int)),
        decreases n - i,
    {
        let c = s.get_char(i);
        proof {
            lemma_enc_chars_push(s@.take(i as int), c);
            assert(s@.take(i as int).push(c) =~= s@.take(i + 1));
        }
        append_le32(v, c as u32);
        proof {
            assert(v@ =~= old(v)@ + spec_enc_chars(s@.take(i + 1)));
        }
        i = i + 1;
    }
    proof {
        assert(s@.take(n as int) =~= s@);
    }
}

fn append_bytes(v: &mut Vec<u8>, extra: &Vec<u8>)
    ensures
        final(v)@ == old(v)@ + extra@,
{
    let n = extra.len();
    proof {
        assert(v@ + extra@.take(0) =~= v@);
    }
    let mut i: usize = 0;
    while i < n
        invariant
            0 <= i <= n,
            n == extra@.len(),
            v@ == old(v)@ + extra@.take(i as int),
        decreases n - i,
    {
        v.push(extra[i]);
        proof {
            assert(v@ =~= old(v)@ + extra@.take(i + 1));
        }
        i = i + 1;
    }
    proof {
        assert(extra@.take(n as int) =~= extra@);
    }
}

/// Encodes a build outcome into its envelope. Refused (distinctly from
/// any build failure) exactly when a payload length does not fit 32
/// bits.
pub fn encode(outcome: &Response) -> (r: Result<Vec<u8>, ApiError>)
    ensures
        spec_encodable(outcome@) ==> (r matches Ok(v) && v@ == spec_encode(outcome@)),
        !spec_encodable(outcome@) ==> (r matches Err(e) && e is CodecError),
{
    match outcome {
        Response::Output { index_html, js, wasm } => {
            let h_len = index_html.as_str().unicode_len();
            let j_len = js.as_str().unicode_len();
            let w_len = wasm.len();
            if (h_len as u64) >= 0x1_0000_0000u64 || (j_len as u64) >= 0x1_0000_0000u64 || (
            w_len as u64) >= 0x1_0000_0000u64 {
                return Result::Err(ApiError::CodecError);
            }
            let mut v: Vec<u8> = Vec::new();
            v.push(1u8);
            append_le32(&mut v, h_len as u32);
            append_chars(&mut v, index_html.as_str());
            append_le32(&mut v, j_len as u32);
            append_chars(&mut v, js.as_str());
            append_le32(&mut v, w_len as u32);
            append_bytes(&mut v, wasm);
            proof {
                lemma_enc_chars_len(index_html@);
                lemma_enc_chars_len(js@);
                assert(v@ =~= spec_encode(outcome@));
            }
            Result::Ok(v)
        },
        Response::CompileError(diagnostic) => {
            let d_len = diagnostic.as_str().unicode_len();
            if (d_len as u64) >= 0x1_0000_0000u64 {
                return Result::Err(ApiError::CodecError);
            }
            let mut v: Vec<u8> = Vec::new();
            v.push(2u8);
            append_le32(&mut v, d_len as u32);
            append_chars(&mut v, diagnostic.as_str());
            proof {
                lemma_enc_chars_len(diagnostic@);
                assert(v@ =~= spec_encode(outcome@));
            }
            Result::Ok(v)
        },
    }
}

fn read_le32_at(bytes: &Vec<u8>, p: usize) -> (n: u32)
    requires
        p + 4 <= bytes@.len(),
    ensures
        n as int == spec_le32_value(bytes@.subrange(p as int, p + 4)),
{
    let total = bytes.len();
    let b0 = bytes[p] as u32;
    let b1 = bytes[p + 1] as u32;
    let b2 = bytes[p + 2] as u32;
    let b3 = bytes[p + 3] as u32;
    b0 + 256 * b1 + 65536 * b2 + 16777216 * b3
}

fn read_bytes(bytes: &Vec<u8>, pos: usize, count: usize) -> (r: Vec<u8>)
    requires
        pos + count <= bytes@.len(),
    ensures
        r@ == bytes@.subrange(pos as int, pos + count),
{
    let total = bytes.len();
    let mut r: Vec<u8> = Vec::new();
    proof {
        assert(r@ =~= bytes@.subrange(pos as int, pos as int));
    }
    let mut i: usize = 0;
    while i < count
        invariant
            pos + count <= bytes@.len(),
            0 <= i <= count,
            bytes@.len() <= usize::MAX,
            r@ == bytes@.subrange(pos as int, pos + i),
        decreases count - i,
    {
        r.push(bytes[pos + i]);
        proof {
            assert(r@ =~= bytes@.subrange(pos as int, pos + i + 1));
        }
        i = i + 1;
    }
    r
}

fn read_chars(bytes: &Vec<u8>, pos: usize, count: usize) -> (r: Option<String>)
    requires
        pos + 4 * count <= bytes@.len(),
    ensures
        r matches Some(s) ==> s@.len() == count && spec_enc_chars(s@) == bytes@.subrange(
            pos as int,
            pos + 4 * count,
        ),
        r is None ==> forall|t: Seq<char>|
            t.len() == count ==> spec_enc_chars(t) != bytes@.subrange(
                pos as int,
                pos + 4 * count,
            ),
{
    let total = bytes.len();
    let mut s = String::new();
    proof {
        assert(spec_enc_chars(s@) =~= bytes@.subrange(pos as int, pos as int));
    }
    let mut i: usize = 0;
    while i < count
        invariant
            pos + 4 * count <= bytes@.len(),
            0 <= i <= count,
            bytes@.len() <= usize::MAX,
            s@.len() == i,
            spec_enc_chars(s@) == bytes@.subrange(pos as int, pos + 4 * i),
        decreases count - i,
    {
        let p = pos + 4 * i;
        let n = read_le32_at(bytes, p);
        let ghost group = bytes@.subrange(p as int, p + 4);
        match char::from_u32(n) {
            Option::Some(c) => {
                proof {
                    lemma_le32_bytes_inverse(group);
                    assert(spec_char_bytes(c) == group);
                    lemma_enc_chars_push(s@, c);
                    assert(bytes@.subrange(pos as int, pos + 4 * i) + group =~= bytes@.subrange(
                        pos as int,
                        pos + 4 * (i + 1),
                    ));
                }
                push_char(&mut s, c);
                i = i + 1;
            },
            Option::None => {
                proof {
                    lemma_no_text_matches(bytes@, pos as int, count as int, i as int, n);
                }
                return Option::None;
            },
        }
    }
    Option::Some(s)
}

/// When one four-byte group carries no unicode scalar value, no text of
/// the expected length encodes to these bytes.
proof fn lemma_no_text_matches(bytes: Seq<u8>, pos: int, count: int, i: int, n: u32)
    requires
        0 <= pos,
        0 <= i < count,
        pos + 4 * count <= bytes.len(),
        n as int == spec_le32_value(bytes.subrange(pos + 4 * i, pos + 4 * i + 4)),
        !(n < 0xD800 || (0xE000 <= n && n <= 0x10FFFF)),
    ensures
        forall|t: Seq<char>|
            t.len() == count ==> spec_enc_chars(t) != bytes.subrange(pos, pos + 4 * count),
{
    assert forall|t: Seq<char>| t.len() == count implies spec_enc_chars(t) != bytes.subrange(
        pos,
        pos + 4 * count,
    ) by {
        if spec_enc_chars(t) == bytes.subrange(pos, pos + 4 * count) {
            lemma_enc_chars_group(t, i);
            assert(bytes.subrange(pos, pos + 4 * count).subrange(4 * i, 4 * i + 4)
                =~= bytes.subrange(pos + 4 * i, pos + 4 * i + 4));
            lemma_le32_round_trip((t[i] as u32) as int);
            assert(t[i] as u32 == n);
            vstd::utf8::char_is_scalar(t[i]);
        }
    }
}

/// The layout facts an encoded envelope forces, keyed by its first byte.
proof fn lemma_witness_shape(bytes: Seq<u8>, v: OutcomeView)
    requires
        spec_encodable(v),
        spec_encode(v) == bytes,
    ensures
        bytes.len() >= 5,
        bytes[0] == 1u8 || bytes[0] == 2u8,
        bytes[0] == 1u8 ==> (v matches OutcomeView::Output { index_html, js, wasm } && ({
            let h = index_html.len() as int;
            let j = js.len() as int;
            let w = wasm.len() as int;
            &&& h < 0x1_0000_0000 && j < 0x1_0000_0000 && w < 0x1_0000_0000
            &&& bytes.len() == 13 + 4 * h + 4 * j + w
            &&& spec_le32_value(bytes.subrange(1, 5)) == h
            &&& bytes.subrange(5, 5 + 4 * h) == spec_enc_chars(index_html)
            &&& spec_le32_value(bytes.subrange(5 + 4 * h, 9 + 4 * h)) == j
            &&& bytes.subrange(9 + 4 * h, 9 + 4 * h + 4 * j) == spec_enc_chars(js)
            &&& spec_le32_value(bytes.subrange(9 + 4 * h + 4 * j, 13 + 4 * h + 4 * j)) == w
            &&& bytes.subrange(13 + 4 * h + 4 * j, bytes.len() as int) == wasm
        })),
        bytes[0] == 2u8 ==> (v matches OutcomeView::CompileError { diagnostic } && ({
            let d = diagnostic.len() as int;
            &&& d < 0x1_0000_0000
            &&& bytes.len() == 5 + 4 * d
            &&& spec_le32_value(bytes.subrange(1, 5)) == d
            &&& bytes.subrange(5, 5 + 4 * d) == spec_enc_chars(diagnostic)
        })),
{
    lemma_encoding_shape(v);
    match v {
        OutcomeView::Output { index_html, js, wasm } => {
            lemma_le32_round_trip(index_html.len() as int);
            lemma_le32_round_trip(js.len() as int);
            lemma_le32_round_trip(wasm.len() as int);
        },
        OutcomeView::CompileError { diagnostic } => {
            lemma_le32_round_trip(diagnostic.len() as int);
        },
    }
}

/// Whether some encodable outcome has this envelope.
pub open spec fn spec_decodable(bytes: Seq<u8>) -> bool {
    exists|v: OutcomeView| spec_encodable(v) && spec_encode(v) == bytes
}

/// Decodes an envelope. Succeeds exactly on the encodings of encodable
/// outcomes, and then returns the one outcome with that envelope; any
/// malformed input is refused with `CodecError`.
pub fn decode(bytes: &Vec<u8>) -> (r: Result<Response, ApiError>)
    ensures
        r matches Ok(o) ==> spec_encodable(o@) && bytes@ == spec_encode(o@),
        spec_decodable(bytes@) ==> r is Ok,
        r matches Err(e) ==> e is CodecError,
{
    let len = bytes.len();
    if len < 5 {
        proof {
            if spec_decodable(bytes@) {
                let v = choose|v: OutcomeView|
                    spec_encodable(v) && spec_encode(v) == bytes@;
                lemma_witness_shape(bytes@, v);
            }
        }
        return Result::Err(ApiError::CodecError);
    }
    let tag = bytes[0];
    if tag == 1 {
        decode_output(bytes)
    } else if tag == 2 {
        decode_diagnostic(bytes)
    } else {
        proof {
            if spec_decodable(bytes@) {
                let v = choose|v: OutcomeView|
                    spec_encodable(v) && spec_encode(v) == bytes@;
                lemma_witness_shape(bytes@, v);
            }
        }
        Result::Err(ApiError::CodecError)
    }
}

#[verifier::rlimit(100)]
fn decode_output(bytes: &Vec<u8>) -> (r: Result<Response, ApiError>)
    requires
        bytes@.len() >= 5,
        bytes@[0] == 1u8,
    ensures
        r matches Ok(o) ==> spec_encodable(o@) && bytes@ == spec_encode(o@),
        spec_decodable(bytes@) ==> r is Ok,
        r matches Err(e) ==> e is CodecError,
{
    let len = bytes.len();
    let h32 = read_le32_at(bytes, 1);
    if 4u64 * (h32 as u64) > (len - 5) as u64 {
        proof {
            if spec_decodable(bytes@) {
                let v = choose|v: OutcomeView|
                    spec_encodable(v) && spec_encode(v) == bytes@;
                lemma_witness_shape(bytes@, v);
            }
        }
        return Result::Err(ApiError::CodecError);
    }
    let h = h32 as usize;
    let index_html = match read_chars(bytes, 5, h) {
        Option::Some(s) => s,
        Option::None => {
            proof {
                if spec_decodable(bytes@) {
                    let v = choose|v: OutcomeView|
                        spec_encodable(v) && spec_encode(v) == bytes@;
                    lemma_witness_shape(bytes@, v);
                }
            }
            return Result::Err(ApiError::CodecError);
        },
    };
    let hend = 5 + 4 * h;
    if len - hend < 4 {
        proof {
            if spec_decodable(bytes@) {
                let v = choose|v: OutcomeView|
                    spec_encodable(v) && spec_encode(v) == bytes@;
                lemma_witness_shape(bytes@, v);
            }
        }
        return Result::Err(ApiError::CodecError);
    }
    let j32 = read_le32_at(bytes, hend);
    let jpos = hend + 4;
    if 4u64 * (j32 as u64) > (len - jpos) as u64 {
        proof {
            if spec_decodable(bytes@) {
                let v = choose|v: OutcomeView|
                    spec_encodable(v) && spec_encode(v) == bytes@;
                lemma_witness_shape(bytes@, v);
            }
        }
        return Result::Err(ApiError::CodecError);
    }
    let j = j32 as usize;
    let js = match read_chars(bytes, jpos, j) {
        Option::Some(s) => s,
        Option::None => {
            proof {
                if spec_decodable(bytes@) {
                    let v = choose|v: OutcomeView|
                        spec_encodable(v) && spec_encode(v) == bytes@;
                    lemma_witness_shape(bytes@, v);
                }
            }
            return Result::Err(ApiError::CodecError);
        },
    };
    let jend = jpos + 4 * j;
    if len - jend < 4 {
        proof {
            if spec_decodable(bytes@) {
                let v = choose|v: OutcomeView|
                    spec_encodable(v) && spec_encode(v) == bytes@;
                lemma_witness_shape(bytes@, v);
            }
        }
        return Result::Err(ApiError::CodecError);
    }
    let w32 = read_le32_at(bytes, jend);
    let wpos = jend + 4;
    if (w32 as u64) != (len - wpos) as u64 {
        proof {
            if spec_decodable(bytes@) {
                let v = choose|v: OutcomeView|
                    spec_encodable(v) && spec_encode(v) == bytes@;
                lemma_witness_shape(bytes@, v);
            }
        }
        return Result::Err(ApiError::CodecError);
    }
    let wasm = read_bytes(bytes, wpos, w32 as usize);
    let outcome = Response::Output { index_html, js, wasm };
    proof {
        let h_i = h as int;
        let j_i = j as int;
        lemma_le32_bytes_inverse(bytes@.subrange(1, 5));
        lemma_le32_bytes_inverse(bytes@.subrange(5 + 4 * h_i, 9 + 4 * h_i));
        lemma_le32_bytes_inverse(bytes@.subrange(9 + 4 * h_i + 4 * j_i, 13 + 4 * h_i + 4 * j_i));
        assert(bytes@.subrange(0, 1) =~= seq![1u8]);
        assert(bytes@ =~= bytes@.subrange(0, 1) + bytes@.subrange(1, 5) + bytes@.subrange(
            5,
            5 + 4 * h_i,
        ) + bytes@.subrange(5 + 4 * h_i, 9 + 4 * h_i) + bytes@.subrange(
            9 + 4 * h_i,
            9 + 4 * h_i + 4 * j_i,
        ) + bytes@.subrange(9 + 4 * h_i + 4 * j_i, 13 + 4 * h_i + 4 * j_i) + bytes@.subrange(
            13 + 4 * h_i + 4 * j_i,
            bytes@.len() as int,
        ));
        assert(bytes@ == spec_encode(outcome@));
    }
    Result::Ok(outcome)
}

#[verifier::rlimit(100)]
fn decode_diagnostic(bytes: &Vec<u8>) -> (r: Result<Response, ApiError>)
    requires
        bytes@.len() >= 5,
        bytes@[0] == 2u8,
    ensures
        r matches Ok(o) ==> spec_encodable(o@) && bytes@ == spec_encode(o@),
        spec_decodable(bytes@) ==> r is Ok,
        r matches Err(e) ==> e is CodecError,
{
    let len = bytes.len();
    let d32 = read_le32_at(bytes, 1);
    if 4u64 * (d32 as u64) != (len - 5) as u64 {
        proof {
            if spec_decodable(bytes@) {
                let v = choose|v: OutcomeView|
                    spec_encodable(v) && spec_encode(v) == bytes@;
                lemma_witness_shape(bytes@, v);
            }
        }
        return Result::Err(ApiError::CodecError);
    }
    let diagnostic = match read_chars(bytes, 5, d32 as usize) {
        Option::Some(s) => s,
        Option::None => {
            proof {
                if spec_decodable(bytes@) {
                    let v = choose|v: OutcomeView|
                        spec_encodable(v) && spec_encode(v) == bytes@;
                    lemma_witness_shape(bytes@, v);
                }
            }
            return Result::Err(ApiError::CodecError);
        },
    };
    let outcome = Response::CompileError(diagnostic);
    proof {
        let d_i = d32 as int;
        lemma_le32_bytes_inverse(bytes@.subrange(1, 5));
        assert(bytes@.subrange(0, 1) =~= seq![2u8]);
        assert(bytes@ =~= bytes@.subrange(0, 1) + bytes@.subrange(1, 5) + bytes@.subrange(
            5,
            5 + 4 * d_i,
        ));
        assert(bytes@ == spec_encode(outcome@));
    }
    Result::Ok(outcome)
}

/// Two characters with the same four bytes are the same character.
proof fn lemma_char_bytes_decide(c1: char, c2: char)
    requires
        spec_char_bytes(c1) == spec_char_bytes(c2),
    ensures
        c1 == c2,
{
    lemma_le32_round_trip((c1 as u32) as int);
    lemma_le32_round_trip((c2 as u32) as int);
    assert(c1 as u32 == c2 as u32);
}

/// Texts with the same code-point bytes are the same text.
proof fn lemma_enc_chars_pointwise(s1: Seq<char>, s2: Seq<char>)
    requires
        s1.len() == s2.len(),
        spec_enc_chars(s1) == spec_enc_chars(s2),
    ensures
        s1 == s2,
{
    assert forall|i: int| 0 <= i < s1.len() implies s1[i] == s2[i] by {
        lemma_enc_chars_group(s1, i);
        lemma_enc_chars_group(s2, i);
        lemma_char_bytes_decide(s1[i], s2[i]);
    }
    assert(s1 =~= s2);
}

/// Law (round trip): the envelope decides its outcome. Two encodable
/// outcomes with the same envelope are the same outcome, so together
/// with the contracts of `encode` and `decode`, decoding inverts
/// encoding for every representable outcome.
pub proof fn lemma_encode_injective(a: OutcomeView, b: OutcomeView)
    requires
        spec_encodable(a),
        spec_encodable(b),
        spec_encode(a) == spec_encode(b),
    ensures
        a == b,
{
    lemma_encoding_shape(a);
    lemma_encoding_shape(b);
    let ea = spec_encode(a);
    let eb = spec_encode(b);
    match a {
        OutcomeView::Output { index_html: h1, js: j1, wasm: w1 } => {
            assert(eb[0] == 1u8);
            match b {
                OutcomeView::Output { index_html: h2, js: j2, wasm: w2 } => {
                    lemma_le32_round_trip(h1.len() as int);
                    lemma_le32_round_trip(h2.len() as int);
                    assert(ea.subrange(1, 5) == spec_le32(h1.len() as int));
                    assert(eb.subrange(1, 5) == spec_le32(h2.len() as int));
                    assert(h1.len() == h2.len());
                    assert(ea.subrange(5, 5 + 4 * h1.len() as int) == eb.subrange(
                        5,
                        5 + 4 * h2.len() as int,
                    ));
                    lemma_enc_chars_pointwise(h1, h2);
                    let off = 5 + 4 * h1.len() as int;
                    lemma_le32_round_trip(j1.len() as int);
                    lemma_le32_round_trip(j2.len() as int);
                    assert(ea.subrange(off, off + 4) == spec_le32(j1.len() as int));
                    assert(eb.subrange(off, off + 4) == spec_le32(j2.len() as int));
                    assert(j1.len() == j2.len());
                    assert(ea.subrange(off + 4, off + 4 + 4 * j1.len() as int) == eb.subrange(
                        off + 4,
                        off + 4 + 4 * j2.len() as int,
                    ));
                    lemma_enc_chars_pointwise(j1, j2);
                    let woff = off + 8 + 4 * j1.len() as int;
                    assert(w1 == ea.subrange(woff, ea.len() as int));
                    assert(w2 == eb.subrange(woff, eb.len() as int));
                    assert(w1 == w2);
                },
                OutcomeView::CompileError { .. } => {
                    assert(false);
                },
            }
        },
        OutcomeView::CompileError { diagnostic: d1 } => {
            assert(eb[0] == 2u8);
            match b {
                OutcomeView::Output { .. } => {
                    assert(false);
                },
                OutcomeView::CompileError { diagnostic: d2 } => {
                    lemma_le32_round_trip(d1.len() as int);
                    lemma_le32_round_trip(d2.len() as int);
                    assert(spec_le32_value(ea.subrange(1, 5)) == d1.len());
                    assert(d1.len() == d2.len());
                    lemma_enc_chars_pointwise(d1, d2);
                },
            }
        },
    }
}

} // verus!
