use vstd::prelude::*;
use vstd::string::StringSliceAdditionalSpecFns;
use vstd::utf8::{decode_utf8, encode_utf8, valid_utf8};

verus! {

/// The padding symbol `=`.
pub const PAD: u8 = 61;

/// Value of a symbol of the standard 64-symbol alphabet, or `None` for any
/// other byte.
pub open spec fn symbol_value(b: u8) -> Option<u8> {
    if 65 <= b <= 90 {
        Some((b - 65) as u8)
    } else if 97 <= b <= 122 {
        Some((b - 71) as u8)
    } else if 48 <= b <= 57 {
        Some((b + 4) as u8)
    } else if b == 43 {
        Some(62u8)
    } else if b == 47 {
        Some(63u8)
    } else {
        None
    }
}

/// The 6-bit values carried by `s`: symbols up to the first padding byte,
/// with every byte outside the alphabet skipped.
pub open spec fn sextets(s: Seq<u8>) -> Seq<u8>
    decreases s.len(),
{
    if s.len() == 0 {
        Seq::empty()
    } else if s[0] == PAD {
        Seq::empty()
    } else {
        match symbol_value(s[0]) {
            Some(v) => seq![v] + sextets(s.skip(1)),
            None => sextets(s.skip(1)),
        }
    }
}

/// Byte `k` of the bit stream that the 6-bit values `v` spell, most
/// significant bit first.
pub open spec fn byte_at(v: Seq<u8>, k: int) -> u8 {
    let j = (8 * k) / 6;
    let w = v[j] as int * 64 + v[j + 1] as int;
    let o = (8 * k) % 6;
    ((if o == 0 {
        w / 16
    } else if o == 2 {
        w / 4
    } else {
        w
    }) % 256) as u8
}

/// The whole bytes of the bit stream spelled by `v`; trailing bits that do
/// not fill a byte are dropped.
pub open spec fn pack(v: Seq<u8>) -> Seq<u8> {
    Seq::new((6 * v.len() / 8) as nat, |k: int| byte_at(v, k))
}

/// The bytes that the text `s` decodes to.
pub open spec fn decoded_bytes(s: Seq<u8>) -> Seq<u8> {
    pack(sextets(s))
}

pub open spec fn pow2_small(c: int) -> int {
    if c == 0 {
        1
    } else if c == 2 {
        4
    } else if c == 4 {
        16
    } else {
        64
    }
}

#[derive(Clone, Debug, PartialEq, Eq)]
pub enum DecodeError {
    /// The decoded bytes are not valid UTF-8 text.
    InvalidText,
}

/// Relies on `String::from_utf8`: it accepts exactly the valid UTF-8 byte
/// strings, and the text then holds the characters they encode.
#[verifier::external_body]
fn text_from_utf8(b: Vec<u8>) -> (r: Option<String>)
    ensures
        r is Some <==> valid_utf8(b@),
        r matches Some(s) ==> s@ == decode_utf8(b@),
{
    String::from_utf8(b).ok()
}

fn symbol_value_exec(b: u8) -> (r: Option<u8>)
    ensures
        r == symbol_value(b),
{
    if 65 <= b && b <= 90 {
        Some(b - 65)
    } else if 97 <= b && b <= 122 {
        Some(b - 71)
    } else if 48 <= b && b <= 57 {
        Some(b + 4)
    } else if b == 43 {
        Some(62)
    } else if b == 47 {
        Some(63)
    } else {
        None
    }
}

proof fn lemma_symbol_value_small(b: u8)
    ensures
        symbol_value(b) matches Some(v) ==> v < 64,
{
}

/// Appending one value to `v` adds one byte to `pack(v)` unless the count
/// of values was a multiple of four.
proof fn lemma_pack_push(v: Seq<u8>, x: u8)
    ensures
        v.len() % 4 == 0 ==> pack(v.push(x)) == pack(v),
        v.len() % 4 != 0 ==> pack(v.push(x)) == pack(v).push(byte_at(v.push(x), pack(v).len() as int)),
{
    let w = v.push(x);
    let n = v.len() as int;
    let m = n / 4;
    let r = n % 4;
    assert(n == 4 * m + r);
    assert(6 * n / 8 == 3 * m + (6 * r) / 8);
    assert(6 * (n + 1) / 8 == 3 * m + (6 * r + 6) / 8);
    assert forall|k: int| 0 <= k < 6 * n / 8 implies byte_at(w, k) == byte_at(v, k) by {
        assert((8 * k) / 6 + 1 < n);
        assert(w[(8 * k) / 6] == v[(8 * k) / 6]);
        assert(w[(8 * k) / 6 + 1] == v[(8 * k) / 6 + 1]);
    }
    if r == 0 {
        assert(pack(w) =~= pack(v));
    } else {
        assert(pack(w) =~= pack(v).push(byte_at(w, pack(v).len() as int)));
    }
}

proof fn lemma_index_arith(m: int)
    requires
        m >= 0,
    ensures
        (6 * (4 * m + 1)) / 8 == 3 * m,
        (6 * (4 * m + 1)) % 8 == 6,
        (8 * (3 * m)) / 6 == 4 * m,
        (8 * (3 * m)) % 6 == 0,
        (6 * (4 * m + 2)) / 8 == 3 * m + 1,
        (6 * (4 * m + 2)) % 8 == 4,
        (8 * (3 * m + 1)) / 6 == 4 * m + 1,
        (8 * (3 * m + 1)) % 6 == 2,
        (6 * (4 * m + 3)) / 8 == 3 * m + 2,
        (6 * (4 * m + 3)) % 8 == 2,
        (8 * (3 * m + 2)) / 6 == 4 * m + 2,
        (8 * (3 * m + 2)) % 6 == 4,
{
}

proof fn lemma_bits_arith(p: int, x: int)
    requires
        0 <= p < 64,
        0 <= x < 64,
    ensures
        (p * 64 + x) / 16 < 256,
        (p * 64 + x) / 16 % 256 == (p * 64 + x) / 16,
        (p * 64 + x) % 16 == x % 16,
        (p * 64 + x) / 4 % 256 == ((p % 16) * 64 + x) / 4,
        ((p % 16) * 64 + x) / 4 < 256,
        ((p % 16) * 64 + x) % 4 == x % 4,
        (p * 64 + x) % 256 == (p % 4) * 64 + x,
        (p % 4) * 64 + x < 256,
{
    assert((p * 64 + x) / 4 % 256 == ((p % 16) * 64 + x) / 4) by (nonlinear_arith)
        requires 0 <= p < 64, 0 <= x < 64;
    assert(((p % 16) * 64 + x) % 4 == x % 4) by (nonlinear_arith)
        requires 0 <= p < 64, 0 <= x < 64;
    assert((p * 64 + x) % 256 == (p % 4) * 64 + x) by (nonlinear_arith)
        requires 0 <= p < 64, 0 <= x < 64;
    assert((p * 64 + x) % 16 == x % 16) by (nonlinear_arith)
        requires 0 <= p < 64, 0 <= x < 64;
}

/// The byte completed by the value `x` after the values `v` is the next
/// byte of the stream, and the bits left over are the low bits of `x`.
proof fn lemma_next_byte(v: Seq<u8>, x: u8)
    requires
        v.len() % 4 != 0,
        v.last() < 64,
        x < 64,
    ensures
        ({
            let c = ((6 * v.len()) % 8) as int;
            let acc = (v.last() as int % pow2_small(c)) * 64 + x as int;
            &&& (c + 6 - 8) == ((6 * (v.len() + 1)) % 8)
            &&& acc / pow2_small(c + 6 - 8) < 256
            &&& byte_at(v.push(x), (6 * v.len() / 8) as int) == acc / pow2_small(c + 6 - 8)
            &&& acc % pow2_small(c + 6 - 8) == x as int % pow2_small(c + 6 - 8)
        }),
{
    let w = v.push(x);
    let n = v.len() as int;
    let m = n / 4;
    let p = v.last() as int;
    assert(n == 4 * m + n % 4);
    assert(w[n - 1] == v.last());
    assert(w[n] == x);
    lemma_index_arith(m);
    lemma_bits_arith(p, x as int);
}

/// Decodes base64 text: symbols of the standard alphabet are read six bits
/// at a time up to the first `=`, any other byte (whitespace included) is
/// skipped, and the bytes must form valid UTF-8 text.
pub fn base64_decode(input: &str) -> (r: Result<String, DecodeError>)
    ensures
        r is Ok <==> valid_utf8(decoded_bytes(input.spec_bytes())),
        r matches Ok(s) ==> s@ == decode_utf8(decoded_bytes(input.spec_bytes())),
{
    let bytes = input.as_bytes();
    let mut buf: Vec<u8> = Vec::new();
    let mut bits: u32 = 0;
    let mut count: u32 = 0;
    let ghost mut vals: Seq<u8> = Seq::empty();
    let mut stopped = false;
    let mut i: usize = 0;
    proof {
        assert(bytes@.skip(0) =~= bytes@);
    }
    while i < bytes.len() && !stopped
        invariant
            0 <= i <= bytes@.len(),
            bytes@ == input.spec_bytes(),
            stopped ==> sextets(bytes@) == vals,
            !stopped ==> sextets(bytes@) == vals + sextets(bytes@.skip(i as int)),
            forall|j: int| 0 <= j < vals.len() ==> vals[j] < 64,
            buf@ == pack(vals),
            count == (6 * vals.len()) % 8,
            vals.len() == 0 ==> bits == 0,
            vals.len() > 0 ==> bits == vals.last() as int % pow2_small(count as int),
        decreases bytes@.len() - i + (if stopped { 0int } else { 1int }),
    {
        let b = bytes[i];
        let ghost rest = bytes@.skip(i as int);
        proof {
            assert(rest[0] == b);
            assert(rest.skip(1) =~= bytes@.skip(i + 1));
        }
        if b == PAD {
            proof {
                assert(vals + Seq::<u8>::empty() =~= vals);
            }
            stopped = true;
        } else {
            match symbol_value_exec(b) {
                Some(x) => {
                    proof {
                        lemma_symbol_value_small(b);
                        lemma_pack_push(vals, x);
                        assert(vals + sextets(rest) =~= vals.push(x) + sextets(rest.skip(1)));
                    }
                    if count >= 2 {
                        proof {
                            lemma_next_byte(vals, x);
                        }
                        let acc: u32 = (bits * 64 + x as u32);
                        count = count + 6 - 8;
                        let d: u32 = if count == 0 {
                            1
                        } else if count == 2 {
                            4
                        } else {
                            16
                        };
                        buf.push((acc / d) as u8);
                        bits = acc % d;
                    } else {
                        bits = x as u32;
                        count = 6;
                    }
                    proof {
                        vals = vals.push(x);
                    }
                },
                None => {},
            }
            i = i + 1;
        }
    }
    proof {
        if !stopped {
            assert(bytes@.skip(i as int) =~= Seq::<u8>::empty());
            assert(vals + Seq::<u8>::empty() =~= vals);
        }
    }
    match text_from_utf8(buf) {
        Some(s) => Ok(s),
        None => Err(DecodeError::InvalidText),
    }
}

/// Why a file's content could not be read from a contents reply.
#[derive(Clone, Debug, PartialEq, Eq)]
pub enum PayloadError {
    /// The reply carries no content, or an encoding other than base64.
    UnexpectedEncoding,
    /// The content does not decode to valid UTF-8 text.
    InvalidText,
}

/// Content is present and declared as base64.
pub open spec fn is_base64_payload(content: Option<String>, encoding: Option<String>) -> bool {
    content is Some && (encoding matches Some(e) && e@ == "base64"@)
}

/// The UTF-8 bytes of the content, if any.
pub open spec fn payload_bytes(content: Option<String>) -> Seq<u8> {
    match content {
        Some(c) => encode_utf8(c@),
        None => Seq::empty(),
    }
}

/// The text of a file from the `content` and `encoding` fields of a
/// contents reply: base64 content is decoded (white space between the
/// symbols is skipped, as every byte outside the alphabet is).
pub fn decode_file_payload(content: Option<String>, encoding: Option<String>) -> (r: Result<String, PayloadError>)
    ensures
        is_base64_payload(content, encoding) ==> match r {
            Ok(s) => valid_utf8(decoded_bytes(payload_bytes(content)))
                && s@ == decode_utf8(decoded_bytes(payload_bytes(content))),
            Err(err) => err is InvalidText && !valid_utf8(decoded_bytes(payload_bytes(content))),
        },
        !is_base64_payload(content, encoding) ==> r matches Err(PayloadError::UnexpectedEncoding),
{
    match (content, encoding) {
        (Some(c), Some(e)) => {
            if crate::text::same_text(e.as_str(), "base64") {
                match base64_decode(c.as_str()) {
                    Ok(s) => Ok(s),
                    Err(_) => Err(PayloadError::InvalidText),
                }
            } else {
                Err(PayloadError::UnexpectedEncoding)
            }
        },
        _ => Err(PayloadError::UnexpectedEncoding),
    }
}

} // verus!
