//! Byte-level pieces of the instruction envelope's fixed-schema encoding:
//! little-endian integers and length-prefixed UTF-8 strings, with an
//! exact model of reading each back.

use vstd::prelude::*;
use vstd::string::StrSliceExecFns;
use vstd::utf8::{decode_utf8, encode_utf8, valid_utf8};

verus! {

/// A string whose UTF-8 byte length fits the 32-bit length prefix.
pub open spec fn str_encodable(s: Seq<char>) -> bool {
    encode_utf8(s).len() < 0x1_0000_0000
}

/// The four little-endian bytes of a 32-bit integer.
pub open spec fn u32_le(n: u32) -> Seq<u8> {
    seq![
        (n % 256) as u8,
        ((n / 256) % 256) as u8,
        ((n / 65536) % 256) as u8,
        ((n / 16777216) % 256) as u8,
    ]
}

/// The eight little-endian bytes of a 64-bit integer.
pub open spec fn u64_le(n: u64) -> Seq<u8> {
    seq![
        (n % 256) as u8,
        ((n / 256) % 256) as u8,
        ((n / 0x10000) % 256) as u8,
        ((n / 0x1000000) % 256) as u8,
        ((n / 0x100000000) % 256) as u8,
        ((n / 0x10000000000) % 256) as u8,
        ((n / 0x1000000000000) % 256) as u8,
        ((n / 0x100000000000000) % 256) as u8,
    ]
}

/// The value of four little-endian bytes.
pub open spec fn le32_val(b0: u8, b1: u8, b2: u8, b3: u8) -> u32 {
    (b0 + b1 * 256 + b2 * 65536 + b3 * 16777216) as u32
}

/// The value of eight little-endian bytes.
pub open spec fn le64_val(
    b0: u8,
    b1: u8,
    b2: u8,
    b3: u8,
    b4: u8,
    b5: u8,
    b6: u8,
    b7: u8,
) -> u64 {
    (b0 + b1 * 0x100 + b2 * 0x10000 + b3 * 0x1000000 + b4 * 0x100000000 + b5 * 0x10000000000 + b6
        * 0x1000000000000 + b7 * 0x100000000000000) as u64
}

/// Reading back the four little-endian bytes of an integer yields it.
pub proof fn lemma_le32_roundtrip(n: u32)
    ensures
        le32_val(u32_le(n)[0], u32_le(n)[1], u32_le(n)[2], u32_le(n)[3]) == n,
{
    assert(n % 256 + ((n / 256) % 256) * 256 + ((n / 65536) % 256) * 65536 + ((n / 16777216) % 256)
        * 16777216 == n) by (bit_vector);
}

/// Reading back the eight little-endian bytes of an integer yields it.
pub proof fn lemma_le64_roundtrip(n: u64)
    ensures
        le64_val(
            u64_le(n)[0],
            u64_le(n)[1],
            u64_le(n)[2],
            u64_le(n)[3],
            u64_le(n)[4],
            u64_le(n)[5],
            u64_le(n)[6],
            u64_le(n)[7],
        ) == n,
{
    assert(n % 256 + ((n / 256) % 256) * 0x100 + ((n / 0x10000) % 256) * 0x10000 + ((n / 0x1000000)
        % 256) * 0x1000000 + ((n / 0x100000000) % 256) * 0x100000000 + ((n / 0x10000000000) % 256)
        * 0x10000000000 + ((n / 0x1000000000000) % 256) * 0x1000000000000 + ((n
        / 0x100000000000000) % 256) * 0x100000000000000 == n) by (bit_vector);
}

/// Writing back the value of four little-endian bytes yields the bytes.
pub proof fn lemma_le32_bytes_roundtrip(b0: u8, b1: u8, b2: u8, b3: u8)
    ensures
        u32_le(le32_val(b0, b1, b2, b3)) == seq![b0, b1, b2, b3],
{
    let n = le32_val(b0, b1, b2, b3);
    assert(((b0 as u32 + b1 as u32 * 256 + b2 as u32 * 65536 + b3 as u32 * 16777216) % 256) as u8
        == b0) by (bit_vector);
    assert((((b0 as u32 + b1 as u32 * 256 + b2 as u32 * 65536 + b3 as u32 * 16777216) / 256) % 256)
        as u8 == b1) by (bit_vector);
    assert((((b0 as u32 + b1 as u32 * 256 + b2 as u32 * 65536 + b3 as u32 * 16777216) / 65536)
        % 256) as u8 == b2) by (bit_vector);
    assert((((b0 as u32 + b1 as u32 * 256 + b2 as u32 * 65536 + b3 as u32 * 16777216) / 16777216)
        % 256) as u8 == b3) by (bit_vector);
    assert(u32_le(n) =~= seq![b0, b1, b2, b3]);
}

/// Writing back the value of eight little-endian bytes yields the bytes.
pub proof fn lemma_le64_bytes_roundtrip(
    b0: u8,
    b1: u8,
    b2: u8,
    b3: u8,
    b4: u8,
    b5: u8,
    b6: u8,
    b7: u8,
)
    ensures
        u64_le(le64_val(b0, b1, b2, b3, b4, b5, b6, b7)) == seq![b0, b1, b2, b3, b4, b5, b6, b7],
{
    let n = le64_val(b0, b1, b2, b3, b4, b5, b6, b7);
    assert(((b0 as u64 + b1 as u64 * 0x100 + b2 as u64 * 0x10000 + b3 as u64 * 0x1000000 + b4
        as u64 * 0x100000000 + b5 as u64 * 0x10000000000 + b6 as u64 * 0x1000000000000 + b7 as u64
        * 0x100000000000000) % 256) as u8 == b0) by (bit_vector);
    assert((((b0 as u64 + b1 as u64 * 0x100 + b2 as u64 * 0x10000 + b3 as u64 * 0x1000000 + b4
        as u64 * 0x100000000 + b5 as u64 * 0x10000000000 + b6 as u64 * 0x1000000000000 + b7 as u64
        * 0x100000000000000) / 256) % 256) as u8 == b1) by (bit_vector);
    assert((((b0 as u64 + b1 as u64 * 0x100 + b2 as u64 * 0x10000 + b3 as u64 * 0x1000000 + b4
        as u64 * 0x100000000 + b5 as u64 * 0x10000000000 + b6 as u64 * 0x1000000000000 + b7 as u64
        * 0x100000000000000) / 0x10000) % 256) as u8 == b2) by (bit_vector);
    assert((((b0 as u64 + b1 as u64 * 0x100 + b2 as u64 * 0x10000 + b3 as u64 * 0x1000000 + b4
        as u64 * 0x100000000 + b5 as u64 * 0x10000000000 + b6 as u64 * 0x1000000000000 + b7 as u64
        * 0x100000000000000) / 0x1000000) % 256) as u8 == b3) by (bit_vector);
    assert((((b0 as u64 + b1 as u64 * 0x100 + b2 as u64 * 0x10000 + b3 as u64 * 0x1000000 + b4
        as u64 * 0x100000000 + b5 as u64 * 0x10000000000 + b6 as u64 * 0x1000000000000 + b7 as u64
        * 0x100000000000000) / 0x100000000) % 256) as u8 == b4) by (bit_vector);
    assert((((b0 as u64 + b1 as u64 * 0x100 + b2 as u64 * 0x10000 + b3 as u64 * 0x1000000 + b4
        as u64 * 0x100000000 + b5 as u64 * 0x10000000000 + b6 as u64 * 0x1000000000000 + b7 as u64
        * 0x100000000000000) / 0x10000000000) % 256) as u8 == b5) by (bit_vector);
    assert((((b0 as u64 + b1 as u64 * 0x100 + b2 as u64 * 0x10000 + b3 as u64 * 0x1000000 + b4
        as u64 * 0x100000000 + b5 as u64 * 0x10000000000 + b6 as u64 * 0x1000000000000 + b7 as u64
        * 0x100000000000000) / 0x1000000000000) % 256) as u8 == b6) by (bit_vector);
    assert((((b0 as u64 + b1 as u64 * 0x100 + b2 as u64 * 0x10000 + b3 as u64 * 0x1000000 + b4
        as u64 * 0x100000000 + b5 as u64 * 0x10000000000 + b6 as u64 * 0x1000000000000 + b7 as u64
        * 0x100000000000000) / 0x100000000000000) % 256) as u8 == b7) by (bit_vector);
    assert(u64_le(n) =~= seq![b0, b1, b2, b3, b4, b5, b6, b7]);
}

/// The length-prefixed encoding of one string: four little-endian length
/// bytes, then the UTF-8 bytes.
pub open spec fn str_encoding(s: Seq<char>) -> Seq<u8> {
    u32_le(encode_utf8(s).len() as u32) + encode_utf8(s)
}

/// What reading a length-prefixed string at `pos` yields: the decoded
/// string and the position after it, or nothing where the bytes do not
/// carry one.
pub open spec fn read_str_model(d: Seq<u8>, pos: int) -> Option<(Seq<char>, int)> {
    if pos < 0 || pos + 4 > d.len() {
        None
    } else {
        let n = le32_val(d[pos], d[pos + 1], d[pos + 2], d[pos + 3]) as int;
        if pos + 4 + n > d.len() {
            None
        } else {
            let bytes = d.subrange(pos + 4, pos + 4 + n);
            if valid_utf8(bytes) {
                Some((decode_utf8(bytes), pos + 4 + n))
            } else {
                None
            }
        }
    }
}

/// Where the bytes at `pos` are exactly the encoding of `s`, reading at
/// `pos` yields `s` and the position after its encoding.
pub proof fn lemma_read_str_at(d: Seq<u8>, pos: int, s: Seq<char>)
    requires
        str_encodable(s),
        0 <= pos,
        pos + 4 + encode_utf8(s).len() <= d.len(),
        d.subrange(pos, pos + 4 + encode_utf8(s).len()) == str_encoding(s),
    ensures
        read_str_model(d, pos) == Some((s, pos + 4 + encode_utf8(s).len())),
{
    let k = encode_utf8(s).len() as int;
    let seg = d.subrange(pos, pos + 4 + k);
    assert(seg[0] == d[pos]);
    assert(seg[1] == d[pos + 1]);
    assert(seg[2] == d[pos + 2]);
    assert(seg[3] == d[pos + 3]);
    assert(d[pos] == u32_le(k as u32)[0]);
    assert(d[pos + 1] == u32_le(k as u32)[1]);
    assert(d[pos + 2] == u32_le(k as u32)[2]);
    assert(d[pos + 3] == u32_le(k as u32)[3]);
    lemma_le32_roundtrip(k as u32);
    assert(le32_val(d[pos], d[pos + 1], d[pos + 2], d[pos + 3]) == k as u32);
    let bytes = d.subrange(pos + 4, pos + 4 + k);
    assert forall|i: int| 0 <= i < k implies bytes[i] == encode_utf8(s)[i] by {
        assert(bytes[i] == d[pos + 4 + i]);
        assert(seg[4 + i] == d[pos + 4 + i]);
        assert(str_encoding(s)[4 + i] == encode_utf8(s)[i]);
    }
    assert(bytes =~= encode_utf8(s));
    vstd::utf8::encode_utf8_valid_utf8(s);
    vstd::utf8::encode_utf8_decode_utf8(s);
}

/// What a successful read at `pos` consumed is exactly the encoding of
/// the string it yielded.
pub proof fn lemma_read_str_inverse(d: Seq<u8>, pos: int)
    requires
        read_str_model(d, pos) is Some,
    ensures
        str_encodable((read_str_model(d, pos)->0).0),
        pos + 4 <= (read_str_model(d, pos)->0).1 <= d.len(),
        d.subrange(pos, (read_str_model(d, pos)->0).1) == str_encoding((read_str_model(d, pos)->0).0),
{
    let n = le32_val(d[pos], d[pos + 1], d[pos + 2], d[pos + 3]);
    let bytes = d.subrange(pos + 4, pos + 4 + n as int);
    let s = decode_utf8(bytes);
    vstd::utf8::decode_utf8_encode_utf8(bytes);
    assert(encode_utf8(s) == bytes);
    assert(encode_utf8(s).len() == n);
    lemma_le32_bytes_roundtrip(d[pos], d[pos + 1], d[pos + 2], d[pos + 3]);
    assert(u32_le(n) == seq![d[pos], d[pos + 1], d[pos + 2], d[pos + 3]]);
    assert(d.subrange(pos, pos + 4 + n as int) =~= str_encoding(s));
}

/// Relies on std's `String::from_utf8`: it succeeds exactly on valid
/// UTF-8 input, decoding it, and fails otherwise.
#[verifier::external_body]
pub fn bytes_to_string(v: Vec<u8>) -> (r: Option<String>)
    ensures
        match r {
            Some(s) => valid_utf8(v@) && s@ == decode_utf8(v@),
            None => !valid_utf8(v@),
        },
{
    match String::from_utf8(v) {
        Ok(s) => Some(s),
        Err(_) => None,
    }
}

/// Read a length-prefixed string at `pos`.
pub fn read_string(data: &Vec<u8>, pos: usize) -> (r: Option<(String, usize)>)
    requires
        pos <= data@.len(),
    ensures
        match r {
            Some(se) => read_str_model(data@, pos as int) == Some((se.0@, se.1 as int)),
            None => read_str_model(data@, pos as int) is None,
        },
{
    if data.len() - pos < 4 {
        return None;
    }
    let b0 = data[pos];
    let b1 = data[pos + 1];
    let b2 = data[pos + 2];
    let b3 = data[pos + 3];
    let n: u32 = b0 as u32 + b1 as u32 * 256 + b2 as u32 * 65536 + b3 as u32 * 16777216;
    assert(n == le32_val(b0, b1, b2, b3));
    if (data.len() - pos - 4) < n as usize {
        return None;
    }
    let start = pos + 4;
    let end = start + n as usize;
    let mut bytes: Vec<u8> = Vec::new();
    let mut i: usize = start;
    while i < end
        invariant
            start <= i <= end,
            end <= data@.len(),
            bytes@.len() == i - start,
            forall|j: int| 0 <= j < i - start ==> bytes@[j] == data@[start + j],
        decreases end - i,
    {
        bytes.push(data[i]);
        i = i + 1;
    }
    proof {
        assert(bytes@ =~= data@.subrange(start as int, end as int));
    }
    match bytes_to_string(bytes) {
        Some(s) => Some((s, end)),
        None => None,
    }
}

/// Append the four little-endian bytes of `n`.
pub fn push_u32_le(out: &mut Vec<u8>, n: u32)
    ensures
        final(out)@ == old(out)@ + u32_le(n),
{
    out.push((n % 256) as u8);
    out.push(((n / 256) % 256) as u8);
    out.push(((n / 65536) % 256) as u8);
    out.push(((n / 16777216) % 256) as u8);
    proof {
        assert(out@ =~= old(out)@ + u32_le(n));
    }
}

/// Append the eight little-endian bytes of `n`.
pub fn push_u64_le(out: &mut Vec<u8>, n: u64)
    ensures
        final(out)@ == old(out)@ + u64_le(n),
{
    out.push((n % 256) as u8);
    out.push(((n / 256) % 256) as u8);
    out.push(((n / 0x10000) % 256) as u8);
    out.push(((n / 0x1000000) % 256) as u8);
    out.push(((n / 0x100000000) % 256) as u8);
    out.push(((n / 0x10000000000) % 256) as u8);
    out.push(((n / 0x1000000000000) % 256) as u8);
    out.push(((n / 0x100000000000000) % 256) as u8);
    proof {
        assert(out@ =~= old(out)@ + u64_le(n));
    }
}

/// Append the length-prefixed encoding of `s`.
pub fn push_string(out: &mut Vec<u8>, s: &String)
    requires
        str_encodable(s@),
    ensures
        final(out)@ == old(out)@ + str_encoding(s@),
{
    let mut bytes = s.as_str().as_bytes_vec();
    let n = bytes.len();
    push_u32_le(out, n as u32);
    out.append(&mut bytes);
    proof {
        assert(out@ =~= old(out)@ + str_encoding(s@));
    }
}

/// Read the eight little-endian bytes of an integer at `pos`.
pub fn read_u64_le(data: &Vec<u8>, pos: usize) -> (r: Option<u64>)
    requires
        pos <= data@.len(),
    ensures
        match r {
            Some(n) => pos + 8 <= data@.len() && n == le64_val(
                data@[pos as int],
                data@[pos as int + 1],
                data@[pos as int + 2],
                data@[pos as int + 3],
                data@[pos as int + 4],
                data@[pos as int + 5],
                data@[pos as int + 6],
                data@[pos as int + 7],
            ),
            None => pos + 8 > data@.len(),
        },
{
    if data.len() - pos < 8 {
        return None;
    }
    let n: u64 = data[pos] as u64 + data[pos + 1] as u64 * 0x100 + data[pos + 2] as u64 * 0x10000
        + data[pos + 3] as u64 * 0x1000000 + data[pos + 4] as u64 * 0x100000000 + data[pos
        + 5] as u64 * 0x10000000000 + data[pos + 6] as u64 * 0x1000000000000 + data[pos
        + 7] as u64 * 0x100000000000000;
    Some(n)
}

} // verus!
