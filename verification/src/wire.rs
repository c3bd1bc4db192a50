//! Byte-level codec primitives: little-endian integers, 32-byte account
//! keys, and NUL-padded fixed-width text fields, each with a specification
//! encoder (`enc_*`), a specification parser (`parse_*`), an executable
//! reader (`take_*`) that is proved to agree with the parser, and a peel
//! lemma used to prove the record-level round trips.

use vstd::bytes::*;
use vstd::prelude::*;

verus! {

/// A failure while decoding one account's bytes. Always local to that
/// account: the ingestion loop skips the account and goes on.
#[derive(Clone, Copy, Debug, PartialEq, Eq, Structural)]
pub enum DecodeError {
    /// Fewer bytes remained than the next fixed-width field needs.
    TruncatedInput,
    /// A variant tag (or boolean byte) outside the defined range.
    UnknownVariant(u8),
    /// Bytes were left over after a record that must consume its whole
    /// buffer; a strong signal the schema drifted from the binary layout.
    TrailingBytes,
}

/// A 32-byte account identifier, held as four little-endian 64-bit words
/// so that keys are plain values with structural equality.
#[derive(Clone, Copy, Debug, PartialEq, Eq, Hash, Structural)]
pub struct AccountKey {
    pub w0: u64,
    pub w1: u64,
    pub w2: u64,
    pub w3: u64,
}

// ---------------------------------------------------------------------------
// Specification encoders
// ---------------------------------------------------------------------------

pub open spec fn enc_u8(x: u8) -> Seq<u8> {
    seq![x]
}

pub open spec fn enc_u16(x: u16) -> Seq<u8> {
    spec_u16_to_le_bytes(x)
}

pub open spec fn enc_u32(x: u32) -> Seq<u8> {
    spec_u32_to_le_bytes(x)
}

pub open spec fn enc_u64(x: u64) -> Seq<u8> {
    spec_u64_to_le_bytes(x)
}

pub open spec fn enc_i64(x: i64) -> Seq<u8> {
    spec_u64_to_le_bytes(x as u64)
}

pub open spec fn enc_bool(x: bool) -> Seq<u8> {
    seq![if x { 1u8 } else { 0u8 }]
}

pub open spec fn enc_key(k: AccountKey) -> Seq<u8> {
    enc_u64(k.w0) + enc_u64(k.w1) + enc_u64(k.w2) + enc_u64(k.w3)
}

// ---------------------------------------------------------------------------
// Specification parsers
//
// Each parser takes the whole buffer and a position and returns the decoded
// value with the next position, or the error the decoder must report.
// ---------------------------------------------------------------------------

pub open spec fn parse_u8(d: Seq<u8>, pos: int) -> Result<(u8, int), DecodeError> {
    if 0 <= pos && pos + 1 <= d.len() {
        Ok((d[pos], pos + 1))
    } else {
        Err(DecodeError::TruncatedInput)
    }
}

pub open spec fn parse_u16(d: Seq<u8>, pos: int) -> Result<(u16, int), DecodeError> {
    if 0 <= pos && pos + 2 <= d.len() {
        Ok((spec_u16_from_le_bytes(d.subrange(pos, pos + 2)), pos + 2))
    } else {
        Err(DecodeError::TruncatedInput)
    }
}

pub open spec fn parse_u32(d: Seq<u8>, pos: int) -> Result<(u32, int), DecodeError> {
    if 0 <= pos && pos + 4 <= d.len() {
        Ok((spec_u32_from_le_bytes(d.subrange(pos, pos + 4)), pos + 4))
    } else {
        Err(DecodeError::TruncatedInput)
    }
}

pub open spec fn parse_u64(d: Seq<u8>, pos: int) -> Result<(u64, int), DecodeError> {
    if 0 <= pos && pos + 8 <= d.len() {
        Ok((spec_u64_from_le_bytes(d.subrange(pos, pos + 8)), pos + 8))
    } else {
        Err(DecodeError::TruncatedInput)
    }
}

pub open spec fn parse_i64(d: Seq<u8>, pos: int) -> Result<(i64, int), DecodeError> {
    match parse_u64(d, pos) {
        Ok((v, p)) => Ok((v as i64, p)),
        Err(e) => Err(e),
    }
}

pub open spec fn parse_bool(d: Seq<u8>, pos: int) -> Result<(bool, int), DecodeError> {
    match parse_u8(d, pos) {
        Ok((b, p)) => if b == 0 {
            Ok((false, p))
        } else if b == 1 {
            Ok((true, p))
        } else {
            Err(DecodeError::UnknownVariant(b))
        },
        Err(e) => Err(e),
    }
}

pub open spec fn parse_key(d: Seq<u8>, pos: int) -> Result<(AccountKey, int), DecodeError> {
    if 0 <= pos && pos + 32 <= d.len() {
        Ok(
            (
                AccountKey {
                    w0: spec_u64_from_le_bytes(d.subrange(pos, pos + 8)),
                    w1: spec_u64_from_le_bytes(d.subrange(pos + 8, pos + 16)),
                    w2: spec_u64_from_le_bytes(d.subrange(pos + 16, pos + 24)),
                    w3: spec_u64_from_le_bytes(d.subrange(pos + 24, pos + 32)),
                },
                pos + 32,
            ),
        )
    } else {
        Err(DecodeError::TruncatedInput)
    }
}

/// Lifts an executable parse result (with a `usize` position) to the
/// specification level, so that every reader's contract is a single
/// equation against the matching specification parser.
pub open spec fn lift<T>(r: Result<(T, usize), DecodeError>) -> Result<(T, int), DecodeError> {
    match r {
        Ok((v, p)) => Ok((v, p as int)),
        Err(e) => Err(e),
    }
}

// ---------------------------------------------------------------------------
// Executable readers
// ---------------------------------------------------------------------------

pub fn take_u8(d: &[u8], pos: usize) -> (r: Result<(u8, usize), DecodeError>)
    ensures
        lift(r) == parse_u8(d@, pos as int),
{
    if pos < d.len() {
        Ok((d[pos], pos + 1))
    } else {
        Err(DecodeError::TruncatedInput)
    }
}

pub fn take_u16(d: &[u8], pos: usize) -> (r: Result<(u16, usize), DecodeError>)
    ensures
        lift(r) == parse_u16(d@, pos as int),
{
    if pos <= d.len() && d.len() - pos >= 2 {
        let v = u16_from_le_bytes(vstd::slice::slice_subrange(d, pos, pos + 2));
        Ok((v, pos + 2))
    } else {
        Err(DecodeError::TruncatedInput)
    }
}

pub fn take_u32(d: &[u8], pos: usize) -> (r: Result<(u32, usize), DecodeError>)
    ensures
        lift(r) == parse_u32(d@, pos as int),
{
    if pos <= d.len() && d.len() - pos >= 4 {
        let v = u32_from_le_bytes(vstd::slice::slice_subrange(d, pos, pos + 4));
        Ok((v, pos + 4))
    } else {
        Err(DecodeError::TruncatedInput)
    }
}

pub fn take_u64(d: &[u8], pos: usize) -> (r: Result<(u64, usize), DecodeError>)
    ensures
        lift(r) == parse_u64(d@, pos as int),
{
    if pos <= d.len() && d.len() - pos >= 8 {
        let v = u64_from_le_bytes(vstd::slice::slice_subrange(d, pos, pos + 8));
        Ok((v, pos + 8))
    } else {
        Err(DecodeError::TruncatedInput)
    }
}

pub fn take_i64(d: &[u8], pos: usize) -> (r: Result<(i64, usize), DecodeError>)
    ensures
        lift(r) == parse_i64(d@, pos as int),
{
    match take_u64(d, pos) {
        Ok((v, p)) => Ok((v as i64, p)),
        Err(e) => Err(e),
    }
}

pub fn take_bool(d: &[u8], pos: usize) -> (r: Result<(bool, usize), DecodeError>)
    ensures
        lift(r) == parse_bool(d@, pos as int),
{
    match take_u8(d, pos) {
        Ok((b, p)) => {
            if b == 0 {
                Ok((false, p))
            } else if b == 1 {
                Ok((true, p))
            } else {
                Err(DecodeError::UnknownVariant(b))
            }
        },
        Err(e) => Err(e),
    }
}

pub fn take_key(d: &[u8], pos: usize) -> (r: Result<(AccountKey, usize), DecodeError>)
    ensures
        lift(r) == parse_key(d@, pos as int),
{
    if pos <= d.len() && d.len() - pos >= 32 {
        let w0 = u64_from_le_bytes(vstd::slice::slice_subrange(d, pos, pos + 8));
        let w1 = u64_from_le_bytes(vstd::slice::slice_subrange(d, pos + 8, pos + 16));
        let w2 = u64_from_le_bytes(vstd::slice::slice_subrange(d, pos + 16, pos + 24));
        let w3 = u64_from_le_bytes(vstd::slice::slice_subrange(d, pos + 24, pos + 32));
        Ok((AccountKey { w0, w1, w2, w3 }, pos + 32))
    } else {
        Err(DecodeError::TruncatedInput)
    }
}

// ---------------------------------------------------------------------------
// Executable writers, each appending one field's encoding
// ---------------------------------------------------------------------------

pub fn put_u8(out: &mut Vec<u8>, x: u8)
    ensures
        final(out)@ == old(out)@ + enc_u8(x),
{
    out.push(x);
    proof {
        assert(final(out)@ =~= old(out)@ + enc_u8(x));
    }
}

pub fn put_u16(out: &mut Vec<u8>, x: u16)
    ensures
        final(out)@ == old(out)@ + enc_u16(x),
{
    let bytes = u16_to_le_bytes(x);
    out.push(bytes[0]);
    out.push(bytes[1]);
    proof {
        lemma_auto_spec_u16_to_from_le_bytes();
        assert(final(out)@ =~= old(out)@ + enc_u16(x));
    }
}

pub fn put_u32(out: &mut Vec<u8>, x: u32)
    ensures
        final(out)@ == old(out)@ + enc_u32(x),
{
    let bytes = u32_to_le_bytes(x);
    out.push(bytes[0]);
    out.push(bytes[1]);
    out.push(bytes[2]);
    out.push(bytes[3]);
    proof {
        lemma_auto_spec_u32_to_from_le_bytes();
        assert(final(out)@ =~= old(out)@ + enc_u32(x));
    }
}

pub fn put_u64(out: &mut Vec<u8>, x: u64)
    ensures
        final(out)@ == old(out)@ + enc_u64(x),
{
    let bytes = u64_to_le_bytes(x);
    let mut i: usize = 0;
    while i < 8
        invariant
            bytes@ == spec_u64_to_le_bytes(x),
            bytes@.len() == 8,
            i <= 8,
            out@ == old(out)@ + bytes@.subrange(0, i as int),
        decreases 8 - i,
    {
        out.push(bytes[i]);
        i = i + 1;
        proof {
            assert(out@ =~= old(out)@ + bytes@.subrange(0, i as int));
        }
    }
    proof {
        assert(bytes@.subrange(0, 8) =~= bytes@);
    }
}

pub fn put_i64(out: &mut Vec<u8>, x: i64)
    ensures
        final(out)@ == old(out)@ + enc_i64(x),
{
    put_u64(out, x as u64);
}

pub fn put_bool(out: &mut Vec<u8>, x: bool)
    ensures
        final(out)@ == old(out)@ + enc_bool(x),
{
    out.push(if x { 1u8 } else { 0u8 });
    proof {
        assert(final(out)@ =~= old(out)@ + enc_bool(x));
    }
}

pub fn put_key(out: &mut Vec<u8>, k: AccountKey)
    ensures
        final(out)@ == old(out)@ + enc_key(k),
{
    put_u64(out, k.w0);
    put_u64(out, k.w1);
    put_u64(out, k.w2);
    put_u64(out, k.w3);
    proof {
        assert(final(out)@ =~= old(out)@ + enc_key(k));
    }
}

// ---------------------------------------------------------------------------
// Encoding lengths, available ambiently in proofs
// ---------------------------------------------------------------------------

pub broadcast proof fn lemma_enc_u8_len(x: u8)
    ensures
        (#[trigger] enc_u8(x)).len() == 1,
{
}

pub broadcast proof fn lemma_enc_u16_len(x: u16)
    ensures
        (#[trigger] enc_u16(x)).len() == 2,
{
    lemma_auto_spec_u16_to_from_le_bytes();
}

pub broadcast proof fn lemma_enc_u32_len(x: u32)
    ensures
        (#[trigger] enc_u32(x)).len() == 4,
{
    lemma_auto_spec_u32_to_from_le_bytes();
}

pub broadcast proof fn lemma_enc_u64_len(x: u64)
    ensures
        (#[trigger] enc_u64(x)).len() == 8,
{
    lemma_auto_spec_u64_to_from_le_bytes();
}

pub broadcast proof fn lemma_enc_i64_len(x: i64)
    ensures
        (#[trigger] enc_i64(x)).len() == 8,
{
    lemma_auto_spec_u64_to_from_le_bytes();
}

pub broadcast proof fn lemma_enc_bool_len(x: bool)
    ensures
        (#[trigger] enc_bool(x)).len() == 1,
{
}

pub broadcast proof fn lemma_enc_key_len(k: AccountKey)
    ensures
        (#[trigger] enc_key(k)).len() == 32,
{
    lemma_auto_spec_u64_to_from_le_bytes();
}

pub broadcast group group_enc_lens {
    lemma_enc_u8_len,
    lemma_enc_u16_len,
    lemma_enc_u32_len,
    lemma_enc_u64_len,
    lemma_enc_i64_len,
    lemma_enc_bool_len,
    lemma_enc_key_len,
}

// ---------------------------------------------------------------------------
// Cast round trips
// ---------------------------------------------------------------------------

pub proof fn lemma_i64_u64_round_trip(x: i64)
    ensures
        (x as u64) as i64 == x,
{
    assert((x as u64) as i64 == x) by (bit_vector);
}

// ---------------------------------------------------------------------------
// Peel lemmas
//
// Record round trips are proved by peeling one field's encoding off the
// front of the remaining buffer at a time: if the suffix of `d` at `pos`
// is `enc + rest`, the parser at `pos` yields the encoded value and the
// suffix at the new position is `rest`.
// ---------------------------------------------------------------------------

/// If the suffix of `d` at `pos` is `chunk + rest`, then `chunk` sits at
/// `pos` and `rest` is the suffix just past it.
pub proof fn lemma_split_suffix(d: Seq<u8>, pos: int, chunk: Seq<u8>, rest: Seq<u8>)
    requires
        0 <= pos <= d.len(),
        d.subrange(pos, d.len() as int) == chunk + rest,
    ensures
        pos + chunk.len() <= d.len(),
        d.subrange(pos, pos + chunk.len() as int) == chunk,
        d.subrange(pos + chunk.len() as int, d.len() as int) == rest,
{
    let s = d.subrange(pos, d.len() as int);
    let n = chunk.len() as int;
    assert(s.len() == chunk.len() + rest.len());
    assert forall|i: int| 0 <= i < n implies d.subrange(pos, pos + n)[i] == chunk[i] by {
        assert(s[i] == d[pos + i]);
        assert(s[i] == (chunk + rest)[i]);
    }
    assert(d.subrange(pos, pos + n) =~= chunk);
    assert forall|i: int| 0 <= i < rest.len() implies d.subrange(pos + n, d.len() as int)[i]
        == rest[i] by {
        assert(s[n + i] == d[pos + n + i]);
        assert(s[n + i] == (chunk + rest)[n + i]);
    }
    assert(d.subrange(pos + n, d.len() as int) =~= rest);
}

pub proof fn lemma_peel_u8(d: Seq<u8>, pos: int, v: u8, rest: Seq<u8>)
    requires
        0 <= pos <= d.len(),
        d.subrange(pos, d.len() as int) == enc_u8(v) + rest,
    ensures
        parse_u8(d, pos) == Ok::<(u8, int), DecodeError>((v, pos + 1)),
        pos + 1 <= d.len(),
        d.subrange(pos + 1, d.len() as int) == rest,
{
    lemma_split_suffix(d, pos, enc_u8(v), rest);
    assert(d[pos] == d.subrange(pos, pos + 1)[0]);
}

pub proof fn lemma_peel_u16(d: Seq<u8>, pos: int, v: u16, rest: Seq<u8>)
    requires
        0 <= pos <= d.len(),
        d.subrange(pos, d.len() as int) == enc_u16(v) + rest,
    ensures
        parse_u16(d, pos) == Ok::<(u16, int), DecodeError>((v, pos + 2)),
        pos + 2 <= d.len(),
        d.subrange(pos + 2, d.len() as int) == rest,
{
    lemma_auto_spec_u16_to_from_le_bytes();
    lemma_split_suffix(d, pos, enc_u16(v), rest);
}

pub proof fn lemma_peel_u32(d: Seq<u8>, pos: int, v: u32, rest: Seq<u8>)
    requires
        0 <= pos <= d.len(),
        d.subrange(pos, d.len() as int) == enc_u32(v) + rest,
    ensures
        parse_u32(d, pos) == Ok::<(u32, int), DecodeError>((v, pos + 4)),
        pos + 4 <= d.len(),
        d.subrange(pos + 4, d.len() as int) == rest,
{
    lemma_auto_spec_u32_to_from_le_bytes();
    lemma_split_suffix(d, pos, enc_u32(v), rest);
}

pub proof fn lemma_peel_u64(d: Seq<u8>, pos: int, v: u64, rest: Seq<u8>)
    requires
        0 <= pos <= d.len(),
        d.subrange(pos, d.len() as int) == enc_u64(v) + rest,
    ensures
        parse_u64(d, pos) == Ok::<(u64, int), DecodeError>((v, pos + 8)),
        pos + 8 <= d.len(),
        d.subrange(pos + 8, d.len() as int) == rest,
{
    lemma_auto_spec_u64_to_from_le_bytes();
    lemma_split_suffix(d, pos, enc_u64(v), rest);
}

pub proof fn lemma_peel_i64(d: Seq<u8>, pos: int, v: i64, rest: Seq<u8>)
    requires
        0 <= pos <= d.len(),
        d.subrange(pos, d.len() as int) == enc_i64(v) + rest,
    ensures
        parse_i64(d, pos) == Ok::<(i64, int), DecodeError>((v, pos + 8)),
        pos + 8 <= d.len(),
        d.subrange(pos + 8, d.len() as int) == rest,
{
    lemma_peel_u64(d, pos, v as u64, rest);
    lemma_i64_u64_round_trip(v);
}

pub proof fn lemma_peel_bool(d: Seq<u8>, pos: int, v: bool, rest: Seq<u8>)
    requires
        0 <= pos <= d.len(),
        d.subrange(pos, d.len() as int) == enc_bool(v) + rest,
    ensures
        parse_bool(d, pos) == Ok::<(bool, int), DecodeError>((v, pos + 1)),
        pos + 1 <= d.len(),
        d.subrange(pos + 1, d.len() as int) == rest,
{
    lemma_peel_u8(d, pos, if v { 1u8 } else { 0u8 }, rest);
}

pub proof fn lemma_peel_key(d: Seq<u8>, pos: int, k: AccountKey, rest: Seq<u8>)
    requires
        0 <= pos <= d.len(),
        d.subrange(pos, d.len() as int) == enc_key(k) + rest,
    ensures
        parse_key(d, pos) == Ok::<(AccountKey, int), DecodeError>((k, pos + 32)),
        pos + 32 <= d.len(),
        d.subrange(pos + 32, d.len() as int) == rest,
{
    lemma_auto_spec_u64_to_from_le_bytes();
    assert(enc_key(k) + rest =~= enc_u64(k.w0) + (enc_u64(k.w1) + (enc_u64(k.w2) + (enc_u64(
        k.w3,
    ) + rest))));
    lemma_peel_u64(d, pos, k.w0, enc_u64(k.w1) + (enc_u64(k.w2) + (enc_u64(k.w3) + rest)));
    lemma_peel_u64(d, pos + 8, k.w1, enc_u64(k.w2) + (enc_u64(k.w3) + rest));
    lemma_peel_u64(d, pos + 16, k.w2, enc_u64(k.w3) + rest);
    lemma_peel_u64(d, pos + 24, k.w3, rest);
}

} // verus!
