//! Wire format of a covariance accumulator: four fixed-width
//! little-endian fields, `count`, `co_moments`, `left_mean`,
//! `right_mean`, each 8 bytes — 32 bytes in all, no padding. Decoding the
//! encoding of a state gives the state back bit for bit.

use crate::state::AggregateCovarianceState;
use vstd::prelude::*;

verus! {

/// Number of bytes one encoded state occupies.
pub const STATE_ENCODED_LEN: usize = 32;

/// The eight little-endian bytes of a 64-bit word.
pub open spec fn spec_le_bytes(x: u64) -> Seq<u8> {
    seq![
        (x & 0xff) as u8,
        ((x >> 8) & 0xff) as u8,
        ((x >> 16) & 0xff) as u8,
        ((x >> 24) & 0xff) as u8,
        ((x >> 32) & 0xff) as u8,
        ((x >> 40) & 0xff) as u8,
        ((x >> 48) & 0xff) as u8,
        ((x >> 56) & 0xff) as u8,
    ]
}

/// The 64-bit word eight little-endian bytes spell.
pub open spec fn spec_le_word(b: Seq<u8>) -> u64
    recommends
        b.len() >= 8,
{
    (b[0] as u64) | ((b[1] as u64) << 8) | ((b[2] as u64) << 16) | ((b[3] as u64) << 24) | ((
    b[4] as u64) << 32) | ((b[5] as u64) << 40) | ((b[6] as u64) << 48) | ((b[7] as u64) << 56)
}

/// The 32-byte encoding of a state: `count`, `co_moments`, `left_mean`,
/// `right_mean`, each as eight little-endian bytes.
pub open spec fn spec_serialize(st: AggregateCovarianceState) -> Seq<u8> {
    spec_le_bytes(st.count) + spec_le_bytes(st.co_moments) + spec_le_bytes(st.left_mean)
        + spec_le_bytes(st.right_mean)
}

/// The state the first 32 bytes of `b` spell.
pub open spec fn spec_deserialize(b: Seq<u8>) -> AggregateCovarianceState
    recommends
        b.len() >= 32,
{
    AggregateCovarianceState {
        count: spec_le_word(b.subrange(0, 8)),
        co_moments: spec_le_word(b.subrange(8, 16)),
        left_mean: spec_le_word(b.subrange(16, 24)),
        right_mean: spec_le_word(b.subrange(24, 32)),
    }
}

/// Eight little-endian bytes spell back the word they came from.
pub proof fn lemma_le_word_roundtrip(x: u64)
    ensures
        spec_le_word(spec_le_bytes(x)) == x,
{
    let b = spec_le_bytes(x);
    assert(((x & 0xff) as u8 as u64) | (((x >> 8) & 0xff) as u8 as u64) << 8 | (((x >> 16)
        & 0xff) as u8 as u64) << 16 | (((x >> 24) & 0xff) as u8 as u64) << 24 | (((x >> 32)
        & 0xff) as u8 as u64) << 32 | (((x >> 40) & 0xff) as u8 as u64) << 40 | (((x >> 48)
        & 0xff) as u8 as u64) << 48 | (((x >> 56) & 0xff) as u8 as u64) << 56 == x)
        by (bit_vector);
}

/// Decoding the encoding of a state gives the state back bit for bit.
pub proof fn lemma_serialize_roundtrip(st: AggregateCovarianceState)
    ensures
        spec_serialize(st).len() == 32,
        spec_deserialize(spec_serialize(st)) == st,
{
    let b = spec_serialize(st);
    assert(b.subrange(0, 8) =~= spec_le_bytes(st.count));
    assert(b.subrange(8, 16) =~= spec_le_bytes(st.co_moments));
    assert(b.subrange(16, 24) =~= spec_le_bytes(st.left_mean));
    assert(b.subrange(24, 32) =~= spec_le_bytes(st.right_mean));
    lemma_le_word_roundtrip(st.count);
    lemma_le_word_roundtrip(st.co_moments);
    lemma_le_word_roundtrip(st.left_mean);
    lemma_le_word_roundtrip(st.right_mean);
}

/// Append the eight little-endian bytes of `x` to `writer`.
pub fn write_le_word(writer: &mut Vec<u8>, x: u64)
    ensures
        final(writer)@ == old(writer)@ + spec_le_bytes(x),
{
    writer.push((x & 0xff) as u8);
    writer.push(((x >> 8) & 0xff) as u8);
    writer.push(((x >> 16) & 0xff) as u8);
    writer.push(((x >> 24) & 0xff) as u8);
    writer.push(((x >> 32) & 0xff) as u8);
    writer.push(((x >> 40) & 0xff) as u8);
    writer.push(((x >> 48) & 0xff) as u8);
    writer.push(((x >> 56) & 0xff) as u8);
    assert(writer@ =~= old(writer)@ + spec_le_bytes(x));
}

/// Read the 64-bit word the eight little-endian bytes at `pos` spell.
pub fn read_le_word(reader: &Vec<u8>, pos: usize) -> (r: u64)
    requires
        pos + 8 <= reader@.len(),
    ensures
        r == spec_le_word(reader@.subrange(pos as int, pos as int + 8)),
{
    let n: usize = reader.len();
    assert(pos + 8 <= n);
    let r = (reader[pos] as u64) | ((reader[pos + 1] as u64) << 8) | ((reader[pos + 2] as u64)
        << 16) | ((reader[pos + 3] as u64) << 24) | ((reader[pos + 4] as u64) << 32) | ((reader[pos
        + 5] as u64) << 40) | ((reader[pos + 6] as u64) << 48) | ((reader[pos + 7] as u64) << 56);
    proof {
        let b = reader@.subrange(pos as int, pos as int + 8);
        assert(b[0] == reader@[pos as int]);
        assert(b[1] == reader@[pos as int + 1]);
        assert(b[2] == reader@[pos as int + 2]);
        assert(b[3] == reader@[pos as int + 3]);
        assert(b[4] == reader@[pos as int + 4]);
        assert(b[5] == reader@[pos as int + 5]);
        assert(b[6] == reader@[pos as int + 6]);
        assert(b[7] == reader@[pos as int + 7]);
    }
    r
}

} // verus!
