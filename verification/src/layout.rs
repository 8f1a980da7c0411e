//! The persisted layout of the ledger's record: an eight-byte type tag, the
//! total as eight bytes, the time as eight bytes, and the nonce as one, all
//! integers little-endian.

use crate::accounts::LiabilityAccount;
use vstd::bytes::{
    lemma_auto_spec_u64_to_from_le_bytes, spec_u64_from_le_bytes, spec_u64_to_le_bytes,
    u64_from_le_bytes, u64_to_le_bytes,
};
use vstd::prelude::*;
use vstd::slice::slice_subrange;

verus! {

/// The tag that marks stored bytes as a ledger record: the first eight bytes
/// of the SHA-256 digest of `account:LiabilityAccount`.
pub const DISCRIMINATOR: [u8; 8] = [134, 169, 21, 189, 214, 141, 20, 78];

/// The stored form of `record`.
pub open spec fn encoding(record: LiabilityAccount) -> Seq<u8> {
    DISCRIMINATOR@ + spec_u64_to_le_bytes(record.total_staked) + spec_u64_to_le_bytes(
        record.last_updated as u64,
    ) + seq![record.bump]
}

/// The record that `data` stores: `data` must begin with the tag and be long
/// enough; bytes after the record are not read.
pub open spec fn decoding(data: Seq<u8>) -> Option<LiabilityAccount> {
    if data.len() >= LiabilityAccount::SPACE && data.subrange(0, 8) == DISCRIMINATOR@ {
        Some(
            LiabilityAccount {
                total_staked: spec_u64_from_le_bytes(data.subrange(8, 16)),
                last_updated: spec_u64_from_le_bytes(data.subrange(16, 24)) as i64,
                bump: data[24],
            },
        )
    } else {
        None
    }
}

impl LiabilityAccount {
    /// Writes the record in its stored form.
    pub fn to_bytes(&self) -> (r: Vec<u8>)
        ensures
            r@ == encoding(*self),
            r@.len() == LiabilityAccount::SPACE,
    {
        let mut out: Vec<u8> = Vec::new();
        let mut i: usize = 0;
        while i < 8
            invariant
                i <= 8,
                out@ == DISCRIMINATOR@.subrange(0, i as int),
            decreases 8 - i,
        {
            out.push(DISCRIMINATOR[i]);
            i += 1;
        }
        assert(out@ == DISCRIMINATOR@);
        let mut total = u64_to_le_bytes(self.total_staked);
        out.append(&mut total);
        let mut stamp = u64_to_le_bytes(self.last_updated as u64);
        out.append(&mut stamp);
        out.push(self.bump);
        out
    }

    /// Reads a record from its stored form.
    pub fn from_bytes(data: &[u8]) -> (r: Option<LiabilityAccount>)
        ensures
            r == decoding(data@),
    {
        if data.len() < LiabilityAccount::SPACE {
            return None;
        }
        let mut i: usize = 0;
        while i < 8
            invariant
                i <= 8,
                data@.len() >= 25,
                forall|j: int| 0 <= j < i ==> data@[j] == DISCRIMINATOR@[j],
            decreases 8 - i,
        {
            if data[i] != DISCRIMINATOR[i] {
                assert(data@.subrange(0, 8)[i as int] != DISCRIMINATOR@[i as int]);
                return None;
            }
            i += 1;
        }
        assert(data@.subrange(0, 8) =~= DISCRIMINATOR@);
        let total = u64_from_le_bytes(slice_subrange(data, 8, 16));
        let stamp = u64_from_le_bytes(slice_subrange(data, 16, 24));
        Some(LiabilityAccount { total_staked: total, last_updated: stamp as i64, bump: data[24] })
    }
}

/// What is written is what is read back.
pub proof fn lemma_decoding_inverts_encoding(record: LiabilityAccount)
    ensures
        encoding(record).len() == LiabilityAccount::SPACE,
        decoding(encoding(record)) == Some(record),
{
    lemma_auto_spec_u64_to_from_le_bytes();
    let data = encoding(record);
    let total = spec_u64_to_le_bytes(record.total_staked);
    let stamp = spec_u64_to_le_bytes(record.last_updated as u64);
    assert(data.subrange(0, 8) =~= DISCRIMINATOR@);
    assert(data.subrange(8, 16) =~= total);
    assert(data.subrange(16, 24) =~= stamp);
    let t = record.last_updated;
    assert((t as u64) as i64 == t) by (bit_vector);
}

/// Bytes after the record do not change what is read, and what is read,
/// written again, is the first bytes of what was read.
pub proof fn lemma_encoding_is_prefix(data: Seq<u8>)
    requires
        decoding(data) is Some,
    ensures
        encoding(decoding(data)->0) == data.subrange(0, LiabilityAccount::SPACE as int),
        decoding(data.subrange(0, LiabilityAccount::SPACE as int)) == decoding(data),
{
    lemma_auto_spec_u64_to_from_le_bytes();
    let record = decoding(data)->0;
    let head = data.subrange(0, 25);
    assert(head.subrange(0, 8) =~= data.subrange(0, 8));
    assert(head.subrange(8, 16) =~= data.subrange(8, 16));
    assert(head.subrange(16, 24) =~= data.subrange(16, 24));
    let raw = spec_u64_from_le_bytes(data.subrange(16, 24));
    assert((raw as i64) as u64 == raw) by (bit_vector);
    assert(spec_u64_to_le_bytes(spec_u64_from_le_bytes(data.subrange(8, 16))) == data.subrange(
        8,
        16,
    ));
    assert(spec_u64_to_le_bytes(spec_u64_from_le_bytes(data.subrange(16, 24)))
        == data.subrange(16, 24));
    assert(encoding(record) =~= head);
}

} // verus!
