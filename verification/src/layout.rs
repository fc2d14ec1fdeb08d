use vstd::prelude::*;
use vstd::bytes::{
    lemma_auto_spec_u64_to_from_le_bytes, spec_u64_from_le_bytes, spec_u64_to_le_bytes,
    u64_from_le_bytes, u64_to_le_bytes,
};
use vstd::slice::slice_subrange;
use crate::config::FaucetConfig;
use crate::identity::Identity;

verus! {

/// Number of bytes in a stored record: three identities, the nonce and the
/// volume.
pub const RECORD_LEN: usize = 105;

impl FaucetConfig {
    /// The record as it is stored: ledger, token and authority with 32
    /// bytes each, then the nonce, then the volume in eight bytes, lowest
    /// first.
    pub open spec fn packed(self) -> Seq<u8> {
        self.token_program@ + self.token_mint@ + self.token_authority@ + seq![self.nonce]
            + spec_u64_to_le_bytes(self.drip_volume)
    }

    /// The stored form of the record.
    pub fn pack(&self) -> (bytes: Vec<u8>)
        ensures
            bytes@ == self.packed(),
            bytes@.len() == RECORD_LEN,
    {
        let mut bytes: Vec<u8> = Vec::with_capacity(RECORD_LEN);
        self.token_program.append_to(&mut bytes);
        self.token_mint.append_to(&mut bytes);
        self.token_authority.append_to(&mut bytes);
        bytes.push(self.nonce);
        let volume = u64_to_le_bytes(self.drip_volume);
        let mut i: usize = 0;
        while i < 8
            invariant
                i <= 8,
                volume@.len() == 8,
                bytes@ == self.token_program@ + self.token_mint@ + self.token_authority@
                    + seq![self.nonce] + volume@.subrange(0, i as int),
            decreases 8 - i,
        {
            bytes.push(volume[i]);
            assert(volume@.subrange(0, i + 1) =~= volume@.subrange(0, i as int).push(
                volume@[i as int],
            ));
            i = i + 1;
        }
        assert(volume@.subrange(0, 8) =~= volume@);
        proof {
            self.token_program.lemma_len();
            self.token_mint.lemma_len();
            self.token_authority.lemma_len();
        }
        bytes
    }

    /// The record stored in `bytes`. Every string of `RECORD_LEN` bytes
    /// holds a record, and no other string does.
    pub fn unpack(bytes: &[u8]) -> (r: Option<FaucetConfig>)
        ensures
            r is Some <==> bytes@.len() == RECORD_LEN,
            r matches Some(record) ==> {
                &&& record.packed() == bytes@
                &&& record.token_program@ == bytes@.subrange(0, 32)
                &&& record.token_mint@ == bytes@.subrange(32, 64)
                &&& record.token_authority@ == bytes@.subrange(64, 96)
                &&& record.nonce == bytes@[96]
                &&& record.drip_volume == spec_u64_from_le_bytes(bytes@.subrange(97, 105))
            },
    {
        if bytes.len() != RECORD_LEN {
            return None;
        }
        let token_program = Identity::from_slice(slice_subrange(bytes, 0, 32));
        let token_mint = Identity::from_slice(slice_subrange(bytes, 32, 64));
        let token_authority = Identity::from_slice(slice_subrange(bytes, 64, 96));
        let nonce = bytes[96];
        let volume = slice_subrange(bytes, 97, 105);
        let drip_volume = u64_from_le_bytes(volume);
        match (token_program, token_mint, token_authority) {
            (Some(token_program), Some(token_mint), Some(token_authority)) => {
                let record = FaucetConfig {
                    token_program,
                    token_mint,
                    token_authority,
                    nonce,
                    drip_volume,
                };
                proof {
                    lemma_auto_spec_u64_to_from_le_bytes();
                    assert(spec_u64_to_le_bytes(drip_volume) == volume@);
                    assert(record.packed() =~= bytes@);
                }
                Some(record)
            },
            _ => None,
        }
    }

    /// Two records with the same stored form are the same record, and the
    /// stored form has `RECORD_LEN` bytes: what `unpack` reads is what
    /// `pack` wrote.
    pub proof fn lemma_packed_injective(self, other: FaucetConfig)
        ensures
            self.packed().len() == RECORD_LEN,
            self.packed() == other.packed() <==> self == other,
    {
        lemma_auto_spec_u64_to_from_le_bytes();
        self.token_program.lemma_len();
        self.token_mint.lemma_len();
        self.token_authority.lemma_len();
        other.token_program.lemma_len();
        other.token_mint.lemma_len();
        other.token_authority.lemma_len();
        if self.packed() == other.packed() {
            let a = self.packed();
            let b = other.packed();
            assert(self.token_program@ =~= a.subrange(0, 32));
            assert(other.token_program@ =~= b.subrange(0, 32));
            assert(self.token_mint@ =~= a.subrange(32, 64));
            assert(other.token_mint@ =~= b.subrange(32, 64));
            assert(self.token_authority@ =~= a.subrange(64, 96));
            assert(other.token_authority@ =~= b.subrange(64, 96));
            assert(self.nonce == a[96]);
            assert(other.nonce == b[96]);
            assert(spec_u64_to_le_bytes(self.drip_volume) =~= a.subrange(97, 105));
            assert(spec_u64_to_le_bytes(other.drip_volume) =~= b.subrange(97, 105));
            self.token_program.lemma_view_injective(other.token_program);
            self.token_mint.lemma_view_injective(other.token_mint);
            self.token_authority.lemma_view_injective(other.token_authority);
        }
    }
}

} // verus!
