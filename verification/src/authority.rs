use vstd::prelude::*;
use crate::identity::Identity;
use anchor_lang::prelude::Pubkey;

verus! {

/// The address that the chain derives for `program` from the seeds
/// `record` and `[nonce]`, or `None` where these seeds derive none.
pub uninterp spec fn program_address(record: Seq<u8>, nonce: u8, program: Seq<u8>) -> Option<
    Seq<u8>,
>;

/// `Pubkey::create_program_address`, which anchor_lang hands on from the
/// solana-address crate, called on the two seeds `record` and `[nonce]`.
/// It hashes the seeds, the program's address and a fixed marker, and
/// answers with the hash as an address, or with an error where the hash is
/// a point of the signature curve. The answer depends on nothing but the
/// arguments; the contract gives it the name `program_address`, with
/// `None` for the error. The call's other error, for too many or too long
/// seeds, cannot come: there are two seeds here, of 32 bytes and of one.
#[verifier::external_body]
fn create_program_address(record: &Identity, nonce: u8, program: &Identity) -> (derived: Option<
    Identity,
>)
    ensures
        program_address(record@, nonce, program@) == match derived {
            Some(address) => Some(address@),
            None => None::<Seq<u8>>,
        },
{
    let record_bytes = record.to_bytes();
    let program_key = Pubkey::new_from_array(program.to_bytes());
    match Pubkey::create_program_address(&[&record_bytes, &[nonce]], &program_key) {
        Ok(address) => Some(Identity::new_from_array(address.to_bytes())),
        Err(_) => None,
    }
}

/// The seeds from which a faucet's signing identity is derived: the
/// identity of its configuration record and the record's nonce. A ledger
/// accepts a mint signed by the derived identity only together with them.
#[derive(Clone, Copy, Debug, PartialEq, Eq)]
pub struct SignerSeeds {
    /// The identity of the configuration record.
    pub record: Identity,
    /// The record's nonce.
    pub nonce: u8,
}

impl SignerSeeds {
    /// The identity that signs for `program` with these seeds, if they
    /// derive one.
    pub fn derive(&self, program: &Identity) -> (derived: Option<Identity>)
        ensures
            program_address(self.record@, self.nonce, program@) == match derived {
                Some(address) => Some(address@),
                None => None::<Seq<u8>>,
            },
    {
        create_program_address(&self.record, self.nonce, program)
    }
}

} // verus!
