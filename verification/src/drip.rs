use vstd::prelude::*;
use crate::authority::{program_address, SignerSeeds};
use crate::config::FaucetConfig;
use crate::error::FaucetError;
use crate::identity::Identity;
use crate::ledger::MintInstruction;

verus! {

/// The accounts of a drip: the faucet's record with the identity under
/// which it is stored, the three identities that the caller claims for
/// ledger, token and authority, and the account that is to receive.
#[derive(Clone, Copy, Debug, PartialEq, Eq)]
pub struct Drip {
    /// The identity of the configuration record itself.
    pub faucet_key: Identity,
    /// The configuration record.
    pub faucet_config: FaucetConfig,
    /// The ledger that the caller names.
    pub token_program: Identity,
    /// The token that the caller names.
    pub token_mint: Identity,
    /// The signing authority that the caller names.
    pub token_authority: Identity,
    /// The account that receives the minted units.
    pub receiver: Identity,
}

impl Drip {
    /// Whether ledger, token and authority are those of the record.
    pub open spec fn matches_record(self) -> bool {
        &&& self.token_program@ == self.faucet_config.token_program@
        &&& self.token_mint@ == self.faucet_config.token_mint@
        &&& self.token_authority@ == self.faucet_config.token_authority@
    }

    /// The seeds that sign for the faucet: the record's identity and nonce.
    pub open spec fn signer_seeds(self) -> SignerSeeds {
        SignerSeeds { record: self.faucet_key, nonce: self.faucet_config.nonce }
    }

    /// The instruction of this drip: the record's volume of the token, to
    /// the receiver, signed for the authority with the record's seeds.
    pub open spec fn instruction(self) -> MintInstruction {
        MintInstruction {
            ledger: self.token_program,
            mint: self.token_mint,
            to: self.receiver,
            authority: self.token_authority,
            amount: self.faucet_config.drip_volume,
            signer: self.signer_seeds(),
        }
    }

    /// Whether the drip is authorized, where `derived` is the identity that
    /// the record's seeds derive: the accounts are those of the record, and
    /// the authority is that identity.
    pub open spec fn authorized(self, derived: Option<Seq<u8>>) -> bool {
        self.matches_record() && derived == Some(self.token_authority@)
    }

    /// What the drip returns, where `derived` is the identity that the
    /// record's seeds derive.
    pub open spec fn outcome(self, derived: Option<Seq<u8>>) -> Result<
        MintInstruction,
        FaucetError,
    > {
        if self.authorized(derived) {
            Ok(self.instruction())
        } else {
            refused()
        }
    }
}

/// The result of a drip that is not authorized.
pub open spec fn refused() -> Result<MintInstruction, FaucetError> {
    Err(FaucetError::AuthorizationError)
}

/// The bytes of an identity that may be absent.
pub open spec fn bytes_of(id: Option<Identity>) -> Option<Seq<u8>> {
    match id {
        Some(id) => Some(id@),
        None => None,
    }
}

/// Decides a drip, given the identity `derived` from the record's seeds
/// (`None` where they derive none). The drip is authorized where ledger,
/// token and authority are those recorded and the authority is `derived`;
/// it then yields the instruction for the ledger. Any other drip is refused
/// with `AuthorizationError`.
pub fn authorize(accounts: &Drip, derived: Option<Identity>) -> (r: Result<
    MintInstruction,
    FaucetError,
>)
    ensures
        r == accounts.outcome(bytes_of(derived)),
        r is Ok <==> accounts.authorized(bytes_of(derived)),
        !accounts.matches_record() ==> r == refused(),
        bytes_of(derived) != Some(accounts.token_authority@) ==> r == refused(),
        r matches Ok(instruction) ==> instruction == accounts.instruction(),
{
    let config = &accounts.faucet_config;
    if accounts.token_program != config.token_program {
        return Err(FaucetError::AuthorizationError);
    }
    if accounts.token_mint != config.token_mint {
        return Err(FaucetError::AuthorizationError);
    }
    if accounts.token_authority != config.token_authority {
        return Err(FaucetError::AuthorizationError);
    }
    match derived {
        Some(signer) => {
            if signer != accounts.token_authority {
                return Err(FaucetError::AuthorizationError);
            }
        },
        None => {
            return Err(FaucetError::AuthorizationError);
        },
    }
    Ok(
        MintInstruction {
            ledger: accounts.token_program,
            mint: accounts.token_mint,
            to: accounts.receiver,
            authority: accounts.token_authority,
            amount: config.drip_volume,
            signer: SignerSeeds { record: accounts.faucet_key, nonce: config.nonce },
        },
    )
}

/// Authorizes one drip of the faucet run by `program`. The signing
/// identity is derived anew from the record's identity and nonce, and the
/// drip is decided as `authorize` decides it. On success the result is the
/// instruction to hand to the ledger: mint the record's volume to the
/// receiver.
pub fn drip(program: &Identity, accounts: &Drip) -> (r: Result<MintInstruction, FaucetError>)
    ensures
        r == accounts.outcome(
            program_address(accounts.faucet_key@, accounts.faucet_config.nonce, program@),
        ),
        accounts.token_program@ != accounts.faucet_config.token_program@ ==> r == refused(),
        accounts.token_mint@ != accounts.faucet_config.token_mint@ ==> r == refused(),
        accounts.token_authority@ != accounts.faucet_config.token_authority@ ==> r == refused(),
        program_address(accounts.faucet_key@, accounts.faucet_config.nonce, program@) != Some(
            accounts.token_authority@,
        ) ==> r == refused(),
        r matches Ok(instruction) ==> instruction == accounts.instruction(),
{
    let seeds = SignerSeeds { record: accounts.faucet_key, nonce: accounts.faucet_config.nonce };
    let derived = seeds.derive(program);
    authorize(accounts, derived)
}

} // verus!
