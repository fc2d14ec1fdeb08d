use vstd::prelude::*;
use crate::error::FaucetError;
use crate::identity::Identity;
use crate::ledger::{is_token_ledger, token_ledger_bytes};

verus! {

/// The one durable record of a faucet. It is written once, when the faucet
/// is initialized, and only read after that.
#[derive(Clone, Copy, Debug, PartialEq, Eq)]
pub struct FaucetConfig {
    /// The ledger that the faucet trusts to mint.
    pub token_program: Identity,
    /// The token that the faucet dispenses.
    pub token_mint: Identity,
    /// The identity that the ledger takes as entitled to mint the token.
    pub token_authority: Identity,
    /// The byte which, with the record's own identity, derives the signing
    /// identity.
    pub nonce: u8,
    /// How many units one drip mints.
    pub drip_volume: u64,
}

/// The accounts of an initialization: the slot that will hold the record,
/// empty while it is fresh, and the three identities to record.
#[derive(Clone, Copy, Debug, PartialEq, Eq)]
pub struct InitializeFaucet {
    /// The storage slot of the record.
    pub faucet_config: Option<FaucetConfig>,
    /// The ledger named for the faucet.
    pub token_program: Identity,
    /// The token to dispense.
    pub token_mint: Identity,
    /// The identity designated to mint.
    pub token_authority: Identity,
}

impl InitializeFaucet {
    /// Whether an initialization with these accounts is accepted: the slot
    /// is fresh and the ledger named is the token ledger.
    pub open spec fn acceptable(self) -> bool {
        self.faucet_config is None && self.token_program@ == token_ledger_bytes()
    }

    /// The record that an initialization with these accounts writes.
    pub open spec fn record(self, nonce: u8, drip_volume: u64) -> FaucetConfig {
        FaucetConfig {
            token_program: self.token_program,
            token_mint: self.token_mint,
            token_authority: self.token_authority,
            nonce,
            drip_volume,
        }
    }

    /// The accounts as an initialization leaves them: with the record in
    /// the slot where it is accepted, untouched where it is not.
    pub open spec fn initialized(self, nonce: u8, drip_volume: u64) -> InitializeFaucet {
        if self.acceptable() {
            InitializeFaucet { faucet_config: Some(self.record(nonce, drip_volume)), ..self }
        } else {
            self
        }
    }

    /// What an initialization with these accounts returns.
    pub open spec fn outcome(self) -> Result<(), FaucetError> {
        if self.acceptable() {
            Ok(())
        } else {
            Err(FaucetError::ConfigurationError)
        }
    }
}

/// Creates the faucet's record: writes the three identities of `accounts`,
/// `nonce` and `drip_volume` into the slot as they are given. A slot that
/// already holds a record, or a ledger that is not the token ledger, is
/// refused with `ConfigurationError`, and the slot stays as it was.
///
/// That the authority is the identity which the nonce derives is not
/// looked at here: it is left to the caller, and a faucet created with
/// another authority never drips.
pub fn initialize(accounts: &mut InitializeFaucet, nonce: u8, drip_volume: u64) -> (r: Result<
    (),
    FaucetError,
>)
    ensures
        r == old(accounts).outcome(),
        *final(accounts) == old(accounts).initialized(nonce, drip_volume),
        r is Ok ==> final(accounts).faucet_config == Some(
            (FaucetConfig {
                token_program: old(accounts).token_program,
                token_mint: old(accounts).token_mint,
                token_authority: old(accounts).token_authority,
                nonce,
                drip_volume,
            }),
        ),
        old(accounts).faucet_config is Some ==> r == Err::<(), FaucetError>(
            FaucetError::ConfigurationError,
        ) && *final(accounts) == *old(accounts),
{
    if accounts.faucet_config.is_some() {
        return Err(FaucetError::ConfigurationError);
    }
    if !is_token_ledger(&accounts.token_program) {
        return Err(FaucetError::ConfigurationError);
    }
    accounts.faucet_config = Some(
        FaucetConfig {
            token_program: accounts.token_program,
            token_mint: accounts.token_mint,
            token_authority: accounts.token_authority,
            nonce,
            drip_volume,
        },
    );
    Ok(())
}

} // verus!
