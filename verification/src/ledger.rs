use vstd::prelude::*;
use crate::authority::SignerSeeds;
use crate::error::FaucetError;
use crate::identity::Identity;

verus! {

/// The bytes of the token ledger's address,
/// `TokenkegQfeZyiNwAJbNbGKPFXCWuBvf9Ss623VQ5DA` in base 58.
pub open spec fn token_ledger_bytes() -> Seq<u8> {
    seq![
        6u8, 221, 246, 225, 215, 101, 161, 147,
        217, 203, 225, 70, 206, 235, 121, 172,
        28, 180, 133, 237, 95, 91, 55, 145,
        58, 140, 245, 133, 126, 255, 0, 169,
    ]
}

/// `anchor_spl::token::ID`, the address under which the token program is
/// deployed. The crate declares it as a base 58 string; the contract gives
/// the 32 bytes which that string stands for.
#[verifier::external_body]
fn token_program_id() -> (id: Identity)
    ensures
        id@ == token_ledger_bytes(),
{
    Identity::new_from_array(anchor_spl::token::ID.to_bytes())
}

/// Whether `id` is the token ledger.
pub fn is_token_ledger(id: &Identity) -> (r: bool)
    ensures
        r == (id@ == token_ledger_bytes()),
{
    *id == token_program_id()
}

/// The request that a drip hands to the ledger: mint `amount` units of
/// `mint` to `to`, on the word of `authority`, which signs through
/// `signer` and holds no key.
#[derive(Clone, Copy, Debug, PartialEq, Eq)]
pub struct MintInstruction {
    /// The ledger that is asked.
    pub ledger: Identity,
    /// The token to mint.
    pub mint: Identity,
    /// The account that receives the units.
    pub to: Identity,
    /// The identity entitled to mint.
    pub authority: Identity,
    /// How many units to mint.
    pub amount: u64,
    /// The seeds that stand for the authority's signature.
    pub signer: SignerSeeds,
}

/// What the ledger answered to a mint instruction.
#[derive(Clone, Copy, Debug, PartialEq, Eq, Structural)]
pub enum LedgerOutcome {
    /// The units were minted.
    Minted,
    /// The seeds do not sign for the authority named.
    SignatureRejected,
    /// The signature stood, and the mint itself failed.
    MintFailed,
}

/// The result of a drip whose instruction the ledger answered with
/// `outcome`.
pub open spec fn settled(outcome: LedgerOutcome) -> Result<(), FaucetError> {
    match outcome {
        LedgerOutcome::Minted => Ok(()),
        LedgerOutcome::SignatureRejected => Err(FaucetError::AuthorizationError),
        LedgerOutcome::MintFailed => Err(FaucetError::DelegationFailure),
    }
}

/// Turns the ledger's answer into the result of the drip: success where
/// it minted, and otherwise the error that names why it did not.
pub fn settle(outcome: LedgerOutcome) -> (r: Result<(), FaucetError>)
    ensures
        r == settled(outcome),
{
    match outcome {
        LedgerOutcome::Minted => Ok(()),
        LedgerOutcome::SignatureRejected => Err(FaucetError::AuthorizationError),
        LedgerOutcome::MintFailed => Err(FaucetError::DelegationFailure),
    }
}

/// What `account` holds in `balances`: nothing where it has no entry.
pub open spec fn balance(balances: Map<Seq<u8>, nat>, account: Seq<u8>) -> nat {
    if balances.dom().contains(account) {
        balances[account]
    } else {
        0
    }
}

/// The balances that the ledger holds once it has answered `instruction`
/// with `outcome`. A mint is atomic: where it succeeds the receiver has
/// the amount more and nothing else has changed, and where it fails
/// nothing has changed at all.
pub open spec fn balances_after(
    balances: Map<Seq<u8>, nat>,
    instruction: MintInstruction,
    outcome: LedgerOutcome,
) -> Map<Seq<u8>, nat> {
    if outcome == LedgerOutcome::Minted {
        balances.insert(
            instruction.to@,
            (balance(balances, instruction.to@) + instruction.amount) as nat,
        )
    } else {
        balances
    }
}

} // verus!
