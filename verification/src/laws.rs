use vstd::prelude::*;
use crate::config::{FaucetConfig, InitializeFaucet};
use crate::drip::{refused, Drip};
use crate::error::FaucetError;
use crate::identity::Identity;
use crate::ledger::{balance, balances_after, settled, token_ledger_bytes, LedgerOutcome};

verus! {

/// An initialization that is accepted leaves in the slot a record that
/// reads back as exactly the five values supplied.
pub proof fn lemma_record_reads_back(accounts: InitializeFaucet, nonce: u8, drip_volume: u64)
    requires
        accounts.acceptable(),
    ensures
        accounts.outcome() is Ok,
        accounts.initialized(nonce, drip_volume).faucet_config matches Some(record) && {
            &&& record.token_program == accounts.token_program
            &&& record.token_mint == accounts.token_mint
            &&& record.token_authority == accounts.token_authority
            &&& record.nonce == nonce
            &&& record.drip_volume == drip_volume
        },
{
}

/// Of two initializations of one slot the second is refused with
/// `ConfigurationError` and leaves the slot as the first left it. The one
/// case left out is a first initialization that was itself refused for its
/// ledger and so left a fresh slot behind, followed by a second whose
/// ledger is in order.
pub proof fn lemma_second_initialize_refused(
    first: InitializeFaucet,
    first_nonce: u8,
    first_volume: u64,
    token_program: Identity,
    token_mint: Identity,
    token_authority: Identity,
    nonce: u8,
    drip_volume: u64,
)
    requires
        first.faucet_config is Some || first.token_program@ == token_ledger_bytes()
            || token_program@ != token_ledger_bytes(),
    ensures
        ({
            let slot = first.initialized(first_nonce, first_volume).faucet_config;
            let second = InitializeFaucet {
                faucet_config: slot,
                token_program,
                token_mint,
                token_authority,
            };
            &&& second.outcome() == Err::<(), FaucetError>(FaucetError::ConfigurationError)
            &&& second.initialized(nonce, drip_volume).faucet_config == slot
        }),
{
}

/// Once a slot holds a record no initialization changes it: the record is
/// written once and its volume stays what it was.
pub proof fn lemma_record_is_immutable(
    accounts: InitializeFaucet,
    record: FaucetConfig,
    nonce: u8,
    drip_volume: u64,
)
    requires
        accounts.faucet_config == Some(record),
    ensures
        accounts.outcome() is Err,
        accounts.initialized(nonce, drip_volume).faucet_config == Some(record),
{
}

/// A drip that succeeds raises the receiver's balance by exactly the
/// record's volume and changes the balance of no other account. Here
/// `derived` is the identity that the record's seeds derive, `outcome` the
/// ledger's answer to the drip's instruction, and `balances` what the
/// ledger held before.
pub proof fn lemma_drip_credits_receiver_alone(
    accounts: Drip,
    derived: Option<Seq<u8>>,
    outcome: LedgerOutcome,
    balances: Map<Seq<u8>, nat>,
)
    requires
        accounts.outcome(derived) is Ok,
        settled(outcome) is Ok,
    ensures
        ({
            let after = balances_after(balances, accounts.outcome(derived)->Ok_0, outcome);
            &&& balance(after, accounts.receiver@) == balance(balances, accounts.receiver@)
                + accounts.faucet_config.drip_volume
            &&& forall|other: Seq<u8>|
                other != accounts.receiver@ ==> #[trigger] balance(after, other) == balance(
                    balances,
                    other,
                )
        }),
{
}

/// A drip that fails mints nothing: whatever the ledger answered short of
/// success, every balance is what it was.
pub proof fn lemma_failed_drip_changes_nothing(
    accounts: Drip,
    derived: Option<Seq<u8>>,
    outcome: LedgerOutcome,
    balances: Map<Seq<u8>, nat>,
)
    requires
        accounts.outcome(derived) is Ok,
        settled(outcome) is Err,
    ensures
        balances_after(balances, accounts.outcome(derived)->Ok_0, outcome) == balances,
{
}

/// A drip whose caller names an authority other than the recorded one is
/// refused with `AuthorizationError`, whatever the seeds derive.
pub proof fn lemma_foreign_authority_refused(accounts: Drip, derived: Option<Seq<u8>>)
    requires
        accounts.token_authority@ != accounts.faucet_config.token_authority@,
    ensures
        accounts.outcome(derived) == refused(),
{
}

/// A drip whose caller names a token or a ledger other than the recorded
/// one is refused with `AuthorizationError`, whatever the seeds derive.
pub proof fn lemma_foreign_token_refused(accounts: Drip, derived: Option<Seq<u8>>)
    requires
        accounts.token_mint@ != accounts.faucet_config.token_mint@ || accounts.token_program@
            != accounts.faucet_config.token_program@,
    ensures
        accounts.outcome(derived) == refused(),
{
}

/// A drip whose seeds do not derive the authority that is to sign is
/// refused with `AuthorizationError`: both where they derive another
/// identity and where they derive none.
pub proof fn lemma_seed_mismatch_refused(accounts: Drip, derived: Option<Seq<u8>>)
    requires
        derived != Some(accounts.token_authority@),
    ensures
        accounts.outcome(derived) == refused(),
{
}

/// A faucet whose recorded authority is not the identity that its seeds
/// derive never drips: whatever accounts a caller supplies, the drip is
/// refused with `AuthorizationError`.
pub proof fn lemma_misconfigured_faucet_never_drips(accounts: Drip, derived: Option<Seq<u8>>)
    requires
        derived != Some(accounts.faucet_config.token_authority@),
    ensures
        accounts.outcome(derived) == refused(),
{
}

/// A drip on a record that an initialization wrote is addressed to the
/// token ledger, for the token and by the authority that were recorded.
pub proof fn lemma_drip_follows_the_record(
    initial: InitializeFaucet,
    nonce: u8,
    drip_volume: u64,
    accounts: Drip,
    derived: Option<Seq<u8>>,
)
    requires
        initial.acceptable(),
        initial.initialized(nonce, drip_volume).faucet_config == Some(accounts.faucet_config),
        accounts.outcome(derived) is Ok,
    ensures
        ({
            let instruction = accounts.outcome(derived)->Ok_0;
            &&& instruction.ledger@ == token_ledger_bytes()
            &&& instruction.mint@ == initial.token_mint@
            &&& instruction.authority@ == initial.token_authority@
            &&& instruction.amount == drip_volume
            &&& instruction.signer.nonce == nonce
            &&& instruction.to == accounts.receiver
            &&& derived == Some(initial.token_authority@)
        }),
{
}

/// A ledger that rejects the signature fails the drip with
/// `AuthorizationError`; one that accepts it and cannot mint fails it with
/// `DelegationFailure`; the drip succeeds only where the ledger minted.
pub proof fn lemma_settled_by_outcome(outcome: LedgerOutcome)
    ensures
        settled(outcome) is Ok <==> outcome == LedgerOutcome::Minted,
        outcome == LedgerOutcome::SignatureRejected ==> settled(outcome) == Err::<(), FaucetError>(
            FaucetError::AuthorizationError,
        ),
        outcome == LedgerOutcome::MintFailed ==> settled(outcome) == Err::<(), FaucetError>(
            FaucetError::DelegationFailure,
        ),
{
}

} // verus!
