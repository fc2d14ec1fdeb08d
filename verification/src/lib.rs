//! A token faucet: a configuration record that binds a token mint to a
//! derived signing authority, and the rules by which a drip request is
//! authorized against that record.
//!
//! A faucet is created once, by [`initialize`], which writes its record.
//! Every drip after that is decided by [`drip`]: the accounts that the
//! caller supplies must be those of the record, and the authority must be
//! the identity that the record's own identity and nonce derive. A drip
//! that is authorized yields a [`MintInstruction`]; the caller hands it to
//! the token ledger and passes the ledger's answer to [`settle`].

pub mod authority;
pub mod config;
pub mod drip;
pub mod error;
pub mod identity;
pub mod laws;
pub mod layout;
pub mod ledger;

pub use authority::SignerSeeds;
pub use config::{initialize, FaucetConfig, InitializeFaucet};
pub use drip::{authorize, drip, Drip};
pub use error::FaucetError;
pub use identity::Identity;
pub use layout::RECORD_LEN;
pub use ledger::{is_token_ledger, settle, LedgerOutcome, MintInstruction};
