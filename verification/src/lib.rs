//! A pegged-asset ledger with provenance gates, and the price oracle it is held against.

pub mod host;
pub mod identity;
pub mod laws;
pub mod ledger;
pub mod oracle;
pub mod record;

pub use identity::Identity;
pub use ledger::{PiCoinContract, PiCoinError};
pub use oracle::{OracleData, OracleError, PiCoinOracle};
pub use record::{PiCoinData, PiCoinSource};
