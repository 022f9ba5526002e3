//! The peg ledger: minting against collateral, transfers that pass provenance on, the peg
//! check and the governance vote, each gated by the provenance of whoever acts.
//!
//! Who has authorized a call, what collateral a holder has posted, what the oracle quotes
//! and what the service has signed are not decided here: each operation takes them as
//! values.

use vstd::prelude::*;
use vstd::string::*;
use crate::host::{sha256, sha256_digest};
use crate::identity::{bytes_equal, Identity};
use crate::oracle::{asset_key, PiCoinOracle};
use crate::record::{LedgerState, PiCoinData, PiCoinSource, PEG_VALUE};

verus! {

/// Largest distance from the peg, in micro-units, that still counts as stable.
pub const PEG_TOLERANCE: i128 = 1_000;

/// The collateral that the stand-in collateral service reports for every holder.
pub const FULL_BACKING: i128 = 100_000_000_000;

/// The width of the band in which the stand-in oracle quotes.
pub const QUOTE_SPREAD: u64 = 1_000;

/// Why a ledger operation was refused.
#[derive(Clone, Copy, Debug, PartialEq, Eq, Structural)]
pub enum PiCoinError {
    InsufficientCollateral,
    PegDeviation,
    Unauthorized,
    InvalidSource,
    AlreadyInitialized,
}

impl PiCoinError {
    /// The number under which the error is reported outside the ledger.
    pub open spec fn number(self) -> u32 {
        match self {
            PiCoinError::InsufficientCollateral => 1,
            PiCoinError::PegDeviation => 2,
            PiCoinError::Unauthorized => 3,
            PiCoinError::InvalidSource => 4,
            PiCoinError::AlreadyInitialized => 5,
        }
    }

    /// The number under which the error is reported outside the ledger.
    pub fn code(&self) -> (code: u32)
        ensures
            code == self.number(),
    {
        match self {
            PiCoinError::InsufficientCollateral => 1,
            PiCoinError::PegDeviation => 2,
            PiCoinError::Unauthorized => 3,
            PiCoinError::InvalidSource => 4,
            PiCoinError::AlreadyInitialized => 5,
        }
    }
}

/// The text whose digest anchors the ledger against tampering.
pub open spec fn anti_fraud_tag() -> Seq<u8> {
    "PiCoin-Ultimate-Hyper-Tech-Unique".spec_bytes()
}

/// The text whose digest stands as provenance hash until the first mint.
pub open spec fn provenance_tag() -> Seq<u8> {
    "PiCoin-Provenance-Quantum-Unmatched".spec_bytes()
}

/// The lowest eight bits of an amount.
pub open spec fn low_byte(amount: i128) -> u8 {
    (amount as int % 256) as u8
}

/// The two bytes whose digest proves a transfer of `amount`: its lowest byte, then 42.
pub open spec fn transfer_proof_input(amount: i128) -> Seq<u8> {
    seq![low_byte(amount), 42u8]
}

/// Distance between a price and the peg.
pub open spec fn peg_deviation(price: int) -> int {
    if price >= PEG_VALUE {
        price - PEG_VALUE
    } else {
        PEG_VALUE - price
    }
}

/// The price that the stand-in oracle quotes at a ledger time.
pub open spec fn stand_in_quote(timestamp: u64) -> int {
    PEG_VALUE + timestamp % QUOTE_SPREAD
}

/// The result of an initialization request: it takes the administrator's authorization,
/// and a deployment that has no record yet.
pub open spec fn initialize_outcome(initialized: bool, admin_authorized: bool) -> Result<(), PiCoinError> {
    if !admin_authorized {
        Err(PiCoinError::Unauthorized)
    } else if initialized {
        Err(PiCoinError::AlreadyInitialized)
    } else {
        Ok(())
    }
}

/// The result of a mint request: it takes an accepted source, and collateral that covers
/// the amount.
pub open spec fn mint_outcome(source: PiCoinSource, amount: int, collateral_balance: int) -> Result<(), PiCoinError> {
    if !source.accepted() {
        Err(PiCoinError::InvalidSource)
    } else if collateral_balance < amount {
        Err(PiCoinError::InsufficientCollateral)
    } else {
        Ok(())
    }
}

/// The result of a peg check for `holder` against the oracle's price.
pub open spec fn peg_outcome(ledger: LedgerState, holder: Seq<u8>, oracle_price: int) -> Result<bool, PiCoinError> {
    if !ledger.admits(holder) {
        Err(PiCoinError::InvalidSource)
    } else if peg_deviation(oracle_price) > PEG_TOLERANCE {
        Err(PiCoinError::PegDeviation)
    } else {
        Ok(true)
    }
}

/// The result of a vote request: it takes the voter's authorization, and a voter who is
/// admitted.
pub open spec fn vote_outcome(ledger: LedgerState, voter_authorized: bool, voter: Seq<u8>) -> Result<
    (),
    PiCoinError,
> {
    if !voter_authorized {
        Err(PiCoinError::Unauthorized)
    } else if !ledger.admits(voter) {
        Err(PiCoinError::InvalidSource)
    } else {
        Ok(())
    }
}

/// What a deployment holds: the ledger record once initialized, and the registered
/// anti-forgery base.
pub struct ContractState {
    pub ledger: Option<LedgerState>,
    pub zkp_base: Option<Seq<u8>>,
}

impl ContractState {
    /// Whether the ledger record exists.
    pub open spec fn initialized(self) -> bool {
        self.ledger is Some
    }

    /// The value a transfer proof must equal: the registered base, or 32 zero bytes while
    /// none is registered.
    pub open spec fn expected_proof(self) -> Seq<u8> {
        match self.zkp_base {
            Some(base) => base,
            None => Seq::new(32, |i: int| 0u8),
        }
    }

    /// The same deployment with another ledger record.
    pub open spec fn with_ledger(self, ledger: LedgerState) -> ContractState {
        ContractState { ledger: Some(ledger), ..self }
    }

    /// The result of a transfer request that presents `proof`: it takes the sender's
    /// authorization, a sender who is admitted, and the expected proof.
    pub open spec fn transfer_outcome(self, from_authorized: bool, from: Seq<u8>, proof: Seq<u8>) -> Result<
        (),
        PiCoinError,
    > {
        if !from_authorized {
            Err(PiCoinError::Unauthorized)
        } else if !self.ledger.unwrap().admits(from) {
            Err(PiCoinError::InvalidSource)
        } else if proof != self.expected_proof() {
            Err(PiCoinError::Unauthorized)
        } else {
            Ok(())
        }
    }
}

proof fn lemma_tag_lengths()
    ensures
        anti_fraud_tag().len() == 33,
        provenance_tag().len() == 35,
{
    reveal_strlit("PiCoin-Ultimate-Hyper-Tech-Unique");
    reveal_strlit("PiCoin-Provenance-Quantum-Unmatched");
    vstd::utf8::is_ascii_chars_encode_utf8("PiCoin-Ultimate-Hyper-Tech-Unique"@);
    vstd::utf8::is_ascii_chars_encode_utf8("PiCoin-Provenance-Quantum-Unmatched"@);
}

fn low_byte_of(amount: i128) -> (byte: u8)
    ensures
        byte == low_byte(amount),
{
    let rem: i128 = amount % 256;
    let lifted: i128 = if rem < 0 {
        rem + 256
    } else {
        rem
    };
    lifted as u8
}

/// One deployment of the pegged ledger.
pub struct PiCoinContract {
    data: Option<PiCoinData>,
    zkp_base: Option<[u8; 32]>,
}

impl View for PiCoinContract {
    type V = ContractState;

    closed spec fn view(&self) -> ContractState {
        ContractState {
            ledger: match self.data {
                Some(data) => Some(data@),
                None => None,
            },
            zkp_base: match self.zkp_base {
                Some(base) => Some(base@),
                None => None,
            },
        }
    }
}

impl PiCoinContract {
    /// The record of every deployment is well formed: to have an entry in its provenance
    /// map is to be admitted.
    pub proof fn record_is_well_formed(&self)
        ensures
            self@.ledger matches Some(ledger) ==> ledger.well_formed(),
    {
        if let Some(data) = self.data {
            data.view_is_well_formed();
        }
    }

    /// A deployment before initialization, with no base registered.
    pub fn new() -> (contract: PiCoinContract)
        ensures
            contract@ == (ContractState { ledger: None, zkp_base: None }),
    {
        PiCoinContract { data: None, zkp_base: None }
    }

    /// Creates the ledger record: supply and peg fixed, no holder recorded, both integrity
    /// hashes taken over their fixed texts. Refused without the administrator's
    /// authorization, and on a deployment that has its record already.
    pub fn initialize(
        &mut self,
        admin_authorized: bool,
        collateral_asset: Identity,
        oracle: Identity,
        governance: Identity,
    ) -> (res: Result<(), PiCoinError>)
        ensures
            res == initialize_outcome(old(self)@.initialized(), admin_authorized),
            res is Ok ==> final(self)@ == old(self)@.with_ledger(
                LedgerState::initial(
                    collateral_asset@,
                    oracle@,
                    governance@,
                    sha256(anti_fraud_tag()),
                    sha256(provenance_tag()),
                ),
            ),
            res is Err ==> *final(self) == *old(self),
    {
        proof {
            lemma_tag_lengths();
        }
        let anti_fraud_hash = sha256_digest("PiCoin-Ultimate-Hyper-Tech-Unique".as_bytes());
        let provenance_hash = sha256_digest("PiCoin-Provenance-Quantum-Unmatched".as_bytes());
        self.initialize_with_hashes(
            admin_authorized,
            collateral_asset,
            oracle,
            governance,
            anti_fraud_hash,
            provenance_hash,
        )
    }

    /// Creates the ledger record on integrity hashes that were computed beforehand.
    pub fn initialize_with_hashes(
        &mut self,
        admin_authorized: bool,
        collateral_asset: Identity,
        oracle: Identity,
        governance: Identity,
        anti_fraud_hash: [u8; 32],
        provenance_hash: [u8; 32],
    ) -> (res: Result<(), PiCoinError>)
        ensures
            res == initialize_outcome(old(self)@.initialized(), admin_authorized),
            res is Ok ==> final(self)@ == old(self)@.with_ledger(
                LedgerState::initial(collateral_asset@, oracle@, governance@, anti_fraud_hash@, provenance_hash@),
            ),
            res is Err ==> *final(self) == *old(self),
    {
        if !admin_authorized {
            return Err(PiCoinError::Unauthorized);
        }
        if self.data.is_some() {
            return Err(PiCoinError::AlreadyInitialized);
        }
        self.data = Some(PiCoinData::new(collateral_asset, oracle, governance, anti_fraud_hash, provenance_hash));
        Ok(())
    }

    /// Credits `to` from `source` against the collateral posted for it: the source is
    /// recorded for `to`, and the provenance hash becomes the digest of the signed
    /// provenance assertion. A refused mint changes nothing.
    pub fn mint(
        &mut self,
        to: Identity,
        amount: i128,
        source: PiCoinSource,
        collateral_balance: i128,
        provenance_sig: &[u8; 64],
    ) -> (res: Result<(), PiCoinError>)
        requires
            old(self)@.initialized(),
        ensures
            res == mint_outcome(source, amount as int, collateral_balance as int),
            res is Ok ==> final(self)@ == old(self)@.with_ledger(
                old(self)@.ledger.unwrap().after_mint(to@, source, sha256(provenance_sig@)),
            ),
            res is Err ==> *final(self) == *old(self),
    {
        let provenance_hash = sha256_digest(provenance_sig.as_slice());
        self.mint_with_provenance_hash(to, amount, source, collateral_balance, provenance_hash)
    }

    /// Mints on a provenance hash that was computed beforehand.
    pub fn mint_with_provenance_hash(
        &mut self,
        to: Identity,
        amount: i128,
        source: PiCoinSource,
        collateral_balance: i128,
        provenance_hash: [u8; 32],
    ) -> (res: Result<(), PiCoinError>)
        requires
            old(self)@.initialized(),
        ensures
            res == mint_outcome(source, amount as int, collateral_balance as int),
            res is Ok ==> final(self)@ == old(self)@.with_ledger(
                old(self)@.ledger.unwrap().after_mint(to@, source, provenance_hash@),
            ),
            res is Err ==> *final(self) == *old(self),
    {
        if !source.is_accepted() {
            return Err(PiCoinError::InvalidSource);
        }
        if collateral_balance < amount {
            return Err(PiCoinError::InsufficientCollateral);
        }
        match &mut self.data {
            Some(data) => {
                data.record_mint(&to, source, provenance_hash);
            },
            None => {},
        }
        Ok(())
    }

    /// Moves value from `from` to `to`: `to` inherits the source of `from`. The proof of
    /// the transfer is the digest of the amount's lowest byte followed by 42, and has to
    /// equal the registered base. A refused transfer changes nothing.
    pub fn transfer(&mut self, from_authorized: bool, from: Identity, to: Identity, amount: i128) -> (res: Result<
        (),
        PiCoinError,
    >)
        requires
            old(self)@.initialized(),
        ensures
            res == old(self)@.transfer_outcome(from_authorized, from@, sha256(transfer_proof_input(amount))),
            res is Ok ==> final(self)@ == old(self)@.with_ledger(
                old(self)@.ledger.unwrap().after_transfer(from@, to@),
            ),
            res is Err ==> *final(self) == *old(self),
    {
        let proof = Self::transfer_proof(amount);
        self.transfer_with_proof(from_authorized, from, to, &proof)
    }

    /// The proof of a transfer of `amount`.
    pub fn transfer_proof(amount: i128) -> (proof: [u8; 32])
        ensures
            proof@ == sha256(transfer_proof_input(amount)),
    {
        let input: [u8; 2] = [low_byte_of(amount), 42];
        assert(input@ =~= transfer_proof_input(amount));
        sha256_digest(input.as_slice())
    }

    /// Transfers on a proof that was computed beforehand.
    pub fn transfer_with_proof(
        &mut self,
        from_authorized: bool,
        from: Identity,
        to: Identity,
        proof: &[u8; 32],
    ) -> (res: Result<(), PiCoinError>)
        requires
            old(self)@.initialized(),
        ensures
            res == old(self)@.transfer_outcome(from_authorized, from@, proof@),
            res is Ok ==> final(self)@ == old(self)@.with_ledger(
                old(self)@.ledger.unwrap().after_transfer(from@, to@),
            ),
            res is Err ==> *final(self) == *old(self),
    {
        if !from_authorized {
            return Err(PiCoinError::Unauthorized);
        }
        let expected: [u8; 32] = match self.zkp_base {
            Some(base) => base,
            None => [0u8; 32],
        };
        assert(expected@ =~= self@.expected_proof());
        match &mut self.data {
            Some(data) => {
                let source = data.source_of(&from);
                if !source.is_accepted() {
                    return Err(PiCoinError::InvalidSource);
                }
                if !bytes_equal(proof.as_slice(), expected.as_slice()) {
                    return Err(PiCoinError::Unauthorized);
                }
                data.record_source(&to, source);
            },
            None => {},
        }
        Ok(())
    }

    /// Checks the oracle's price for the pegged asset against the peg, for an admitted
    /// holder: `Ok(true)` within the tolerance, `PegDeviation` beyond it.
    pub fn verify_peg(&self, holder: Identity, oracle_price: i128) -> (res: Result<bool, PiCoinError>)
        requires
            self@.initialized(),
        ensures
            res == peg_outcome(self@.ledger.unwrap(), holder@, oracle_price as int),
    {
        if !self.verify_ecosystem_entry(holder) {
            return Err(PiCoinError::InvalidSource);
        }
        if oracle_price > PEG_VALUE + PEG_TOLERANCE || oracle_price < PEG_VALUE - PEG_TOLERANCE {
            return Err(PiCoinError::PegDeviation);
        }
        Ok(true)
    }

    /// Checks the peg for `holder` against the price that the oracle has stored for `PI`.
    pub fn verify_peg_with_oracle(&self, holder: Identity, oracle: &PiCoinOracle) -> (res: Result<bool, PiCoinError>)
        requires
            self@.initialized(),
            oracle@.initialized(),
            oracle@.oracle.unwrap().price_feed.contains_key(asset_key("PI")),
        ensures
            res == peg_outcome(
                self@.ledger.unwrap(),
                holder@,
                oracle@.oracle.unwrap().price_feed[asset_key("PI")] as int,
            ),
    {
        match oracle.query_price("PI") {
            Ok(oracle_price) => self.verify_peg(holder, oracle_price),
            Err(_) => Err(PiCoinError::PegDeviation),
        }
    }

    /// Accepts a vote on `proposal` from an authorized, admitted voter. Nothing is
    /// recorded: the vote is for the caller to sign and log.
    #[allow(unused_variables)]
    pub fn governance_vote(&self, voter_authorized: bool, voter: Identity, proposal: &str) -> (res: Result<
        (),
        PiCoinError,
    >)
        requires
            self@.initialized(),
        ensures
            res == vote_outcome(self@.ledger.unwrap(), voter_authorized, voter@),
    {
        if !voter_authorized {
            return Err(PiCoinError::Unauthorized);
        }
        if !self.verify_ecosystem_entry(voter) {
            return Err(PiCoinError::InvalidSource);
        }
        Ok(())
    }

    /// Whether the holder's provenance is set to an accepted source. Never an error.
    pub fn verify_ecosystem_entry(&self, holder: Identity) -> (admitted: bool)
        requires
            self@.initialized(),
        ensures
            admitted == self@.ledger.unwrap().admits(holder@),
    {
        match &self.data {
            Some(data) => data.source_of(&holder).is_accepted(),
            None => false,
        }
    }

    /// Registers the value that transfer proofs are held against.
    pub fn register_zkp_base(&mut self, base: [u8; 32])
        ensures
            final(self)@ == (ContractState { zkp_base: Some(base@), ..old(self)@ }),
    {
        self.zkp_base = Some(base);
    }

    /// The collateral that `user` has posted with the stand-in collateral service, which
    /// reports full backing for everyone.
    #[allow(unused_variables)]
    pub fn check_collateral(collateral: &Identity, user: &Identity) -> (balance: i128)
        ensures
            balance == FULL_BACKING,
    {
        FULL_BACKING
    }

    /// The price that the stand-in oracle quotes at a ledger time: the peg plus the time
    /// within its period of 1000.
    pub fn query_ai_oracle(timestamp: u64) -> (price: i128)
        ensures
            price == stand_in_quote(timestamp),
    {
        PEG_VALUE + ((timestamp % QUOTE_SPREAD) as i128)
    }

    /// Whether the ledger record exists.
    pub fn is_initialized(&self) -> (yes: bool)
        ensures
            yes == self@.initialized(),
    {
        self.data.is_some()
    }

    /// The ledger record, once initialized. No entry of its provenance map is `Invalid`.
    pub fn data(&self) -> (data: Option<&PiCoinData>)
        ensures
            data is Some == self@.initialized(),
            data matches Some(record) ==> self@.ledger == Some(record@) && record@.well_formed(),
    {
        let data = self.data.as_ref();
        proof {
            if let Some(record) = data {
                record.view_is_well_formed();
            }
        }
        data
    }

    /// The registered anti-forgery base, if there is one.
    pub fn zkp_base(&self) -> (base: Option<[u8; 32]>)
        ensures
            base is Some == self@.zkp_base is Some,
            base matches Some(bytes) ==> self@.zkp_base == Some(bytes@),
    {
        self.zkp_base
    }
}

} // verus!
