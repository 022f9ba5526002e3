//! The price oracle: a feed of last-known prices that only the administrator updates,
//! each update adjusted by the trend of the ledger's clock and held against an expected
//! proof before it is stored.
//!
//! Who has authorized a call, the ledger's time and sequence number, and the service's
//! signature are not decided here: each operation takes them as values.

use vstd::prelude::*;
use vstd::string::*;
use crate::host::{sha256, sha256_digest, table_entries, table_get, table_new, table_set, table_unmetered};
use crate::identity::{bytes_equal, Identity};

verus! {

/// The price around which aggregated observations are synthesized, in micro-units.
pub const BASE_PEG: i128 = 314_159_000_000;

/// What one step of the trend factor adds to a price.
pub const TREND_SCALE: i128 = 1_000;

/// The width of the band in which aggregated observations fall.
pub const AGGREGATE_SPREAD: u32 = 5_000;

/// Why an oracle operation was refused.
#[derive(Clone, Copy, Debug, PartialEq, Eq, Structural)]
pub enum OracleError {
    Unauthorized,
    InvalidData,
    ManipulationDetected,
    AlreadyInitialized,
}

impl OracleError {
    /// The number under which the error is reported outside the oracle.
    pub open spec fn number(self) -> u32 {
        match self {
            OracleError::Unauthorized => 1,
            OracleError::InvalidData => 2,
            OracleError::ManipulationDetected => 3,
            OracleError::AlreadyInitialized => 4,
        }
    }

    /// The number under which the error is reported outside the oracle.
    pub fn code(&self) -> (code: u32)
        ensures
            code == self.number(),
    {
        match self {
            OracleError::Unauthorized => 1,
            OracleError::InvalidData => 2,
            OracleError::ManipulationDetected => 3,
            OracleError::AlreadyInitialized => 4,
        }
    }
}

/// The trend factor at a ledger time: the tens digit of the time within its period of 100.
pub open spec fn trend_factor(timestamp: u64) -> int {
    ((timestamp % 100) / 10) as int
}

/// The price that is stored for a raw observation made at `timestamp`.
pub open spec fn adjusted_price(timestamp: u64, raw_price: i128) -> int {
    raw_price + trend_factor(timestamp) * TREND_SCALE
}

/// The observation that aggregation synthesizes at a ledger sequence number.
pub open spec fn aggregate_price(sequence: u32) -> int {
    BASE_PEG + sequence % AGGREGATE_SPREAD
}

/// The key under which an asset is kept in the price feed: the bytes of its name.
pub open spec fn asset_key(asset: &str) -> Seq<u8> {
    asset.spec_bytes()
}

/// Whether an asset's name can be kept as a key: a key's length is a `u32`.
pub open spec fn asset_fits(asset: &str) -> bool {
    asset_key(asset).len() <= u32::MAX
}

/// The text that names the deployed model version.
pub open spec fn model_tag() -> Seq<u8> {
    "PiCoin-AI-Model-Ultimate".spec_bytes()
}

/// The result of an initialization request: it takes the administrator's authorization,
/// and a deployment that has no record yet.
pub open spec fn initialize_outcome(initialized: bool, admin_authorized: bool) -> Result<(), OracleError> {
    if !admin_authorized {
        Err(OracleError::Unauthorized)
    } else if initialized {
        Err(OracleError::AlreadyInitialized)
    } else {
        Ok(())
    }
}

/// The oracle record as contracts speak of it. The administrator stands by its key, the
/// fingerprint and the signing key by their bytes, an asset by the bytes of its name.
pub struct OracleState {
    pub admin: Seq<u8>,
    pub price_feed: Map<Seq<u8>, i128>,
    pub ai_model_hash: Seq<u8>,
    pub quantum_key: Seq<u8>,
}

impl OracleState {
    /// The record that initialization creates: no asset has a price.
    pub open spec fn initial(admin: Seq<u8>, ai_model_hash: Seq<u8>, quantum_key: Seq<u8>) -> OracleState {
        OracleState { admin, price_feed: Map::empty(), ai_model_hash, quantum_key }
    }

    /// The record once `price` has been stored for the asset.
    pub open spec fn after_update(self, asset: Seq<u8>, price: i128) -> OracleState {
        OracleState { price_feed: self.price_feed.insert(asset, price), ..self }
    }

    /// The result of a price query: the stored price, or `InvalidData` for an asset
    /// without one.
    pub open spec fn query_outcome(self, asset: Seq<u8>) -> Result<i128, OracleError> {
        if self.price_feed.contains_key(asset) {
            Ok(self.price_feed[asset])
        } else {
            Err(OracleError::InvalidData)
        }
    }
}

/// What a deployment of the oracle holds: its record once initialized, and the registered
/// expected proof.
pub struct ServiceState {
    pub oracle: Option<OracleState>,
    pub zkp_proof: Option<Seq<u8>>,
}

impl ServiceState {
    /// Whether the oracle record exists.
    pub open spec fn initialized(self) -> bool {
        self.oracle is Some
    }

    /// The value the digest of an update's signature must equal: the registered proof, or
    /// 32 zero bytes while none is registered.
    pub open spec fn expected_proof(self) -> Seq<u8> {
        match self.zkp_proof {
            Some(proof) => proof,
            None => Seq::new(32, |i: int| 0u8),
        }
    }

    /// The same deployment with another oracle record.
    pub open spec fn with_oracle(self, oracle: OracleState) -> ServiceState {
        ServiceState { oracle: Some(oracle), ..self }
    }

    /// The result of an update request whose signature has the digest `proof`: it takes
    /// the authorization of the updater, who has to be the administrator, and the
    /// expected proof.
    pub open spec fn update_outcome(self, updater_authorized: bool, updater: Seq<u8>, proof: Seq<u8>) -> Result<
        (),
        OracleError,
    > {
        if !updater_authorized || updater != self.oracle.unwrap().admin {
            Err(OracleError::Unauthorized)
        } else if proof != self.expected_proof() {
            Err(OracleError::ManipulationDetected)
        } else {
            Ok(())
        }
    }
}

proof fn lemma_model_tag_len()
    ensures
        model_tag().len() == 24,
{
    reveal_strlit("PiCoin-AI-Model-Ultimate");
    vstd::utf8::is_ascii_chars_encode_utf8("PiCoin-AI-Model-Ultimate"@);
}

proof fn lemma_peg_asset_fits()
    ensures
        asset_fits("PI"),
{
    reveal_strlit("PI");
    vstd::utf8::is_ascii_chars_encode_utf8("PI"@);
}

/// The oracle record: administrator, price feed, model fingerprint and signing key.
pub struct OracleData {
    admin: Identity,
    price_feed: soroban_sdk::Map<soroban_sdk::Bytes, i128>,
    ai_model_hash: [u8; 32],
    quantum_key: [u8; 32],
}

impl View for OracleData {
    type V = OracleState;

    closed spec fn view(&self) -> OracleState {
        OracleState {
            admin: self.admin@,
            price_feed: table_entries(self.price_feed),
            ai_model_hash: self.ai_model_hash@,
            quantum_key: self.quantum_key@,
        }
    }
}

impl OracleData {
    /// The feed lives in a host without limit, and each of its keys has a length that is a
    /// `u32`.
    #[verifier::type_invariant]
    spec fn inv(self) -> bool {
        &&& table_unmetered(self.price_feed)
        &&& forall|asset: Seq<u8>| #[trigger]
            table_entries(self.price_feed).contains_key(asset) ==> asset.len() <= u32::MAX
    }

    /// A fresh record with an empty price feed, on a fingerprint that was computed
    /// beforehand.
    pub fn new(admin: Identity, ai_model_hash: [u8; 32], quantum_key: [u8; 32]) -> (data: OracleData)
        ensures
            data@ == OracleState::initial(admin@, ai_model_hash@, quantum_key@),
    {
        OracleData { admin, price_feed: table_new(), ai_model_hash, quantum_key }
    }

    /// The stored price of an asset, if it has one.
    pub fn price_of(&self, asset: &str) -> (price: Option<i128>)
        ensures
            self@.price_feed.contains_key(asset_key(asset)) ==> price == Some(self@.price_feed[asset_key(asset)]),
            !self@.price_feed.contains_key(asset_key(asset)) ==> price is None,
    {
        proof {
            use_type_invariant(self);
        }
        let key = asset.as_bytes();
        if key.len() > 0xFFFF_FFFF {
            return None;
        }
        table_get(&self.price_feed, key)
    }

    /// Stores `price` for the asset, in place of what was stored before.
    pub(crate) fn store_price(&mut self, asset: &str, price: i128)
        requires
            asset_fits(asset),
        ensures
            final(self)@ == old(self)@.after_update(asset_key(asset), price),
    {
        proof {
            use_type_invariant(&*self);
        }
        table_set(&mut self.price_feed, asset.as_bytes(), price);
    }

    /// The administrator, the only identity whose updates are taken.
    pub fn admin(&self) -> (admin: Identity)
        ensures
            admin@ == self@.admin,
    {
        self.admin
    }

    /// The fingerprint of the deployed model.
    pub fn ai_model_hash(&self) -> (hash: [u8; 32])
        ensures
            hash@ == self@.ai_model_hash,
    {
        self.ai_model_hash
    }

    /// The key under which the service signs.
    pub fn quantum_key(&self) -> (key: [u8; 32])
        ensures
            key@ == self@.quantum_key,
    {
        self.quantum_key
    }
}

/// One deployment of the price oracle.
pub struct PiCoinOracle {
    data: Option<OracleData>,
    zkp_proof: Option<[u8; 32]>,
}

impl View for PiCoinOracle {
    type V = ServiceState;

    closed spec fn view(&self) -> ServiceState {
        ServiceState {
            oracle: match self.data {
                Some(data) => Some(data@),
                None => None,
            },
            zkp_proof: match self.zkp_proof {
                Some(proof) => Some(proof@),
                None => None,
            },
        }
    }
}

impl PiCoinOracle {
    /// A deployment before initialization, with no expected proof registered.
    pub fn new() -> (oracle: PiCoinOracle)
        ensures
            oracle@ == (ServiceState { oracle: None, zkp_proof: None }),
    {
        PiCoinOracle { data: None, zkp_proof: None }
    }

    /// Creates the oracle record: an empty price feed, the fingerprint of the model
    /// version, and the signing key derived for the service. Refused without the
    /// administrator's authorization, and on a deployment that has its record already.
    pub fn initialize(&mut self, admin_authorized: bool, admin: Identity, quantum_key: [u8; 32]) -> (res: Result<
        (),
        OracleError,
    >)
        ensures
            res == initialize_outcome(old(self)@.initialized(), admin_authorized),
            res is Ok ==> final(self)@ == old(self)@.with_oracle(
                OracleState::initial(admin@, sha256(model_tag()), quantum_key@),
            ),
            res is Err ==> *final(self) == *old(self),
    {
        proof {
            lemma_model_tag_len();
        }
        let ai_model_hash = sha256_digest("PiCoin-AI-Model-Ultimate".as_bytes());
        self.initialize_with_hash(admin_authorized, admin, quantum_key, ai_model_hash)
    }

    /// Creates the oracle record on a model fingerprint that was computed beforehand.
    pub fn initialize_with_hash(
        &mut self,
        admin_authorized: bool,
        admin: Identity,
        quantum_key: [u8; 32],
        ai_model_hash: [u8; 32],
    ) -> (res: Result<(), OracleError>)
        ensures
            res == initialize_outcome(old(self)@.initialized(), admin_authorized),
            res is Ok ==> final(self)@ == old(self)@.with_oracle(
                OracleState::initial(admin@, ai_model_hash@, quantum_key@),
            ),
            res is Err ==> *final(self) == *old(self),
    {
        if !admin_authorized {
            return Err(OracleError::Unauthorized);
        }
        if self.data.is_some() {
            return Err(OracleError::AlreadyInitialized);
        }
        self.data = Some(OracleData::new(admin, ai_model_hash, quantum_key));
        Ok(())
    }

    /// Stores the adjusted price of an asset. The signature is the service's, over the
    /// adjusted price; the update is taken only if its digest equals the expected proof.
    /// A refused update changes nothing. Where the administrator itself updates, the
    /// adjusted price has to be a price still.
    pub fn update_price(
        &mut self,
        updater_authorized: bool,
        updater: Identity,
        asset: &str,
        raw_price: i128,
        timestamp: u64,
        signature: &[u8; 64],
    ) -> (res: Result<(), OracleError>)
        requires
            old(self)@.initialized(),
            asset_fits(asset),
            updater_authorized && updater@ == old(self)@.oracle.unwrap().admin ==> adjusted_price(
                timestamp,
                raw_price,
            ) <= i128::MAX,
        ensures
            res == old(self)@.update_outcome(updater_authorized, updater@, sha256(signature@)),
            res is Ok ==> final(self)@ == old(self)@.with_oracle(
                old(self)@.oracle.unwrap().after_update(
                    asset_key(asset),
                    adjusted_price(timestamp, raw_price) as i128,
                ),
            ),
            res is Err ==> *final(self) == *old(self),
    {
        let proof = sha256_digest(signature.as_slice());
        self.update_price_with_proof(updater_authorized, updater, asset, raw_price, timestamp, &proof)
    }

    /// Updates on a signature digest that was computed beforehand.
    pub fn update_price_with_proof(
        &mut self,
        updater_authorized: bool,
        updater: Identity,
        asset: &str,
        raw_price: i128,
        timestamp: u64,
        proof: &[u8; 32],
    ) -> (res: Result<(), OracleError>)
        requires
            old(self)@.initialized(),
            asset_fits(asset),
            updater_authorized && updater@ == old(self)@.oracle.unwrap().admin ==> adjusted_price(
                timestamp,
                raw_price,
            ) <= i128::MAX,
        ensures
            res == old(self)@.update_outcome(updater_authorized, updater@, proof@),
            res is Ok ==> final(self)@ == old(self)@.with_oracle(
                old(self)@.oracle.unwrap().after_update(
                    asset_key(asset),
                    adjusted_price(timestamp, raw_price) as i128,
                ),
            ),
            res is Err ==> *final(self) == *old(self),
    {
        if !updater_authorized {
            return Err(OracleError::Unauthorized);
        }
        let genuine = self.matches_expected(proof);
        match &mut self.data {
            Some(data) => {
                if !updater.same_as(&data.admin) {
                    return Err(OracleError::Unauthorized);
                }
                let price: i128 = Self::ai_predict_price(timestamp, raw_price);
                if !genuine {
                    return Err(OracleError::ManipulationDetected);
                }
                data.store_price(asset, price);
            },
            None => {},
        }
        Ok(())
    }

    /// The last stored price of an asset; `InvalidData` for an asset that was never
    /// updated.
    pub fn query_price(&self, asset: &str) -> (res: Result<i128, OracleError>)
        requires
            self@.initialized(),
        ensures
            res == self@.oracle.unwrap().query_outcome(asset_key(asset)),
    {
        match &self.data {
            Some(data) => match data.price_of(asset) {
                Some(price) => Ok(price),
                None => Err(OracleError::InvalidData),
            },
            None => Err(OracleError::InvalidData),
        }
    }

    /// Synthesizes an observation for `PI` from the ledger sequence number and stores it as
    /// an update made by the service itself, which therefore has to be the administrator.
    pub fn aggregate_global_data(
        &mut self,
        service_authorized: bool,
        service: Identity,
        sequence: u32,
        timestamp: u64,
        signature: &[u8; 64],
    ) -> (res: Result<(), OracleError>)
        requires
            old(self)@.initialized(),
        ensures
            res == old(self)@.update_outcome(service_authorized, service@, sha256(signature@)),
            res is Ok ==> final(self)@ == old(self)@.with_oracle(
                old(self)@.oracle.unwrap().after_update(
                    asset_key("PI"),
                    adjusted_price(timestamp, aggregate_price(sequence) as i128) as i128,
                ),
            ),
            res is Err ==> *final(self) == *old(self),
    {
        proof {
            lemma_peg_asset_fits();
        }
        let global_avg: i128 = Self::global_average(sequence);
        self.update_price(service_authorized, service, "PI", global_avg, timestamp, signature)
    }

    /// Adjusts a raw observation by the trend at the given ledger time.
    pub fn ai_predict_price(timestamp: u64, raw_price: i128) -> (price: i128)
        requires
            adjusted_price(timestamp, raw_price) <= i128::MAX,
        ensures
            price == adjusted_price(timestamp, raw_price),
    {
        let trend: u64 = (timestamp % 100) / 10;
        raw_price + (trend as i128) * TREND_SCALE
    }

    /// Whether the adjusted price of a raw observation is still a price, so that the
    /// observation can be handed to `ai_predict_price` and `update_price`.
    pub fn can_adjust(timestamp: u64, raw_price: i128) -> (yes: bool)
        ensures
            yes == (adjusted_price(timestamp, raw_price) <= i128::MAX),
    {
        let trend: u64 = (timestamp % 100) / 10;
        raw_price <= i128::MAX - (trend as i128) * TREND_SCALE
    }

    /// Whether an asset's name can be kept as a key, so that it can be handed to
    /// `update_price`.
    pub fn asset_name_fits(asset: &str) -> (yes: bool)
        ensures
            yes == asset_fits(asset),
    {
        asset.as_bytes().len() <= 0xFFFF_FFFF
    }

    /// The observation that aggregation synthesizes at a ledger sequence number: the base
    /// peg plus the sequence number within its period of 5000.
    pub fn global_average(sequence: u32) -> (price: i128)
        ensures
            price == aggregate_price(sequence),
    {
        BASE_PEG + ((sequence % AGGREGATE_SPREAD) as i128)
    }

    /// Whether the digest of the signature equals the expected proof.
    pub fn verify_zkp_proof(&self, signature: &[u8; 64]) -> (genuine: bool)
        ensures
            genuine == (sha256(signature@) == self@.expected_proof()),
    {
        let proof = sha256_digest(signature.as_slice());
        self.matches_expected(&proof)
    }

    /// Whether a digest that was computed beforehand equals the expected proof.
    pub fn matches_expected(&self, proof: &[u8; 32]) -> (genuine: bool)
        ensures
            genuine == (proof@ == self@.expected_proof()),
    {
        let expected: [u8; 32] = match self.zkp_proof {
            Some(registered) => registered,
            None => [0u8; 32],
        };
        assert(expected@ =~= self@.expected_proof());
        bytes_equal(proof.as_slice(), expected.as_slice())
    }

    /// Registers the value that the digests of update signatures are held against.
    pub fn register_zkp_proof(&mut self, proof: [u8; 32])
        ensures
            final(self)@ == (ServiceState { zkp_proof: Some(proof@), ..old(self)@ }),
    {
        self.zkp_proof = Some(proof);
    }

    /// Whether the oracle record exists.
    pub fn is_initialized(&self) -> (yes: bool)
        ensures
            yes == self@.initialized(),
    {
        self.data.is_some()
    }

    /// The oracle record, once initialized.
    pub fn data(&self) -> (data: Option<&OracleData>)
        ensures
            data is Some == self@.initialized(),
            data matches Some(record) ==> self@.oracle == Some(record@),
    {
        self.data.as_ref()
    }

    /// The registered expected proof, if there is one.
    pub fn zkp_proof(&self) -> (proof: Option<[u8; 32]>)
        ensures
            proof is Some == self@.zkp_proof is Some,
            proof matches Some(bytes) ==> self@.zkp_proof == Some(bytes@),
    {
        self.zkp_proof
    }
}

} // verus!
