//! The ledger record: the parameters fixed at initialization, and the provenance of every
//! holder, kept in a host table under the holder's key.

use vstd::prelude::*;
use crate::host::{table_entries, table_get, table_new, table_set, table_unmetered};
use crate::identity::Identity;

verus! {

/// Units of the asset that exist, fixed for the life of the ledger.
pub const TOTAL_SUPPLY: i128 = 100_000_000_000;

/// The price the asset is pegged to, in micro-units.
pub const PEG_VALUE: i128 = 314_159_000_000;

/// The category through which a holder's first credited value entered circulation.
#[derive(Clone, Copy, Debug, PartialEq, Eq, Structural)]
pub enum PiCoinSource {
    Mining,
    Rewards,
    P2P,
    /// No accepted origin: what a holder without an entry has.
    Invalid,
}

impl PiCoinSource {
    /// Whether the category admits a holder to the ecosystem: every one but `Invalid`.
    pub open spec fn accepted(self) -> bool {
        self != PiCoinSource::Invalid
    }

    /// The number under which an accepted category is kept in the provenance table.
    pub open spec fn code(self) -> i128 {
        match self {
            PiCoinSource::Mining => 1,
            PiCoinSource::Rewards => 2,
            PiCoinSource::P2P => 3,
            PiCoinSource::Invalid => 0,
        }
    }

    /// The category that a number in the provenance table stands for.
    pub open spec fn of_code(code: i128) -> PiCoinSource {
        if code == 1 {
            PiCoinSource::Mining
        } else if code == 2 {
            PiCoinSource::Rewards
        } else if code == 3 {
            PiCoinSource::P2P
        } else {
            PiCoinSource::Invalid
        }
    }

    /// Whether the category is one of Mining, Rewards and P2P.
    pub fn is_accepted(&self) -> (yes: bool)
        ensures
            yes == self.accepted(),
    {
        match self {
            PiCoinSource::Invalid => false,
            _ => true,
        }
    }

    fn to_code(&self) -> (code: i128)
        ensures
            code == self.code(),
    {
        match self {
            PiCoinSource::Mining => 1,
            PiCoinSource::Rewards => 2,
            PiCoinSource::P2P => 3,
            PiCoinSource::Invalid => 0,
        }
    }

    fn from_code(code: i128) -> (source: PiCoinSource)
        ensures
            source == PiCoinSource::of_code(code),
    {
        if code == 1 {
            PiCoinSource::Mining
        } else if code == 2 {
            PiCoinSource::Rewards
        } else if code == 3 {
            PiCoinSource::P2P
        } else {
            PiCoinSource::Invalid
        }
    }
}

/// The ledger record as contracts speak of it. Identities stand by their keys, hashes by
/// their bytes. Supply, peg and symbol are the same in every record and have no field.
pub struct LedgerState {
    pub collateral_asset: Seq<u8>,
    pub oracle_address: Seq<u8>,
    pub governance_address: Seq<u8>,
    pub anti_fraud_hash: Seq<u8>,
    pub provenance: Map<Seq<u8>, PiCoinSource>,
    pub provenance_hash: Seq<u8>,
}

impl LedgerState {
    /// The record that initialization creates: no holder has an entry.
    pub open spec fn initial(
        collateral_asset: Seq<u8>,
        oracle: Seq<u8>,
        governance: Seq<u8>,
        anti_fraud_hash: Seq<u8>,
        provenance_hash: Seq<u8>,
    ) -> LedgerState {
        LedgerState {
            collateral_asset,
            oracle_address: oracle,
            governance_address: governance,
            anti_fraud_hash,
            provenance: Map::empty(),
            provenance_hash,
        }
    }

    /// The recorded source of a holder; `Invalid` for one without an entry.
    pub open spec fn source_of(self, holder: Seq<u8>) -> PiCoinSource {
        if self.provenance.contains_key(holder) {
            self.provenance[holder]
        } else {
            PiCoinSource::Invalid
        }
    }

    /// Whether the holder has passed the entry gate.
    pub open spec fn admits(self, holder: Seq<u8>) -> bool {
        self.source_of(holder).accepted()
    }

    /// No entry of the provenance map holds `Invalid`: to have an entry is to be admitted.
    pub open spec fn well_formed(self) -> bool {
        forall|holder: Seq<u8>|
            self.provenance.contains_key(holder) ==> (#[trigger] self.provenance[holder]).accepted()
    }

    /// The record once `to` has been credited from `source` and the provenance hash renewed.
    pub open spec fn after_mint(self, to: Seq<u8>, source: PiCoinSource, provenance_hash: Seq<u8>) -> LedgerState {
        LedgerState { provenance: self.provenance.insert(to, source), provenance_hash, ..self }
    }

    /// The record once `to` has inherited the source of `from`.
    pub open spec fn after_transfer(self, from: Seq<u8>, to: Seq<u8>) -> LedgerState {
        LedgerState { provenance: self.provenance.insert(to, self.source_of(from)), ..self }
    }
}

/// The ledger record: fixed parameters and the provenance of every holder.
pub struct PiCoinData {
    symbol: String,
    total_supply: i128,
    peg_value: i128,
    collateral_asset: Identity,
    oracle_address: Identity,
    governance_address: Identity,
    anti_fraud_hash: [u8; 32],
    provenance: soroban_sdk::Map<soroban_sdk::Bytes, i128>,
    quantum_provenance_hash: [u8; 32],
}

impl View for PiCoinData {
    type V = LedgerState;

    closed spec fn view(&self) -> LedgerState {
        LedgerState {
            collateral_asset: self.collateral_asset@,
            oracle_address: self.oracle_address@,
            governance_address: self.governance_address@,
            anti_fraud_hash: self.anti_fraud_hash@,
            provenance: Map::new(
                |holder: Seq<u8>|
                    table_entries(self.provenance).contains_key(holder) && PiCoinSource::of_code(
                        table_entries(self.provenance)[holder],
                    ).accepted(),
                |holder: Seq<u8>| PiCoinSource::of_code(table_entries(self.provenance)[holder]),
            ),
            provenance_hash: self.quantum_provenance_hash@,
        }
    }
}

impl PiCoinData {
    /// Symbol, supply and peg are the fixed ones, and the provenance table lives in a host
    /// without limit.
    #[verifier::type_invariant]
    spec fn inv(self) -> bool {
        &&& self.symbol@ == "PI"@
        &&& self.total_supply == TOTAL_SUPPLY
        &&& self.peg_value == PEG_VALUE
        &&& table_unmetered(self.provenance)
    }

    /// Every record is well formed: its provenance map has an entry only where the table
    /// holds the number of an accepted category.
    pub proof fn view_is_well_formed(&self)
        ensures
            self@.well_formed(),
    {
    }

    /// A fresh record with no holder in it, on hashes that were computed beforehand.
    pub fn new(
        collateral_asset: Identity,
        oracle: Identity,
        governance: Identity,
        anti_fraud_hash: [u8; 32],
        provenance_hash: [u8; 32],
    ) -> (data: PiCoinData)
        ensures
            data@ == LedgerState::initial(
                collateral_asset@,
                oracle@,
                governance@,
                anti_fraud_hash@,
                provenance_hash@,
            ),
    {
        let data = PiCoinData {
            symbol: "PI".to_owned(),
            total_supply: TOTAL_SUPPLY,
            peg_value: PEG_VALUE,
            collateral_asset,
            oracle_address: oracle,
            governance_address: governance,
            anti_fraud_hash,
            provenance: table_new(),
            quantum_provenance_hash: provenance_hash,
        };
        assert(data@.provenance =~= Map::empty());
        data
    }

    /// The recorded source of a holder; `Invalid` for one without an entry, and for no
    /// other.
    pub fn source_of(&self, holder: &Identity) -> (source: PiCoinSource)
        ensures
            source == self@.source_of(holder@),
            source.accepted() == self@.provenance.contains_key(holder@),
    {
        proof {
            use_type_invariant(self);
        }
        match table_get(&self.provenance, holder.key.as_slice()) {
            Some(code) => PiCoinSource::from_code(code),
            None => PiCoinSource::Invalid,
        }
    }

    /// Records `source` for `holder`, in place of what was recorded before.
    pub(crate) fn record_source(&mut self, holder: &Identity, source: PiCoinSource)
        requires
            source.accepted(),
        ensures
            final(self)@ == (LedgerState {
                provenance: old(self)@.provenance.insert(holder@, source),
                ..old(self)@
            }),
    {
        proof {
            use_type_invariant(&*self);
        }
        table_set(&mut self.provenance, holder.key.as_slice(), source.to_code());
        assert(self@.provenance =~= old(self)@.provenance.insert(holder@, source));
    }

    /// Records `source` for `to` and renews the provenance hash.
    pub(crate) fn record_mint(&mut self, to: &Identity, source: PiCoinSource, provenance_hash: [u8; 32])
        requires
            source.accepted(),
        ensures
            final(self)@ == old(self)@.after_mint(to@, source, provenance_hash@),
    {
        proof {
            use_type_invariant(&*self);
        }
        table_set(&mut self.provenance, to.key.as_slice(), source.to_code());
        self.quantum_provenance_hash = provenance_hash;
        assert(self@.provenance =~= old(self)@.provenance.insert(to@, source));
    }

    /// The asset's symbol, `PI`.
    pub fn symbol(&self) -> (symbol: &str)
        ensures
            symbol@ == "PI"@,
    {
        proof {
            use_type_invariant(self);
        }
        self.symbol.as_str()
    }

    /// The fixed supply.
    pub fn total_supply(&self) -> (supply: i128)
        ensures
            supply == TOTAL_SUPPLY,
    {
        proof {
            use_type_invariant(self);
        }
        self.total_supply
    }

    /// The fixed peg.
    pub fn peg_value(&self) -> (peg: i128)
        ensures
            peg == PEG_VALUE,
    {
        proof {
            use_type_invariant(self);
        }
        self.peg_value
    }

    /// The collateral service that backs the asset.
    pub fn collateral_asset(&self) -> (collateral: Identity)
        ensures
            collateral@ == self@.collateral_asset,
    {
        self.collateral_asset
    }

    /// The oracle whose price the peg is held against.
    pub fn oracle_address(&self) -> (oracle: Identity)
        ensures
            oracle@ == self@.oracle_address,
    {
        self.oracle_address
    }

    /// The governance body.
    pub fn governance_address(&self) -> (governance: Identity)
        ensures
            governance@ == self@.governance_address,
    {
        self.governance_address
    }

    /// The tamper-evidence anchor fixed at initialization.
    pub fn anti_fraud_hash(&self) -> (hash: [u8; 32])
        ensures
            hash@ == self@.anti_fraud_hash,
    {
        self.anti_fraud_hash
    }

    /// The digest of the latest signed provenance assertion.
    pub fn quantum_provenance_hash(&self) -> (hash: [u8; 32])
        ensures
            hash@ == self@.provenance_hash,
    {
        self.quantum_provenance_hash
    }
}

} // verus!
