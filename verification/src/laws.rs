//! What holds of the ledger and the oracle whatever they are asked, stated over the same
//! outcomes and records that the operations' contracts speak of.

use vstd::prelude::*;
use crate::ledger::{mint_outcome, peg_deviation, peg_outcome, vote_outcome, ContractState, PiCoinError, PEG_TOLERANCE};
use crate::record::{LedgerState, PiCoinSource, PEG_VALUE};
use crate::oracle::{
    adjusted_price, aggregate_price, asset_key, trend_factor, OracleError, OracleState, ServiceState,
};

verus! {

/// A mint from a source other than Mining, Rewards and P2P is refused as `InvalidSource`,
/// whatever the amount and the collateral.
pub proof fn mint_refuses_unaccepted_source(source: PiCoinSource, amount: int, collateral_balance: int)
    requires
        source != PiCoinSource::Mining,
        source != PiCoinSource::Rewards,
        source != PiCoinSource::P2P,
    ensures
        mint_outcome(source, amount, collateral_balance) == Err::<(), PiCoinError>(PiCoinError::InvalidSource),
{
}

/// A mint succeeds exactly when the source is accepted and the collateral covers the amount.
pub proof fn mint_succeeds_when_backed(source: PiCoinSource, amount: int, collateral_balance: int)
    ensures
        mint_outcome(source, amount, collateral_balance) is Ok <==> source.accepted() && collateral_balance >= amount,
        mint_outcome(source, amount, collateral_balance) == Err::<(), PiCoinError>(
            PiCoinError::InsufficientCollateral,
        ) <==> source.accepted() && collateral_balance < amount,
{
}

/// After a successful mint the holder's recorded source is the one supplied, and the holder
/// passes the entry check.
pub proof fn mint_records_source(
    ledger: LedgerState,
    to: Seq<u8>,
    amount: int,
    source: PiCoinSource,
    collateral_balance: int,
    provenance_hash: Seq<u8>,
)
    requires
        mint_outcome(source, amount, collateral_balance) is Ok,
    ensures
        ledger.after_mint(to, source, provenance_hash).source_of(to) == source,
        ledger.after_mint(to, source, provenance_hash).admits(to),
{
}

/// A mint touches the entry of nobody but the holder it credits.
pub proof fn mint_leaves_others(
    ledger: LedgerState,
    to: Seq<u8>,
    source: PiCoinSource,
    provenance_hash: Seq<u8>,
    other: Seq<u8>,
)
    requires
        other != to,
    ensures
        ledger.after_mint(to, source, provenance_hash).source_of(other) == ledger.source_of(other),
{
}

/// A holder without recorded provenance is refused as `InvalidSource` by an authorized
/// transfer, by the peg check and by an authorized vote, and fails the entry check.
pub proof fn unset_holder_is_excluded(state: ContractState, holder: Seq<u8>, proof: Seq<u8>, oracle_price: int)
    requires
        state.initialized(),
        !state.ledger.unwrap().provenance.contains_key(holder),
    ensures
        state.transfer_outcome(true, holder, proof) == Err::<(), PiCoinError>(PiCoinError::InvalidSource),
        peg_outcome(state.ledger.unwrap(), holder, oracle_price) == Err::<bool, PiCoinError>(
            PiCoinError::InvalidSource,
        ),
        vote_outcome(state.ledger.unwrap(), true, holder) == Err::<(), PiCoinError>(PiCoinError::InvalidSource),
        !state.ledger.unwrap().admits(holder),
{
}

/// Whoever acts without authorization is refused as `Unauthorized`, whatever the ledger
/// holds.
pub proof fn unauthorized_actor_is_refused(state: ContractState, actor: Seq<u8>, proof: Seq<u8>)
    requires
        state.initialized(),
    ensures
        state.transfer_outcome(false, actor, proof) == Err::<(), PiCoinError>(PiCoinError::Unauthorized),
        vote_outcome(state.ledger.unwrap(), false, actor) == Err::<(), PiCoinError>(PiCoinError::Unauthorized),
{
}

/// After a successful transfer the recipient's source is the sender's.
pub proof fn transfer_inherits_source(
    state: ContractState,
    from_authorized: bool,
    from: Seq<u8>,
    to: Seq<u8>,
    proof: Seq<u8>,
)
    requires
        state.initialized(),
        state.transfer_outcome(from_authorized, from, proof) is Ok,
    ensures
        state.ledger.unwrap().source_of(from).accepted(),
        state.ledger.unwrap().after_transfer(from, to).source_of(to) == state.ledger.unwrap().source_of(from),
        state.ledger.unwrap().after_transfer(from, to).admits(to),
{
}

/// A transfer is taken exactly when the sender is authorized and admitted and the proof
/// equals the expected one.
pub proof fn transfer_succeeds_on_matching_proof(
    state: ContractState,
    from_authorized: bool,
    from: Seq<u8>,
    proof: Seq<u8>,
)
    requires
        state.initialized(),
    ensures
        state.transfer_outcome(from_authorized, from, proof) is Ok <==> from_authorized
            && state.ledger.unwrap().admits(from) && proof == state.expected_proof(),
{
}

/// The peg check passes exactly when the holder is admitted and the price is within
/// tolerance of the peg, and reports `PegDeviation` exactly when an admitted holder's
/// price is beyond it.
pub proof fn peg_check_within_tolerance(ledger: LedgerState, holder: Seq<u8>, oracle_price: int)
    requires
        ledger.admits(holder),
    ensures
        peg_outcome(ledger, holder, oracle_price) == Ok::<bool, PiCoinError>(true) <==> peg_deviation(oracle_price)
            <= PEG_TOLERANCE,
        peg_outcome(ledger, holder, oracle_price) == Err::<bool, PiCoinError>(PiCoinError::PegDeviation)
            <==> peg_deviation(oracle_price) > PEG_TOLERANCE,
        peg_deviation(oracle_price) <= PEG_TOLERANCE <==> PEG_VALUE - PEG_TOLERANCE <= oracle_price <= PEG_VALUE
            + PEG_TOLERANCE,
{
}

/// Once the price of `PI` has been updated, the peg check of an admitted holder against
/// the oracle passes exactly when the adjusted price is within tolerance of the peg.
pub proof fn peg_check_follows_update(
    ledger: LedgerState,
    holder: Seq<u8>,
    oracle: OracleState,
    timestamp: u64,
    raw_price: i128,
)
    requires
        ledger.admits(holder),
        adjusted_price(timestamp, raw_price) <= i128::MAX,
    ensures
        oracle.after_update(asset_key("PI"), adjusted_price(timestamp, raw_price) as i128).query_outcome(
            asset_key("PI"),
        ) == Ok::<i128, OracleError>(adjusted_price(timestamp, raw_price) as i128),
        peg_outcome(ledger, holder, adjusted_price(timestamp, raw_price)) == Ok::<bool, PiCoinError>(true)
            <==> peg_deviation(adjusted_price(timestamp, raw_price)) <= PEG_TOLERANCE,
{
}

/// The peg check never answers `Ok(false)`.
pub proof fn peg_check_never_denies_quietly(ledger: LedgerState, holder: Seq<u8>, oracle_price: int)
    ensures
        peg_outcome(ledger, holder, oracle_price) != Ok::<bool, PiCoinError>(false),
{
}

/// No mint and no transfer that succeeds takes an admitted holder's provenance away.
pub proof fn provenance_is_never_unset(
    state: ContractState,
    holder: Seq<u8>,
    to: Seq<u8>,
    source: PiCoinSource,
    provenance_hash: Seq<u8>,
    from_authorized: bool,
    from: Seq<u8>,
    proof: Seq<u8>,
)
    requires
        state.initialized(),
        state.ledger.unwrap().admits(holder),
    ensures
        source.accepted() ==> state.ledger.unwrap().after_mint(to, source, provenance_hash).admits(holder),
        state.transfer_outcome(from_authorized, from, proof) is Ok ==> state.ledger.unwrap().after_transfer(
            from,
            to,
        ).admits(holder),
{
}

/// A record without holders is well formed, and every mint and transfer that succeeds
/// keeps it so.
pub proof fn well_formed_is_kept(
    ledger: LedgerState,
    to: Seq<u8>,
    source: PiCoinSource,
    provenance_hash: Seq<u8>,
    from: Seq<u8>,
)
    requires
        ledger.well_formed(),
    ensures
        LedgerState::initial(
            ledger.collateral_asset,
            ledger.oracle_address,
            ledger.governance_address,
            ledger.anti_fraud_hash,
            ledger.provenance_hash,
        ).well_formed(),
        source.accepted() ==> ledger.after_mint(to, source, provenance_hash).well_formed(),
        ledger.admits(from) ==> ledger.after_transfer(from, to).well_formed(),
{
}

/// Mints and transfers leave the parameters fixed at initialization as they were.
pub proof fn parameters_are_fixed(
    ledger: LedgerState,
    to: Seq<u8>,
    source: PiCoinSource,
    provenance_hash: Seq<u8>,
    from: Seq<u8>,
)
    ensures
        ledger.after_mint(to, source, provenance_hash).collateral_asset == ledger.collateral_asset,
        ledger.after_mint(to, source, provenance_hash).oracle_address == ledger.oracle_address,
        ledger.after_mint(to, source, provenance_hash).governance_address == ledger.governance_address,
        ledger.after_mint(to, source, provenance_hash).anti_fraud_hash == ledger.anti_fraud_hash,
        ledger.after_transfer(from, to).collateral_asset == ledger.collateral_asset,
        ledger.after_transfer(from, to).oracle_address == ledger.oracle_address,
        ledger.after_transfer(from, to).governance_address == ledger.governance_address,
        ledger.after_transfer(from, to).anti_fraud_hash == ledger.anti_fraud_hash,
        ledger.after_transfer(from, to).provenance_hash == ledger.provenance_hash,
{
}

/// Two entry checks of one holder on one ledger agree, and so do two price queries of one
/// asset on one oracle: an answer depends on nothing but the record and the question.
pub proof fn queries_repeat(
    ledger: LedgerState,
    holder: Seq<u8>,
    first_entry: bool,
    second_entry: bool,
    oracle: OracleState,
    asset: Seq<u8>,
    first_price: Result<i128, OracleError>,
    second_price: Result<i128, OracleError>,
)
    requires
        first_entry == ledger.admits(holder),
        second_entry == ledger.admits(holder),
        first_price == oracle.query_outcome(asset),
        second_price == oracle.query_outcome(asset),
    ensures
        first_entry == second_entry,
        first_price == second_price,
{
}

/// A price query answers with the price last stored for the asset, and with `InvalidData`
/// for an asset that was never updated.
pub proof fn query_returns_last_update(oracle: OracleState, asset: Seq<u8>, price: i128, other: Seq<u8>)
    requires
        other != asset,
    ensures
        oracle.after_update(asset, price).query_outcome(asset) == Ok::<i128, OracleError>(price),
        oracle.after_update(asset, price).query_outcome(other) == oracle.query_outcome(other),
        !oracle.price_feed.contains_key(asset) ==> oracle.query_outcome(asset) == Err::<i128, OracleError>(
            OracleError::InvalidData,
        ),
{
}

/// An update leaves the administrator, the model fingerprint and the signing key as they
/// were.
pub proof fn update_keeps_identity(oracle: OracleState, asset: Seq<u8>, price: i128)
    ensures
        oracle.after_update(asset, price).admin == oracle.admin,
        oracle.after_update(asset, price).ai_model_hash == oracle.ai_model_hash,
        oracle.after_update(asset, price).quantum_key == oracle.quantum_key,
{
}

/// An update is taken only from the authorized administrator, and then exactly when the
/// digest of its signature equals the expected proof.
pub proof fn update_needs_administrator(
    state: ServiceState,
    updater_authorized: bool,
    updater: Seq<u8>,
    proof: Seq<u8>,
)
    requires
        state.initialized(),
    ensures
        state.update_outcome(updater_authorized, updater, proof) is Ok <==> updater_authorized && updater
            == state.oracle.unwrap().admin && proof == state.expected_proof(),
        state.update_outcome(updater_authorized, updater, proof) == Err::<(), OracleError>(
            OracleError::ManipulationDetected,
        ) <==> updater_authorized && updater == state.oracle.unwrap().admin && proof != state.expected_proof(),
{
}

/// The trend factor lies between 0 and 9 and repeats with period 100, so an adjusted price
/// is never below the raw one and at most 9000 above it.
pub proof fn trend_is_bounded(timestamp: u64, raw_price: i128)
    ensures
        0 <= trend_factor(timestamp) <= 9,
        timestamp <= u64::MAX - 100 ==> trend_factor((timestamp + 100) as u64) == trend_factor(timestamp),
        raw_price <= adjusted_price(timestamp, raw_price) <= raw_price + 9000,
{
}

/// An aggregated observation lies in the band of width 5000 above the base peg.
pub proof fn aggregate_is_banded(sequence: u32)
    ensures
        314_159_000_000 <= aggregate_price(sequence) < 314_159_005_000,
{
}

} // verus!
