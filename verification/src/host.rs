//! The boundary to the Soroban host: hashing, and the host's ordered map as the table
//! behind the price feed and the provenance ledger. Nothing in this file is proved; the
//! rest of the crate is proved from what is stated here.

use vstd::prelude::*;

verus! {

/// `soroban_sdk::Map`, the host's ordered key-value dictionary. A value is a handle into
/// the host that made it.
#[verifier::external_type_specification]
#[verifier::external_body]
#[verifier::reject_recursive_types(K)]
#[verifier::reject_recursive_types(V)]
pub struct ExHostMap<K, V>(soroban_sdk::Map<K, V>);

/// `soroban_sdk::Bytes`, a byte string held by the host.
#[verifier::external_type_specification]
#[verifier::external_body]
pub struct ExHostBytes(soroban_sdk::Bytes);

/// What a table holds: for every key that is a byte string and whose value is a 128-bit
/// signed integer, that value. A host map has at most one entry per key.
pub uninterp spec fn table_entries(table: soroban_sdk::Map<soroban_sdk::Bytes, i128>) -> Map<Seq<u8>, i128>;

/// Whether a table lives in a host that computes without limit. A call on such a table
/// cannot run out of budget, which is what makes a host call fail.
pub uninterp spec fn table_unmetered(table: soroban_sdk::Map<soroban_sdk::Bytes, i128>) -> bool;

/// The SHA-256 digest of a byte string, as `soroban_sdk::crypto::Crypto::sha256` computes
/// it.
pub uninterp spec fn sha256(data: Seq<u8>) -> Seq<u8>;

/// Calls `soroban_sdk::Map::new` in a host of the table's own, made without a limit on
/// what it may compute and without a snapshot at its end. Claimed: the new table holds
/// nothing, and lives in a host without limit.
#[verifier::external_body]
pub(crate) fn table_new() -> (table: soroban_sdk::Map<soroban_sdk::Bytes, i128>)
    ensures
        table_entries(table) =~= Map::empty(),
        table_unmetered(table),
{
    let config = soroban_sdk::testutils::EnvTestConfig { capture_snapshot_at_drop: false };
    let env = soroban_sdk::Env::new_with_config(config);
    env.cost_estimate().budget().reset_unlimited();
    soroban_sdk::Map::new(&env)
}

/// Calls `soroban_sdk::Map::try_get` with the key as a host byte string. Claimed: the
/// value under the key, or `None` where the table has none; an entry whose value is no
/// 128-bit integer counts as none, here as in `table_entries`. The key has to fit a host
/// byte string, whose length is a `u32`, and the table's host has to be without limit.
#[verifier::external_body]
pub(crate) fn table_get(table: &soroban_sdk::Map<soroban_sdk::Bytes, i128>, key: &[u8]) -> (value: Option<i128>)
    requires
        table_unmetered(*table),
        key@.len() <= u32::MAX,
    ensures
        table_entries(*table).contains_key(key@) ==> value == Some(table_entries(*table)[key@]),
        !table_entries(*table).contains_key(key@) ==> value is None,
{
    match table.try_get(soroban_sdk::Bytes::from_slice(table.env(), key)) {
        Ok(found) => found,
        Err(_) => None,
    }
}

/// Calls `soroban_sdk::Map::set` with the key as a host byte string. Claimed: afterwards
/// the table holds the value under the key, replacing what was there, and every other
/// entry as before; it lives in the host it lived in; and the call does not unwind. The
/// key has to fit a host byte string, whose length is a `u32`, and the table's host has
/// to be without limit.
///
/// A host map is never changed in place: the call makes a changed copy, and the host
/// keeps the earlier one for as long as the table's host lives.
#[verifier::external_body]
pub(crate) fn table_set(table: &mut soroban_sdk::Map<soroban_sdk::Bytes, i128>, key: &[u8], value: i128)
    requires
        table_unmetered(*old(table)),
        key@.len() <= u32::MAX,
    ensures
        table_entries(*final(table)) == table_entries(*old(table)).insert(key@, value),
        table_unmetered(*final(table)),
    no_unwind
{
    let host_key = soroban_sdk::Bytes::from_slice(table.env(), key);
    table.set(host_key, value);
}

/// Calls `soroban_sdk::crypto::Crypto::sha256` in a host made for the one call, without a
/// limit on what it may compute and without a snapshot at its end. Claimed: the result is
/// the digest of the data. The data has to fit a host byte string, whose length is a
/// `u32`.
#[verifier::external_body]
pub(crate) fn sha256_digest(data: &[u8]) -> (digest: [u8; 32])
    requires
        data@.len() <= u32::MAX,
    ensures
        digest@ == sha256(data@),
{
    let config = soroban_sdk::testutils::EnvTestConfig { capture_snapshot_at_drop: false };
    let env = soroban_sdk::Env::new_with_config(config);
    env.cost_estimate().budget().reset_unlimited();
    env.crypto().sha256(&soroban_sdk::Bytes::from_slice(&env, data)).to_array()
}

} // verus!
