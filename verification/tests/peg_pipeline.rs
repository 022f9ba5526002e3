use pi_coin::{Identity, PiCoinContract, PiCoinError, PiCoinOracle, PiCoinSource};

const SIG: [u8; 64] = [7u8; 64];

fn who(tag: u8) -> Identity {
    Identity::new([tag; 32])
}

fn ledger_with_holder(holder: Identity) -> PiCoinContract {
    let mut contract = PiCoinContract::new();
    contract.initialize(true, who(2), who(3), who(4)).unwrap();
    contract
        .mint(holder, 1_000_000, PiCoinSource::Mining, 1_000_000, &SIG)
        .unwrap();
    contract
}

/// An oracle administered by `who(3)` that takes updates signed with `SIG`.
fn oracle() -> PiCoinOracle {
    let mut oracle = PiCoinOracle::new();
    oracle.initialize(true, who(3), [8u8; 32]).unwrap();
    oracle.register_zkp_proof([
        108, 254, 235, 58, 162, 93, 63, 65, 29, 174, 94, 236, 23, 215, 54, 156, 167, 21, 62, 114,
        220, 245, 75, 207, 76, 61, 174, 192, 245, 178, 31, 199,
    ]);
    oracle
}

#[test]
fn peg_holds_on_the_oracles_exact_price() {
    let contract = ledger_with_holder(who(10));
    let mut oracle = oracle();
    oracle.update_price(true, who(3), "PI", 314_159_000_000, 0, &SIG).unwrap();
    assert_eq!(contract.verify_peg_with_oracle(who(10), &oracle), Ok(true));
    assert_eq!(
        contract.verify_peg_with_oracle(who(11), &oracle),
        Err(PiCoinError::InvalidSource)
    );
}

#[test]
fn peg_follows_the_adjusted_price() {
    let contract = ledger_with_holder(who(10));
    let mut oracle = oracle();
    oracle.update_price(true, who(3), "PI", 314_159_000_000, 10, &SIG).unwrap();
    assert_eq!(oracle.query_price("PI"), Ok(314_159_001_000));
    assert_eq!(contract.verify_peg_with_oracle(who(10), &oracle), Ok(true));
    oracle.update_price(true, who(3), "PI", 314_159_000_000, 20, &SIG).unwrap();
    assert_eq!(
        contract.verify_peg_with_oracle(who(10), &oracle),
        Err(PiCoinError::PegDeviation)
    );
    oracle.update_price(true, who(3), "PI", 314_158_990_000, 99, &SIG).unwrap();
    assert_eq!(contract.verify_peg_with_oracle(who(10), &oracle), Ok(true));
    oracle.update_price(true, who(3), "PI", 314_158_998_999, 0, &SIG).unwrap();
    assert_eq!(
        contract.verify_peg_with_oracle(who(10), &oracle),
        Err(PiCoinError::PegDeviation)
    );
}

#[test]
fn peg_ignores_other_assets() {
    let contract = ledger_with_holder(who(10));
    let mut oracle = oracle();
    oracle.update_price(true, who(3), "PI", 314_159_000_500, 0, &SIG).unwrap();
    oracle.update_price(true, who(3), "XLM", 1, 0, &SIG).unwrap();
    assert_eq!(contract.verify_peg_with_oracle(who(10), &oracle), Ok(true));
}

#[test]
fn peg_after_aggregation_depends_on_sequence_and_time() {
    let contract = ledger_with_holder(who(10));
    let mut oracle = oracle();
    oracle.aggregate_global_data(true, who(3), 5_000, 100, &SIG).unwrap();
    assert_eq!(oracle.query_price("PI"), Ok(314_159_000_000));
    assert_eq!(contract.verify_peg_with_oracle(who(10), &oracle), Ok(true));
    oracle.aggregate_global_data(true, who(3), 1_000, 0, &SIG).unwrap();
    assert_eq!(contract.verify_peg_with_oracle(who(10), &oracle), Ok(true));
    oracle.aggregate_global_data(true, who(3), 1_001, 0, &SIG).unwrap();
    assert_eq!(
        contract.verify_peg_with_oracle(who(10), &oracle),
        Err(PiCoinError::PegDeviation)
    );
    oracle.aggregate_global_data(true, who(3), 1, 10, &SIG).unwrap();
    assert_eq!(oracle.query_price("PI"), Ok(314_159_001_001));
    assert_eq!(
        contract.verify_peg_with_oracle(who(10), &oracle),
        Err(PiCoinError::PegDeviation)
    );
}
