use pi_coin::{Identity, OracleError, PiCoinOracle};

const SIG: [u8; 64] = [7u8; 64];

const SIG_DIGEST: [u8; 32] = [
    108, 254, 235, 58, 162, 93, 63, 65, 29, 174, 94, 236, 23, 215, 54, 156, 167, 21, 62, 114, 220,
    245, 75, 207, 76, 61, 174, 192, 245, 178, 31, 199,
];

const MODEL_DIGEST: [u8; 32] = [
    229, 237, 62, 132, 34, 149, 33, 52, 123, 27, 241, 92, 108, 128, 28, 81, 250, 36, 147, 59, 219,
    52, 72, 187, 162, 141, 76, 32, 53, 67, 175, 237,
];

fn who(tag: u8) -> Identity {
    Identity::new([tag; 32])
}

fn admin() -> Identity {
    who(1)
}

/// An initialized oracle that expects the digest of `SIG`.
fn serving() -> PiCoinOracle {
    let mut oracle = PiCoinOracle::new();
    oracle.initialize(true, admin(), [8u8; 32]).unwrap();
    oracle.register_zkp_proof(SIG_DIGEST);
    oracle
}

#[test]
fn new_oracle_is_empty() {
    let oracle = PiCoinOracle::new();
    assert!(!oracle.is_initialized());
    assert!(oracle.data().is_none());
    assert_eq!(oracle.zkp_proof(), None);
}

#[test]
fn initialize_sets_admin_fingerprint_and_key() {
    let mut oracle = PiCoinOracle::new();
    assert_eq!(oracle.initialize(true, admin(), [8u8; 32]), Ok(()));
    assert!(oracle.is_initialized());
    let data = oracle.data().unwrap();
    assert_eq!(data.admin(), admin());
    assert_eq!(data.ai_model_hash(), MODEL_DIGEST);
    assert_eq!(data.quantum_key(), [8u8; 32]);
    assert_eq!(data.price_of("PI"), None);
    assert_eq!(oracle.query_price("PI"), Err(OracleError::InvalidData));
}

#[test]
fn oracle_initialize_needs_authorization() {
    let mut oracle = PiCoinOracle::new();
    assert_eq!(
        oracle.initialize(false, admin(), [8u8; 32]),
        Err(OracleError::Unauthorized)
    );
    assert!(!oracle.is_initialized());
}

#[test]
fn oracle_initialize_twice_is_refused() {
    let mut oracle = serving();
    oracle.update_price(true, admin(), "PI", 5, 0, &SIG).unwrap();
    assert_eq!(
        oracle.initialize(true, who(2), [9u8; 32]),
        Err(OracleError::AlreadyInitialized)
    );
    assert_eq!(
        oracle.initialize_with_hash(true, who(2), [9u8; 32], [3u8; 32]),
        Err(OracleError::AlreadyInitialized)
    );
    let data = oracle.data().unwrap();
    assert_eq!(data.admin(), admin());
    assert_eq!(data.quantum_key(), [8u8; 32]);
    assert_eq!(data.ai_model_hash(), MODEL_DIGEST);
    assert_eq!(oracle.query_price("PI"), Ok(5));
}

#[test]
fn initialize_with_hash_keeps_the_given_fingerprint() {
    let mut oracle = PiCoinOracle::new();
    oracle
        .initialize_with_hash(true, admin(), [8u8; 32], [3u8; 32])
        .unwrap();
    assert_eq!(oracle.data().unwrap().ai_model_hash(), [3u8; 32]);
}

#[test]
fn ai_predict_price_adds_the_tens_digit_times_1000() {
    assert_eq!(PiCoinOracle::ai_predict_price(0, 500), 500);
    assert_eq!(PiCoinOracle::ai_predict_price(9, 500), 500);
    assert_eq!(PiCoinOracle::ai_predict_price(10, 500), 1_500);
    assert_eq!(PiCoinOracle::ai_predict_price(55, 314_159_000_000), 314_159_005_000);
    assert_eq!(PiCoinOracle::ai_predict_price(99, 0), 9_000);
    assert_eq!(PiCoinOracle::ai_predict_price(100, 0), 0);
    assert_eq!(PiCoinOracle::ai_predict_price(1_234_567, -1_000), 5_000);
    assert_eq!(PiCoinOracle::ai_predict_price(u64::MAX, 0), 1_000);
    assert_eq!(PiCoinOracle::ai_predict_price(99, i128::MAX - 9_000), i128::MAX);
    assert_eq!(PiCoinOracle::ai_predict_price(99, i128::MIN), i128::MIN + 9_000);
}

#[test]
fn global_average_stays_within_4999_above_the_base() {
    assert_eq!(PiCoinOracle::global_average(0), 314_159_000_000);
    assert_eq!(PiCoinOracle::global_average(4_999), 314_159_004_999);
    assert_eq!(PiCoinOracle::global_average(5_000), 314_159_000_000);
    assert_eq!(PiCoinOracle::global_average(12_345), 314_159_002_345);
    assert_eq!(PiCoinOracle::global_average(u32::MAX), 314_159_002_295);
}

#[test]
fn update_stores_the_adjusted_price() {
    let mut oracle = serving();
    assert_eq!(
        oracle.update_price(true, admin(), "PI", 314_159_000_000, 42, &SIG),
        Ok(())
    );
    assert_eq!(oracle.query_price("PI"), Ok(314_159_004_000));
    assert_eq!(oracle.data().unwrap().price_of("PI"), Some(314_159_004_000));
    assert_eq!(oracle.query_price("XLM"), Err(OracleError::InvalidData));
    assert_eq!(oracle.query_price("pi"), Err(OracleError::InvalidData));
    assert_eq!(oracle.query_price(""), Err(OracleError::InvalidData));
}

#[test]
fn update_replaces_the_last_price() {
    let mut oracle = serving();
    oracle.update_price(true, admin(), "PI", 100, 0, &SIG).unwrap();
    oracle.update_price(true, admin(), "XLM", -7, 0, &SIG).unwrap();
    oracle.update_price(true, admin(), "PI", 200, 30, &SIG).unwrap();
    assert_eq!(oracle.query_price("PI"), Ok(3_200));
    assert_eq!(oracle.query_price("XLM"), Ok(-7));
}

#[test]
fn update_from_another_identity_is_unauthorized() {
    let mut oracle = serving();
    assert_eq!(
        oracle.update_price(true, who(2), "PI", 100, 0, &SIG),
        Err(OracleError::Unauthorized)
    );
    assert_eq!(
        oracle.update_price(true, who(2), "PI", 100, 0, &[1u8; 64]),
        Err(OracleError::Unauthorized)
    );
    assert_eq!(oracle.query_price("PI"), Err(OracleError::InvalidData));
}

#[test]
fn update_without_authorization_is_unauthorized() {
    let mut oracle = serving();
    assert_eq!(
        oracle.update_price(false, admin(), "PI", 100, 0, &SIG),
        Err(OracleError::Unauthorized)
    );
    assert_eq!(oracle.query_price("PI"), Err(OracleError::InvalidData));
}

#[test]
fn update_with_unexpected_signature_is_manipulation() {
    let mut oracle = serving();
    oracle.update_price(true, admin(), "PI", 100, 0, &SIG).unwrap();
    assert_eq!(
        oracle.update_price(true, admin(), "PI", 999, 0, &[1u8; 64]),
        Err(OracleError::ManipulationDetected)
    );
    assert_eq!(
        oracle.update_price(true, admin(), "XLM", 999, 0, &[1u8; 64]),
        Err(OracleError::ManipulationDetected)
    );
    assert_eq!(oracle.query_price("PI"), Ok(100));
    assert_eq!(oracle.query_price("XLM"), Err(OracleError::InvalidData));
}

#[test]
fn unregistered_proof_counts_as_32_zero_bytes() {
    let mut oracle = PiCoinOracle::new();
    oracle.initialize(true, admin(), [8u8; 32]).unwrap();
    assert!(!oracle.verify_zkp_proof(&SIG));
    assert!(oracle.matches_expected(&[0u8; 32]));
    assert!(!oracle.matches_expected(&[1u8; 32]));
    assert_eq!(
        oracle.update_price(true, admin(), "PI", 100, 0, &SIG),
        Err(OracleError::ManipulationDetected)
    );
    assert_eq!(
        oracle.update_price_with_proof(true, admin(), "PI", 100, 0, &[0u8; 32]),
        Ok(())
    );
    assert_eq!(oracle.query_price("PI"), Ok(100));
}

#[test]
fn verify_zkp_proof_compares_the_digest_of_the_signature() {
    let mut oracle = PiCoinOracle::new();
    oracle.register_zkp_proof(SIG_DIGEST);
    assert_eq!(oracle.zkp_proof(), Some(SIG_DIGEST));
    assert!(oracle.verify_zkp_proof(&SIG));
    assert!(!oracle.verify_zkp_proof(&[9u8; 64]));
    assert!(oracle.matches_expected(&SIG_DIGEST));
    let mut signature_as_proof = [0u8; 32];
    signature_as_proof.copy_from_slice(&SIG[..32]);
    assert!(!oracle.matches_expected(&signature_as_proof));
    oracle.register_zkp_proof([
        170, 114, 94, 81, 169, 216, 233, 168, 171, 227, 206, 250, 104, 86, 29, 25, 164, 176, 108,
        111, 21, 38, 228, 110, 58, 85, 162, 58, 239, 117, 60, 115,
    ]);
    assert!(oracle.verify_zkp_proof(&[9u8; 64]));
    assert!(!oracle.verify_zkp_proof(&SIG));
}

#[test]
fn query_repeats_its_answer() {
    let mut oracle = serving();
    oracle.update_price(true, admin(), "PI", 314_159_000_000, 0, &SIG).unwrap();
    for _ in 0..5 {
        assert_eq!(oracle.query_price("PI"), Ok(314_159_000_000));
        assert_eq!(oracle.query_price("XLM"), Err(OracleError::InvalidData));
    }
}

#[test]
fn aggregate_stores_the_synthesized_price_for_pi() {
    let mut oracle = serving();
    assert_eq!(oracle.aggregate_global_data(true, admin(), 12_345, 67, &SIG), Ok(()));
    assert_eq!(oracle.query_price("PI"), Ok(314_159_008_345));
}

#[test]
fn aggregate_by_a_service_that_is_not_admin_is_unauthorized() {
    let mut oracle = serving();
    assert_eq!(
        oracle.aggregate_global_data(true, who(9), 1, 0, &SIG),
        Err(OracleError::Unauthorized)
    );
    assert_eq!(
        oracle.aggregate_global_data(false, admin(), 1, 0, &SIG),
        Err(OracleError::Unauthorized)
    );
    assert_eq!(
        oracle.aggregate_global_data(true, admin(), 1, 0, &[2u8; 64]),
        Err(OracleError::ManipulationDetected)
    );
    assert_eq!(oracle.query_price("PI"), Err(OracleError::InvalidData));
}

#[test]
fn asset_names_are_told_apart_by_their_bytes() {
    let mut oracle = serving();
    oracle.update_price(true, admin(), "A", 1, 0, &SIG).unwrap();
    oracle.update_price(true, admin(), "AA", 2, 0, &SIG).unwrap();
    oracle.update_price(true, admin(), "é", 3, 0, &SIG).unwrap();
    oracle.update_price(true, admin(), "", 4, 0, &SIG).unwrap();
    assert_eq!(oracle.query_price("A"), Ok(1));
    assert_eq!(oracle.query_price("AA"), Ok(2));
    assert_eq!(oracle.query_price("é"), Ok(3));
    assert_eq!(oracle.query_price(""), Ok(4));
    assert_eq!(oracle.query_price("e"), Err(OracleError::InvalidData));
}

#[test]
fn feed_takes_many_updates() {
    let mut oracle = serving();
    for round in 0..150_000u64 {
        oracle
            .update_price_with_proof(true, admin(), "PI", round as i128, round, &SIG_DIGEST)
            .unwrap();
    }
    assert_eq!(oracle.query_price("PI"), Ok(149_999 + 9_000));
}

#[test]
fn can_adjust_tells_when_the_adjusted_price_overflows() {
    assert!(PiCoinOracle::can_adjust(0, i128::MAX));
    assert!(PiCoinOracle::can_adjust(9, i128::MAX));
    assert!(!PiCoinOracle::can_adjust(10, i128::MAX));
    assert!(PiCoinOracle::can_adjust(10, i128::MAX - 1_000));
    assert!(!PiCoinOracle::can_adjust(10, i128::MAX - 999));
    assert!(PiCoinOracle::can_adjust(99, i128::MAX - 9_000));
    assert!(!PiCoinOracle::can_adjust(99, i128::MAX - 8_999));
    assert!(PiCoinOracle::can_adjust(99, i128::MIN));
    assert!(PiCoinOracle::can_adjust(u64::MAX, 0));
}

#[test]
fn asset_names_that_fit() {
    assert!(PiCoinOracle::asset_name_fits(""));
    assert!(PiCoinOracle::asset_name_fits("PI"));
    assert!(PiCoinOracle::asset_name_fits("a_much_longer_asset_name_than_any_symbol_would_be"));
}

#[test]
fn update_by_a_stranger_is_refused_whatever_the_price() {
    let mut oracle = serving();
    assert_eq!(
        oracle.update_price(true, who(2), "PI", i128::MAX, 99, &SIG),
        Err(OracleError::Unauthorized)
    );
    assert_eq!(
        oracle.update_price(false, admin(), "PI", i128::MAX, 99, &SIG),
        Err(OracleError::Unauthorized)
    );
    assert_eq!(oracle.update_price(true, admin(), "PI", i128::MAX - 9_000, 99, &SIG), Ok(()));
    assert_eq!(oracle.query_price("PI"), Ok(i128::MAX));
}

#[test]
fn oracle_errors_keep_their_numbers() {
    assert_eq!(OracleError::Unauthorized.code(), 1);
    assert_eq!(OracleError::InvalidData.code(), 2);
    assert_eq!(OracleError::ManipulationDetected.code(), 3);
    assert_eq!(OracleError::AlreadyInitialized.code(), 4);
}

#[test]
fn feed_keeps_the_extremes_of_the_price_range() {
    let mut oracle = serving();
    oracle.update_price(true, admin(), "low", i128::MIN, 0, &SIG).unwrap();
    oracle.update_price(true, admin(), "high", i128::MAX, 5, &SIG).unwrap();
    oracle.update_price(true, admin(), "zero", 0, 0, &SIG).unwrap();
    oracle.update_price(true, admin(), "minus", -1, 0, &SIG).unwrap();
    assert_eq!(oracle.query_price("low"), Ok(i128::MIN));
    assert_eq!(oracle.query_price("high"), Ok(i128::MAX));
    assert_eq!(oracle.query_price("zero"), Ok(0));
    assert_eq!(oracle.query_price("minus"), Ok(-1));
}

#[test]
fn feed_keeps_many_assets_apart() {
    let mut oracle = serving();
    let names = [
        "a", "b", "ab", "ba", "abc", "PI", "PI2", "pi", "XLM", "USDC", "a_b", "A", "0", "00",
    ];
    for (index, name) in names.iter().enumerate() {
        oracle
            .update_price(true, admin(), name, index as i128, 0, &SIG)
            .unwrap();
    }
    for (index, name) in names.iter().enumerate() {
        assert_eq!(oracle.query_price(name), Ok(index as i128));
    }
    assert_eq!(oracle.query_price("c"), Err(OracleError::InvalidData));
}
