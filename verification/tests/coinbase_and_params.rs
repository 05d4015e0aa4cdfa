//! Tests for the coinbase shielded-value restrictions, the network
//! parameter table, and acceptance of the fifth format once its upgrade is
//! active.

use tx_consensus::amount::{Amount, NonNegative};
use tx_consensus::block::Height;
use tx_consensus::check;
use tx_consensus::error::TransactionError;
use tx_consensus::fixtures::{
    mock_coinbase_transparent_output, mock_sprout_join_split_data, mock_transparent_transfer,
};
use tx_consensus::parameters::Network::{Mainnet, Testnet};
use tx_consensus::parameters::NetworkUpgrade::{
    BeforeOverwinter, Blossom, Canopy, Genesis, Heartwood, Nu5, Overwinter, Sapling,
};
use tx_consensus::parameters::{Network, NetworkUpgrade};
use tx_consensus::primitives::{Groth16Proof, RedJubjubSignature};
use tx_consensus::sapling;
use tx_consensus::transaction::{LockTime, Transaction};
use tx_consensus::verify::{OracleOutcome, Request, Verifier};

#[test]
fn coinbase_with_sprout_deposit_is_rejected() {
    let (input, output) = mock_coinbase_transparent_output(Height(500));

    // A join-split drawing transparent value into the Sprout pool.
    let mut joinsplit_data = mock_sprout_join_split_data();
    joinsplit_data.first.vpub_old = Amount::<NonNegative>::try_from(1).unwrap();

    let transaction = Transaction::V4 {
        inputs: vec![input],
        outputs: vec![output],
        lock_time: LockTime::unlocked(),
        expiry_height: Height(500),
        joinsplit_data: Some(joinsplit_data),
        sapling_shielded_data: None,
    };

    assert_eq!(
        check::coinbase_tx_no_prevout_joinsplit_spend(&transaction),
        Err(TransactionError::CoinbaseHasJoinSplit)
    );
}

#[test]
fn coinbase_with_zero_value_joinsplit_is_not_a_deposit() {
    let (input, output) = mock_coinbase_transparent_output(Height(500));

    let transaction = Transaction::V4 {
        inputs: vec![input],
        outputs: vec![output],
        lock_time: LockTime::unlocked(),
        expiry_height: Height(500),
        joinsplit_data: Some(mock_sprout_join_split_data()),
        sapling_shielded_data: None,
    };

    assert_eq!(
        check::coinbase_tx_no_prevout_joinsplit_spend(&transaction),
        Ok(())
    );
}

#[test]
fn coinbase_with_sapling_spend_is_rejected() {
    let (input, output) = mock_coinbase_transparent_output(Height(500));

    let spend = sapling::SpendDescription {
        cv: [0u8; 32],
        anchor: [0u8; 32],
        nullifier: sapling::Nullifier([9u8; 32]),
        rk: [0u8; 32],
        zkproof: Groth16Proof([0u8; 192]),
        spend_auth_sig: RedJubjubSignature([0u8; 64]),
    };
    let shielded_data = sapling::ShieldedData {
        transfers: sapling::TransferData::SpendsAndMaybeOutputs {
            spends: vec![spend],
            maybe_outputs: vec![],
        },
        binding_sig: RedJubjubSignature([0u8; 64]),
    };

    let transaction = Transaction::V4 {
        inputs: vec![input],
        outputs: vec![output],
        lock_time: LockTime::unlocked(),
        expiry_height: Height(500),
        joinsplit_data: None,
        sapling_shielded_data: Some(shielded_data),
    };

    assert_eq!(
        check::coinbase_tx_no_prevout_joinsplit_spend(&transaction),
        Err(TransactionError::CoinbaseHasSpend)
    );
}

#[test]
fn activation_heights_match_published_values() {
    assert_eq!(Genesis.activation_height(Mainnet), Height(0));
    assert_eq!(BeforeOverwinter.activation_height(Mainnet), Height(1));
    assert_eq!(Overwinter.activation_height(Mainnet), Height(347_500));
    assert_eq!(Sapling.activation_height(Mainnet), Height(419_200));
    assert_eq!(Blossom.activation_height(Mainnet), Height(653_600));
    assert_eq!(Heartwood.activation_height(Mainnet), Height(903_000));
    assert_eq!(Canopy.activation_height(Mainnet), Height(1_046_400));
    assert_eq!(Nu5.activation_height(Mainnet), Height(1_687_104));

    assert_eq!(Genesis.activation_height(Testnet), Height(0));
    assert_eq!(BeforeOverwinter.activation_height(Testnet), Height(1));
    assert_eq!(Overwinter.activation_height(Testnet), Height(207_500));
    assert_eq!(Sapling.activation_height(Testnet), Height(280_000));
    assert_eq!(Blossom.activation_height(Testnet), Height(584_000));
    assert_eq!(Heartwood.activation_height(Testnet), Height(903_800));
    assert_eq!(Canopy.activation_height(Testnet), Height(1_028_500));
    assert_eq!(Nu5.activation_height(Testnet), Height(1_842_420));
}

#[test]
fn current_upgrade_tracks_height() {
    let network = Network::Mainnet;
    assert_eq!(
        NetworkUpgrade::current(network, Height(0)),
        NetworkUpgrade::Genesis
    );
    assert_eq!(
        NetworkUpgrade::current(network, Height(419_199)),
        NetworkUpgrade::Overwinter
    );
    assert_eq!(
        NetworkUpgrade::current(network, Height(419_200)),
        NetworkUpgrade::Sapling
    );
    assert_eq!(
        NetworkUpgrade::current(network, Height(1_687_104)),
        NetworkUpgrade::Nu5
    );
    assert_eq!(
        NetworkUpgrade::current(network, Height(499_999_999)),
        NetworkUpgrade::Nu5
    );
}

fn v5_transaction_is_accepted_after_nu5_activation_for_network(network: Network) {
    let nu5_activation_height = NetworkUpgrade::Nu5.activation_height(network);
    let block_height = nu5_activation_height.checked_add(10).expect("too large");
    let fund_height = block_height.checked_sub(1).expect("too small");

    let (input, output, known_utxos) = mock_transparent_transfer(fund_height, true, 0);

    let transaction = Transaction::V5 {
        network_upgrade: NetworkUpgrade::Nu5,
        inputs: vec![input],
        outputs: vec![output],
        lock_time: LockTime::unlocked(),
        expiry_height: block_height,
        sapling_shielded_data: None,
        orchard_shielded_data: None,
    };

    let expected_hash = transaction.unmined_id();

    let verifier = Verifier::new(network);
    let req = Request::Block {
        transaction,
        known_utxos,
        height: block_height,
        time: i64::MAX,
    };
    let plan = verifier
        .check_transaction(&req)
        .expect("all structural checks must pass after the activation");
    let outcomes = vec![
        OracleOutcome::Pass;
        plan.script_checks.len() + plan.crypto_checks.len()
    ];
    let result = verifier.finalize(&req, &outcomes, true);

    assert_eq!(
        result.expect("unexpected error response").tx_id(),
        expected_hash
    );
}

#[test]
fn v5_transaction_is_accepted_after_nu5_activation_mainnet() {
    v5_transaction_is_accepted_after_nu5_activation_for_network(Network::Mainnet)
}

#[test]
fn v5_transaction_is_accepted_after_nu5_activation_testnet() {
    v5_transaction_is_accepted_after_nu5_activation_for_network(Network::Testnet)
}

#[test]
fn response_reports_spent_outpoints() {
    let network = Network::Mainnet;
    let block_height = NetworkUpgrade::Canopy
        .activation_height(network)
        .checked_add(10)
        .unwrap();
    let fund_height = block_height.checked_sub(1).unwrap();

    let (input_a, output, mut known_utxos) = mock_transparent_transfer(fund_height, true, 0);
    let (input_b, _, mut more_utxos) = mock_transparent_transfer(fund_height, true, 1);
    known_utxos.append(&mut more_utxos);

    let transaction = Transaction::V4 {
        inputs: vec![input_a.clone(), input_b.clone()],
        outputs: vec![output],
        lock_time: LockTime::unlocked(),
        expiry_height: block_height,
        joinsplit_data: None,
        sapling_shielded_data: None,
    };

    let verifier = Verifier::new(network);
    let req = Request::Block {
        transaction,
        known_utxos,
        height: block_height,
        time: i64::MAX,
    };
    let plan = verifier.check_transaction(&req).expect("must pass");
    assert_eq!(plan.script_checks.len(), 2);
    assert!(plan.script_checks.iter().all(|s| s.known));

    let outcomes = vec![
        OracleOutcome::Pass;
        plan.script_checks.len() + plan.crypto_checks.len()
    ];
    let response = verifier.finalize(&req, &outcomes, true).expect("must pass");
    assert_eq!(
        response.spent_outpoints,
        vec![
            input_a.outpoint().unwrap(),
            input_b.outpoint().unwrap(),
        ]
    );
}
