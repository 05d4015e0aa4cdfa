//! Tests driving the orchestrator: structural checks, planning, and the
//! folding of oracle outcomes into a final decision.

use tx_consensus::block::Height;
use tx_consensus::error::{ExternalError, TransactionError};
use tx_consensus::fixtures::{
    insert_fake_orchard_shielded_data, mock_coinbase_transparent_output,
    mock_sprout_join_split_data, mock_transparent_transfer, push_duplicate_orchard_action,
    set_orchard_flags,
};
use tx_consensus::orchard::Flags;
use tx_consensus::parameters::{Network, NetworkUpgrade};
use tx_consensus::sprout;
use tx_consensus::transaction::{LockTime, Transaction};
use tx_consensus::transparent::{OutPoint, OrderedUtxo};
use tx_consensus::verify::{OracleOutcome, Request, Verifier};

/// Runs both verifier phases, answering every planned oracle check by the
/// mock script convention: a lock script of `[1, 1]` accepts, anything
/// else rejects; every cryptographic check passes.
fn run_to_completion(
    verifier: &Verifier,
    req: &Request,
    outputs_decrypt: bool,
) -> Result<tx_consensus::verify::Response, TransactionError> {
    let plan = verifier.check_transaction(req)?;
    let mut outcomes = Vec::new();
    let known_utxos: Vec<(OutPoint, OrderedUtxo)> = match req {
        Request::Block { known_utxos, .. } => known_utxos.clone(),
        Request::Mempool { .. } => Vec::new(),
    };
    for s in &plan.script_checks {
        let accepted = tx_consensus::verify::lookup_known_utxo(&known_utxos, &s.outpoint)
            .map(|u| u.utxo.output.lock_script.0 == vec![1, 1])
            .unwrap_or(false);
        if accepted {
            outcomes.push(OracleOutcome::Pass);
        } else {
            outcomes.push(OracleOutcome::Fail(ExternalError::Script {
                message: "ScriptInvalid".to_string(),
            }));
        }
    }
    for _ in &plan.crypto_checks {
        outcomes.push(OracleOutcome::Pass);
    }
    verifier.finalize(req, &outcomes, outputs_decrypt)
}

#[test]
fn v4_transaction_with_transparent_transfer_is_accepted() {
    let network = Network::Mainnet;

    let canopy_activation_height = NetworkUpgrade::Canopy.activation_height(network);
    let transaction_block_height = canopy_activation_height
        .checked_add(10)
        .expect("transaction block height is too large");
    let fake_source_fund_height = transaction_block_height
        .checked_sub(1)
        .expect("fake source fund block height is too small");

    let (input, output, known_utxos) = mock_transparent_transfer(fake_source_fund_height, true, 0);

    let transaction = Transaction::V4 {
        inputs: vec![input],
        outputs: vec![output],
        lock_time: LockTime::Height(Height(0)),
        expiry_height: transaction_block_height
            .checked_add(1)
            .expect("expiry height is too large"),
        joinsplit_data: None,
        sapling_shielded_data: None,
    };

    let transaction_hash = transaction.unmined_id();

    let verifier = Verifier::new(network);
    let result = run_to_completion(
        &verifier,
        &Request::Block {
            transaction,
            known_utxos,
            height: transaction_block_height,
            time: i64::MAX,
        },
        true,
    );

    assert_eq!(
        result.expect("unexpected error response").tx_id(),
        transaction_hash
    );
}

#[test]
fn v4_transaction_with_last_valid_expiry_height() {
    let verifier = Verifier::new(Network::Mainnet);

    let block_height = NetworkUpgrade::Canopy.activation_height(Network::Mainnet);
    let fund_height = block_height.checked_sub(1).expect("too small");
    let (input, output, known_utxos) = mock_transparent_transfer(fund_height, true, 0);

    let transaction = Transaction::V4 {
        inputs: vec![input],
        outputs: vec![output],
        lock_time: LockTime::unlocked(),
        expiry_height: block_height,
        joinsplit_data: None,
        sapling_shielded_data: None,
    };

    let result = run_to_completion(
        &verifier,
        &Request::Block {
            transaction: transaction.clone(),
            known_utxos,
            height: block_height,
            time: i64::MAX,
        },
        true,
    );

    assert_eq!(
        result.expect("unexpected error response").tx_id(),
        transaction.unmined_id()
    );
}

#[test]
fn v4_coinbase_transaction_with_low_expiry_height() {
    let verifier = Verifier::new(Network::Mainnet);

    let block_height = NetworkUpgrade::Canopy.activation_height(Network::Mainnet);
    let (input, output) = mock_coinbase_transparent_output(block_height);

    // An expiry height below the block height is fine for coinbase
    // transactions before the equality rule activates.
    let expiry_height = block_height.checked_sub(1).expect("too small");

    let transaction = Transaction::V4 {
        inputs: vec![input],
        outputs: vec![output],
        lock_time: LockTime::unlocked(),
        expiry_height,
        joinsplit_data: None,
        sapling_shielded_data: None,
    };

    let result = run_to_completion(
        &verifier,
        &Request::Block {
            transaction: transaction.clone(),
            known_utxos: Vec::new(),
            height: block_height,
            time: i64::MAX,
        },
        true,
    );

    assert_eq!(
        result.expect("unexpected error response").tx_id(),
        transaction.unmined_id()
    );
}

#[test]
fn v4_transaction_with_too_low_expiry_height() {
    let verifier = Verifier::new(Network::Mainnet);

    let block_height = NetworkUpgrade::Canopy.activation_height(Network::Mainnet);
    let fund_height = block_height.checked_sub(1).expect("too small");
    let (input, output, known_utxos) = mock_transparent_transfer(fund_height, true, 0);

    let expiry_height = block_height.checked_sub(1).expect("too small");

    let transaction = Transaction::V4 {
        inputs: vec![input],
        outputs: vec![output],
        lock_time: LockTime::unlocked(),
        expiry_height,
        joinsplit_data: None,
        sapling_shielded_data: None,
    };

    let result = run_to_completion(
        &verifier,
        &Request::Block {
            transaction: transaction.clone(),
            known_utxos,
            height: block_height,
            time: i64::MAX,
        },
        true,
    );

    assert_eq!(
        result,
        Err(TransactionError::ExpiredTransaction {
            expiry_height,
            block_height,
            transaction_hash: transaction.hash(),
        })
    );
}

#[test]
fn v4_transaction_with_exceeding_expiry_height() {
    let verifier = Verifier::new(Network::Mainnet);

    let block_height = Height::max_height();
    let fund_height = block_height.checked_sub(1).expect("too small");
    let (input, output, known_utxos) = mock_transparent_transfer(fund_height, true, 0);

    // This expiry height exceeds the protocol maximum.
    let expiry_height = Height(500_000_000);

    let transaction = Transaction::V4 {
        inputs: vec![input],
        outputs: vec![output],
        lock_time: LockTime::unlocked(),
        expiry_height,
        joinsplit_data: None,
        sapling_shielded_data: None,
    };

    let result = run_to_completion(
        &verifier,
        &Request::Block {
            transaction: transaction.clone(),
            known_utxos,
            height: block_height,
            time: i64::MAX,
        },
        true,
    );

    assert_eq!(
        result,
        Err(TransactionError::MaximumExpiryHeight {
            expiry_height,
            is_coinbase: false,
            block_height,
            transaction_hash: transaction.hash(),
        })
    );
}

#[test]
fn v4_coinbase_transaction_with_exceeding_expiry_height() {
    let verifier = Verifier::new(Network::Mainnet);

    // A height before the fifth-format upgrade, where the equality rule is
    // not yet active and only the maximum applies to coinbase expiry.
    let block_height = Height(
        NetworkUpgrade::Nu5
            .activation_height(Network::Mainnet)
            .0
            - 1,
    );
    let (input, output) = mock_coinbase_transparent_output(block_height);

    let expiry_height = Height(500_000_000);

    let transaction = Transaction::V4 {
        inputs: vec![input],
        outputs: vec![output],
        lock_time: LockTime::unlocked(),
        expiry_height,
        joinsplit_data: None,
        sapling_shielded_data: None,
    };

    let result = run_to_completion(
        &verifier,
        &Request::Block {
            transaction: transaction.clone(),
            known_utxos: Vec::new(),
            height: block_height,
            time: i64::MAX,
        },
        true,
    );

    assert_eq!(
        result,
        Err(TransactionError::MaximumExpiryHeight {
            expiry_height,
            is_coinbase: true,
            block_height,
            transaction_hash: transaction.hash(),
        })
    );
}

#[test]
fn v4_coinbase_transaction_is_accepted() {
    let network = Network::Mainnet;

    let canopy_activation_height = NetworkUpgrade::Canopy.activation_height(network);
    let transaction_block_height = canopy_activation_height
        .checked_add(10)
        .expect("transaction block height is too large");

    let (input, output) = mock_coinbase_transparent_output(transaction_block_height);

    let transaction = Transaction::V4 {
        inputs: vec![input],
        outputs: vec![output],
        lock_time: LockTime::Height(Height(0)),
        expiry_height: transaction_block_height,
        joinsplit_data: None,
        sapling_shielded_data: None,
    };

    let transaction_hash = transaction.unmined_id();

    let verifier = Verifier::new(network);
    let result = run_to_completion(
        &verifier,
        &Request::Block {
            transaction,
            known_utxos: Vec::new(),
            height: transaction_block_height,
            time: i64::MAX,
        },
        true,
    );

    assert_eq!(
        result.expect("unexpected error response").tx_id(),
        transaction_hash
    );
}

#[test]
fn v4_transaction_with_transparent_transfer_is_rejected_by_the_script() {
    let network = Network::Mainnet;

    let canopy_activation_height = NetworkUpgrade::Canopy.activation_height(network);
    let transaction_block_height = canopy_activation_height
        .checked_add(10)
        .expect("transaction block height is too large");
    let fake_source_fund_height = transaction_block_height
        .checked_sub(1)
        .expect("fake source fund block height is too small");

    // The spent output's lock script rejects every spend attempt.
    let (input, output, known_utxos) = mock_transparent_transfer(fake_source_fund_height, false, 0);

    let transaction = Transaction::V4 {
        inputs: vec![input],
        outputs: vec![output],
        lock_time: LockTime::Height(Height(0)),
        expiry_height: transaction_block_height
            .checked_add(1)
            .expect("expiry height is too large"),
        joinsplit_data: None,
        sapling_shielded_data: None,
    };

    let verifier = Verifier::new(network);
    let result = run_to_completion(
        &verifier,
        &Request::Block {
            transaction,
            known_utxos,
            height: transaction_block_height,
            time: i64::MAX,
        },
        true,
    );

    assert_eq!(
        result,
        Err(TransactionError::InternalDowncastError(
            "ScriptInvalid".to_string()
        ))
    );
}

#[test]
fn v4_transaction_with_conflicting_transparent_spend_is_rejected() {
    let network = Network::Mainnet;

    let canopy_activation_height = NetworkUpgrade::Canopy.activation_height(network);
    let transaction_block_height = canopy_activation_height
        .checked_add(10)
        .expect("transaction block height is too large");
    let fake_source_fund_height = transaction_block_height
        .checked_sub(1)
        .expect("fake source fund block height is too small");

    let (input, output, known_utxos) = mock_transparent_transfer(fake_source_fund_height, true, 0);

    let transaction = Transaction::V4 {
        inputs: vec![input.clone(), input.clone()],
        outputs: vec![output],
        lock_time: LockTime::Height(Height(0)),
        expiry_height: transaction_block_height
            .checked_add(1)
            .expect("expiry height is too large"),
        joinsplit_data: None,
        sapling_shielded_data: None,
    };

    let verifier = Verifier::new(network);
    let result = run_to_completion(
        &verifier,
        &Request::Block {
            transaction,
            known_utxos,
            height: transaction_block_height,
            time: i64::MAX,
        },
        true,
    );

    let expected_outpoint = input.outpoint().expect("Input should have an outpoint");
    assert_eq!(
        result,
        Err(TransactionError::DuplicateTransparentSpend(
            expected_outpoint
        ))
    );
}

#[test]
fn v4_transaction_with_conflicting_sprout_nullifier_inside_joinsplit_is_rejected() {
    let network = Network::Mainnet;

    let canopy_activation_height = NetworkUpgrade::Canopy.activation_height(network);
    let transaction_block_height = canopy_activation_height
        .checked_add(10)
        .expect("transaction block height is too large");

    let mut joinsplit_data = mock_sprout_join_split_data();

    // Make both nullifiers the same inside the one join-split.
    let duplicate_nullifier = joinsplit_data.first.nullifiers[0];
    joinsplit_data.first.nullifiers[1] = duplicate_nullifier;

    let transaction = Transaction::V4 {
        inputs: vec![],
        outputs: vec![],
        lock_time: LockTime::Height(Height(0)),
        expiry_height: transaction_block_height
            .checked_add(1)
            .expect("expiry height is too large"),
        joinsplit_data: Some(joinsplit_data),
        sapling_shielded_data: None,
    };

    let verifier = Verifier::new(network);
    let result = run_to_completion(
        &verifier,
        &Request::Block {
            transaction,
            known_utxos: Vec::new(),
            height: transaction_block_height,
            time: i64::MAX,
        },
        true,
    );

    assert_eq!(
        result,
        Err(TransactionError::DuplicateSproutNullifier(
            duplicate_nullifier
        ))
    );
}

#[test]
fn v4_transaction_with_conflicting_sprout_nullifier_across_joinsplits_is_rejected() {
    let network = Network::Mainnet;

    let canopy_activation_height = NetworkUpgrade::Canopy.activation_height(network);
    let transaction_block_height = canopy_activation_height
        .checked_add(10)
        .expect("transaction block height is too large");

    let mut joinsplit_data = mock_sprout_join_split_data();

    // Duplicate a nullifier of the first join-split into a second one.
    let duplicate_nullifier = joinsplit_data.first.nullifiers[1];
    let mut new_joinsplit = joinsplit_data.first.clone();
    new_joinsplit.nullifiers[0] = duplicate_nullifier;
    new_joinsplit.nullifiers[1] = sprout::Nullifier([2u8; 32]);
    joinsplit_data.rest.push(new_joinsplit);

    let transaction = Transaction::V4 {
        inputs: vec![],
        outputs: vec![],
        lock_time: LockTime::Height(Height(0)),
        expiry_height: transaction_block_height
            .checked_add(1)
            .expect("expiry height is too large"),
        joinsplit_data: Some(joinsplit_data),
        sapling_shielded_data: None,
    };

    let verifier = Verifier::new(network);
    let result = run_to_completion(
        &verifier,
        &Request::Block {
            transaction,
            known_utxos: Vec::new(),
            height: transaction_block_height,
            time: i64::MAX,
        },
        true,
    );

    assert_eq!(
        result,
        Err(TransactionError::DuplicateSproutNullifier(
            duplicate_nullifier
        ))
    );
}

#[test]
fn v5_transaction_is_rejected_before_nu5_activation() {
    const V5_TRANSACTION_VERSION: u32 = 5;

    let canopy = NetworkUpgrade::Canopy;
    for network in [Network::Mainnet, Network::Testnet] {
        let verifier = Verifier::new(network);
        let height = canopy.activation_height(network);

        let (input, output, known_utxos) = mock_transparent_transfer(
            height.checked_sub(1).expect("too small"),
            true,
            0,
        );
        let transaction = Transaction::V5 {
            network_upgrade: canopy,
            inputs: vec![input],
            outputs: vec![output],
            lock_time: LockTime::unlocked(),
            expiry_height: height,
            sapling_shielded_data: None,
            orchard_shielded_data: None,
        };

        let result = run_to_completion(
            &verifier,
            &Request::Block {
                transaction,
                known_utxos,
                height,
                time: i64::MAX,
            },
            true,
        );

        assert_eq!(
            result,
            Err(TransactionError::UnsupportedByNetworkUpgrade(
                V5_TRANSACTION_VERSION,
                canopy
            ))
        );
    }
}

#[test]
fn v5_transaction_with_transparent_transfer_is_accepted() {
    let network = Network::Testnet;
    let network_upgrade = NetworkUpgrade::Nu5;

    let nu5_activation_height = network_upgrade.activation_height(network);
    let transaction_block_height = nu5_activation_height
        .checked_add(10)
        .expect("transaction block height is too large");
    let fake_source_fund_height = transaction_block_height
        .checked_sub(1)
        .expect("fake source fund block height is too small");

    let (input, output, known_utxos) = mock_transparent_transfer(fake_source_fund_height, true, 0);

    let transaction = Transaction::V5 {
        network_upgrade,
        inputs: vec![input],
        outputs: vec![output],
        lock_time: LockTime::Height(Height(0)),
        expiry_height: transaction_block_height
            .checked_add(1)
            .expect("expiry height is too large"),
        sapling_shielded_data: None,
        orchard_shielded_data: None,
    };

    let transaction_hash = transaction.unmined_id();

    let verifier = Verifier::new(network);
    let result = run_to_completion(
        &verifier,
        &Request::Block {
            transaction,
            known_utxos,
            height: transaction_block_height,
            time: i64::MAX,
        },
        true,
    );

    assert_eq!(
        result.expect("unexpected error response").tx_id(),
        transaction_hash
    );
}

#[test]
fn v5_transaction_with_last_valid_expiry_height() {
    let verifier = Verifier::new(Network::Testnet);

    let block_height = NetworkUpgrade::Nu5.activation_height(Network::Testnet);
    let fund_height = block_height.checked_sub(1).expect("too small");
    let (input, output, known_utxos) = mock_transparent_transfer(fund_height, true, 0);

    let transaction = Transaction::V5 {
        network_upgrade: NetworkUpgrade::Nu5,
        inputs: vec![input],
        outputs: vec![output],
        lock_time: LockTime::unlocked(),
        expiry_height: block_height,
        sapling_shielded_data: None,
        orchard_shielded_data: None,
    };

    let result = run_to_completion(
        &verifier,
        &Request::Block {
            transaction: transaction.clone(),
            known_utxos,
            height: block_height,
            time: i64::MAX,
        },
        true,
    );

    assert_eq!(
        result.expect("unexpected error response").tx_id(),
        transaction.unmined_id()
    );
}

#[test]
fn v5_coinbase_transaction_expiry_height() {
    let verifier = Verifier::new(Network::Testnet);

    let block_height = NetworkUpgrade::Nu5.activation_height(Network::Testnet);
    let (input, output) = mock_coinbase_transparent_output(block_height);

    // Expiry equal to the block height is the only valid choice here.
    let transaction = Transaction::V5 {
        network_upgrade: NetworkUpgrade::Nu5,
        inputs: vec![input],
        outputs: vec![output],
        lock_time: LockTime::unlocked(),
        expiry_height: block_height,
        sapling_shielded_data: None,
        orchard_shielded_data: None,
    };

    let result = run_to_completion(
        &verifier,
        &Request::Block {
            transaction: transaction.clone(),
            known_utxos: Vec::new(),
            height: block_height,
            time: i64::MAX,
        },
        true,
    );
    assert_eq!(
        result.expect("unexpected error response").tx_id(),
        transaction.unmined_id()
    );

    // One above the block height: invalid.
    let new_expiry_height = block_height.checked_add(1).expect("too large");
    let mut new_transaction = transaction.clone();
    new_transaction.set_expiry_height(new_expiry_height);

    let result = run_to_completion(
        &verifier,
        &Request::Block {
            transaction: new_transaction.clone(),
            known_utxos: Vec::new(),
            height: block_height,
            time: i64::MAX,
        },
        true,
    );
    assert_eq!(
        result,
        Err(TransactionError::CoinbaseExpiryBlockHeight {
            expiry_height: Some(new_expiry_height),
            block_height,
            transaction_hash: new_transaction.hash(),
        })
    );

    // One below the block height: invalid.
    let new_expiry_height = block_height.checked_sub(1).expect("too small");
    let mut new_transaction = transaction.clone();
    new_transaction.set_expiry_height(new_expiry_height);

    let result = run_to_completion(
        &verifier,
        &Request::Block {
            transaction: new_transaction.clone(),
            known_utxos: Vec::new(),
            height: block_height,
            time: i64::MAX,
        },
        true,
    );
    assert_eq!(
        result,
        Err(TransactionError::CoinbaseExpiryBlockHeight {
            expiry_height: Some(new_expiry_height),
            block_height,
            transaction_hash: new_transaction.hash(),
        })
    );

    // Matching heights again, at the largest height there is, above the
    // non-coinbase limit: the limit is not enforced for coinbase.
    let new_expiry_height = Height::max_height();
    let mut new_transaction = transaction.clone();
    new_transaction.set_expiry_height(new_expiry_height);

    let result = run_to_completion(
        &verifier,
        &Request::Block {
            transaction: new_transaction.clone(),
            known_utxos: Vec::new(),
            height: new_expiry_height,
            time: i64::MAX,
        },
        true,
    );
    assert_eq!(
        result.expect("unexpected error response").tx_id(),
        new_transaction.unmined_id()
    );
}

#[test]
fn v5_transaction_with_too_low_expiry_height() {
    let verifier = Verifier::new(Network::Testnet);

    let block_height = NetworkUpgrade::Nu5.activation_height(Network::Testnet);
    let fund_height = block_height.checked_sub(1).expect("too small");
    let (input, output, known_utxos) = mock_transparent_transfer(fund_height, true, 0);

    let expiry_height = block_height.checked_sub(1).expect("too small");

    let transaction = Transaction::V5 {
        network_upgrade: NetworkUpgrade::Nu5,
        inputs: vec![input],
        outputs: vec![output],
        lock_time: LockTime::unlocked(),
        expiry_height,
        sapling_shielded_data: None,
        orchard_shielded_data: None,
    };

    let result = run_to_completion(
        &verifier,
        &Request::Block {
            transaction: transaction.clone(),
            known_utxos,
            height: block_height,
            time: i64::MAX,
        },
        true,
    );

    assert_eq!(
        result,
        Err(TransactionError::ExpiredTransaction {
            expiry_height,
            block_height,
            transaction_hash: transaction.hash(),
        })
    );
}

#[test]
fn v5_transaction_with_exceeding_expiry_height() {
    let verifier = Verifier::new(Network::Mainnet);

    let block_height = Height::max_height();
    let fund_height = block_height.checked_sub(1).expect("too small");
    let (input, output, known_utxos) = mock_transparent_transfer(fund_height, true, 0);

    let expiry_height = Height(500_000_000);

    let transaction = Transaction::V5 {
        network_upgrade: NetworkUpgrade::Nu5,
        inputs: vec![input],
        outputs: vec![output],
        lock_time: LockTime::unlocked(),
        expiry_height,
        sapling_shielded_data: None,
        orchard_shielded_data: None,
    };

    let result = run_to_completion(
        &verifier,
        &Request::Block {
            transaction: transaction.clone(),
            known_utxos,
            height: block_height,
            time: i64::MAX,
        },
        true,
    );

    assert_eq!(
        result,
        Err(TransactionError::MaximumExpiryHeight {
            expiry_height,
            is_coinbase: false,
            block_height,
            transaction_hash: transaction.hash(),
        })
    );
}

#[test]
fn v5_coinbase_transaction_is_accepted() {
    let network = Network::Testnet;
    let network_upgrade = NetworkUpgrade::Nu5;

    let nu5_activation_height = network_upgrade.activation_height(network);
    let transaction_block_height = nu5_activation_height
        .checked_add(10)
        .expect("transaction block height is too large");

    let (input, output) = mock_coinbase_transparent_output(transaction_block_height);

    let transaction = Transaction::V5 {
        network_upgrade,
        inputs: vec![input],
        outputs: vec![output],
        lock_time: LockTime::Height(Height(0)),
        expiry_height: transaction_block_height,
        sapling_shielded_data: None,
        orchard_shielded_data: None,
    };

    let transaction_hash = transaction.unmined_id();

    let verifier = Verifier::new(network);
    let result = run_to_completion(
        &verifier,
        &Request::Block {
            transaction,
            known_utxos: Vec::new(),
            height: transaction_block_height,
            time: i64::MAX,
        },
        true,
    );

    assert_eq!(
        result.expect("unexpected error response").tx_id(),
        transaction_hash
    );
}

#[test]
fn v5_transaction_with_transparent_transfer_is_rejected_by_the_script() {
    let network = Network::Testnet;
    let network_upgrade = NetworkUpgrade::Nu5;

    let nu5_activation_height = network_upgrade.activation_height(network);
    let transaction_block_height = nu5_activation_height
        .checked_add(10)
        .expect("transaction block height is too large");
    let fake_source_fund_height = transaction_block_height
        .checked_sub(1)
        .expect("fake source fund block height is too small");

    let (input, output, known_utxos) = mock_transparent_transfer(fake_source_fund_height, false, 0);

    let transaction = Transaction::V5 {
        network_upgrade,
        inputs: vec![input],
        outputs: vec![output],
        lock_time: LockTime::Height(Height(0)),
        expiry_height: transaction_block_height
            .checked_add(1)
            .expect("expiry height is too large"),
        sapling_shielded_data: None,
        orchard_shielded_data: None,
    };

    let verifier = Verifier::new(network);
    let result = run_to_completion(
        &verifier,
        &Request::Block {
            transaction,
            known_utxos,
            height: transaction_block_height,
            time: i64::MAX,
        },
        true,
    );

    assert_eq!(
        result,
        Err(TransactionError::InternalDowncastError(
            "ScriptInvalid".to_string()
        ))
    );
}

#[test]
fn v5_transaction_with_conflicting_transparent_spend_is_rejected() {
    let network = Network::Mainnet;
    let network_upgrade = NetworkUpgrade::Nu5;

    let nu5_activation_height = network_upgrade.activation_height(network);
    let transaction_block_height = nu5_activation_height
        .checked_add(10)
        .expect("transaction block height is too large");
    let fake_source_fund_height = transaction_block_height
        .checked_sub(1)
        .expect("fake source fund block height is too small");

    let (input, output, known_utxos) = mock_transparent_transfer(fake_source_fund_height, true, 0);

    let transaction = Transaction::V5 {
        network_upgrade,
        inputs: vec![input.clone(), input.clone()],
        outputs: vec![output],
        lock_time: LockTime::Height(Height(0)),
        expiry_height: transaction_block_height
            .checked_add(1)
            .expect("expiry height is too large"),
        sapling_shielded_data: None,
        orchard_shielded_data: None,
    };

    let verifier = Verifier::new(network);
    let result = run_to_completion(
        &verifier,
        &Request::Block {
            transaction,
            known_utxos,
            height: transaction_block_height,
            time: i64::MAX,
        },
        true,
    );

    let expected_outpoint = input.outpoint().expect("Input should have an outpoint");
    assert_eq!(
        result,
        Err(TransactionError::DuplicateTransparentSpend(
            expected_outpoint
        ))
    );
}

#[test]
fn v5_with_duplicate_orchard_action() {
    let network = Network::Mainnet;
    let height = NetworkUpgrade::Nu5.activation_height(network);

    let mut transaction = Transaction::V5 {
        network_upgrade: NetworkUpgrade::Nu5,
        inputs: vec![],
        outputs: vec![],
        lock_time: LockTime::unlocked(),
        expiry_height: Height(0),
        sapling_shielded_data: None,
        orchard_shielded_data: None,
    };

    insert_fake_orchard_shielded_data(&mut transaction);
    set_orchard_flags(
        &mut transaction,
        Flags { enable_spends: true, enable_outputs: true },
    );
    let duplicate_nullifier = push_duplicate_orchard_action(&mut transaction);

    let verifier = Verifier::new(network);
    let result = run_to_completion(
        &verifier,
        &Request::Block {
            transaction,
            known_utxos: Vec::new(),
            height,
            time: i64::MAX,
        },
        true,
    );

    assert_eq!(
        result,
        Err(TransactionError::DuplicateOrchardNullifier(
            duplicate_nullifier
        ))
    );
}

#[test]
fn plan_marks_unknown_utxos_for_the_chain_state() {
    let network = Network::Mainnet;
    let height = NetworkUpgrade::Canopy
        .activation_height(network)
        .checked_add(10)
        .unwrap();

    // The same transfer, but the known-unspent-output context is withheld,
    // so the plan must send the lookup to the chain state.
    let (input, output, _) = mock_transparent_transfer(
        height.checked_sub(1).unwrap(),
        true,
        0,
    );
    let transaction = Transaction::V4 {
        inputs: vec![input],
        outputs: vec![output],
        lock_time: LockTime::unlocked(),
        expiry_height: height,
        joinsplit_data: None,
        sapling_shielded_data: None,
    };

    let verifier = Verifier::new(network);
    let req = Request::Block {
        transaction,
        known_utxos: Vec::new(),
        height,
        time: i64::MAX,
    };
    let plan = verifier.check_transaction(&req).expect("must pass");
    assert_eq!(plan.script_checks.len(), 1);
    assert!(!plan.script_checks[0].known);
}
