//! Tests for the pure rule-check library.

use tx_consensus::amount::{Amount, NonNegative};
use tx_consensus::block::Height;
use tx_consensus::check;
use tx_consensus::error::TransactionError;
use tx_consensus::fixtures::{
    insert_fake_orchard_shielded_data, mock_coinbase_transparent_output, mock_sprout_join_split_data,
    mock_transparent_transfer, set_orchard_flags,
};
use tx_consensus::orchard::Flags;
use tx_consensus::parameters::{Network, NetworkUpgrade};
use tx_consensus::transaction::{LockTime, Transaction};

fn empty_v5(network_upgrade: NetworkUpgrade, expiry_height: Height) -> Transaction {
    Transaction::V5 {
        network_upgrade,
        inputs: vec![],
        outputs: vec![],
        lock_time: LockTime::unlocked(),
        expiry_height,
        sapling_shielded_data: None,
        orchard_shielded_data: None,
    }
}

#[test]
fn fake_v5_transaction_with_orchard_actions_has_inputs_and_outputs() {
    // A transaction with no inputs or outputs at all as the base.
    let mut transaction = empty_v5(NetworkUpgrade::Nu5, Height(0));

    // Inserted Orchard data carries one action, but with no flags the
    // action counts toward neither side.
    insert_fake_orchard_shielded_data(&mut transaction);

    assert_eq!(
        check::has_inputs_and_outputs(&transaction),
        Err(TransactionError::NoInputs)
    );

    // Spends enabled: the action is an input, but there is still no output.
    set_orchard_flags(
        &mut transaction,
        Flags { enable_spends: true, enable_outputs: false },
    );
    assert_eq!(
        check::has_inputs_and_outputs(&transaction),
        Err(TransactionError::NoOutputs)
    );

    // Outputs enabled only: the action is an output, but no input remains.
    set_orchard_flags(
        &mut transaction,
        Flags { enable_spends: false, enable_outputs: true },
    );
    assert_eq!(
        check::has_inputs_and_outputs(&transaction),
        Err(TransactionError::NoInputs)
    );

    // Both flags: the action is an input and an output.
    set_orchard_flags(
        &mut transaction,
        Flags { enable_spends: true, enable_outputs: true },
    );
    assert!(check::has_inputs_and_outputs(&transaction).is_ok());
}

#[test]
fn fake_v5_transaction_with_orchard_actions_has_flags() {
    let mut transaction = empty_v5(NetworkUpgrade::Nu5, Height(0));
    insert_fake_orchard_shielded_data(&mut transaction);

    // With no flags the payload is meaningless.
    assert_eq!(
        check::has_enough_orchard_flags(&transaction),
        Err(TransactionError::NotEnoughFlags)
    );

    set_orchard_flags(
        &mut transaction,
        Flags { enable_spends: true, enable_outputs: false },
    );
    assert!(check::has_enough_orchard_flags(&transaction).is_ok());

    set_orchard_flags(
        &mut transaction,
        Flags { enable_spends: false, enable_outputs: true },
    );
    assert!(check::has_enough_orchard_flags(&transaction).is_ok());

    set_orchard_flags(
        &mut transaction,
        Flags { enable_spends: true, enable_outputs: true },
    );
    assert!(check::has_enough_orchard_flags(&transaction).is_ok());
}

#[test]
fn no_orchard_payload_needs_no_flags() {
    let transaction = empty_v5(NetworkUpgrade::Nu5, Height(0));
    assert!(check::has_enough_orchard_flags(&transaction).is_ok());
}

#[test]
fn v5_transaction_with_no_inputs_fails_validation() {
    // Outputs but no inputs of any kind.
    let (_, output, _) = mock_transparent_transfer(Height(10), true, 0);
    let transaction = Transaction::V5 {
        network_upgrade: NetworkUpgrade::Nu5,
        inputs: vec![],
        outputs: vec![output],
        lock_time: LockTime::unlocked(),
        expiry_height: Height(0),
        sapling_shielded_data: None,
        orchard_shielded_data: None,
    };

    assert_eq!(
        check::has_inputs_and_outputs(&transaction),
        Err(TransactionError::NoInputs)
    );
}

#[test]
fn v5_transaction_with_no_outputs_fails_validation() {
    // Inputs but no outputs of any kind.
    let (input, _, _) = mock_transparent_transfer(Height(10), true, 0);
    let transaction = Transaction::V5 {
        network_upgrade: NetworkUpgrade::Nu5,
        inputs: vec![input],
        outputs: vec![],
        lock_time: LockTime::unlocked(),
        expiry_height: Height(0),
        sapling_shielded_data: None,
        orchard_shielded_data: None,
    };

    assert_eq!(
        check::has_inputs_and_outputs(&transaction),
        Err(TransactionError::NoOutputs)
    );
}

#[test]
fn v5_coinbase_transaction_without_enable_spends_flag_passes_validation() {
    let (input, output) = mock_coinbase_transparent_output(Height(1_842_420));
    let mut transaction = Transaction::V5 {
        network_upgrade: NetworkUpgrade::Nu5,
        inputs: vec![input],
        outputs: vec![output],
        lock_time: LockTime::unlocked(),
        expiry_height: Height(1_842_420),
        sapling_shielded_data: None,
        orchard_shielded_data: None,
    };

    insert_fake_orchard_shielded_data(&mut transaction);

    assert!(check::coinbase_tx_no_prevout_joinsplit_spend(&transaction).is_ok());
}

#[test]
fn v5_coinbase_transaction_with_enable_spends_flag_fails_validation() {
    let (input, output) = mock_coinbase_transparent_output(Height(1_842_420));
    let mut transaction = Transaction::V5 {
        network_upgrade: NetworkUpgrade::Nu5,
        inputs: vec![input],
        outputs: vec![output],
        lock_time: LockTime::unlocked(),
        expiry_height: Height(1_842_420),
        sapling_shielded_data: None,
        orchard_shielded_data: None,
    };

    insert_fake_orchard_shielded_data(&mut transaction);
    set_orchard_flags(
        &mut transaction,
        Flags { enable_spends: true, enable_outputs: false },
    );

    assert_eq!(
        check::coinbase_tx_no_prevout_joinsplit_spend(&transaction),
        Err(TransactionError::CoinbaseHasEnableSpendsOrchard)
    );
}

#[test]
fn add_to_sprout_pool_after_nu() {
    let network = Network::Mainnet;
    let block_height = NetworkUpgrade::Canopy.activation_height(network);

    // A coinbase transaction has no join-splits and passes the check.
    let (input, output) = mock_coinbase_transparent_output(block_height);
    let coinbase = Transaction::V4 {
        inputs: vec![input],
        outputs: vec![output],
        lock_time: LockTime::unlocked(),
        expiry_height: block_height,
        joinsplit_data: None,
        sapling_shielded_data: None,
    };
    assert_eq!(
        check::disabled_add_to_sprout_pool(&coinbase, block_height, network),
        Ok(())
    );

    // A transaction without join-splits passes the check.
    let (input, output, _) = mock_transparent_transfer(Height(10), true, 0);
    let no_joinsplits = Transaction::V4 {
        inputs: vec![input],
        outputs: vec![output],
        lock_time: LockTime::unlocked(),
        expiry_height: Height(0),
        joinsplit_data: None,
        sapling_shielded_data: None,
    };
    assert_eq!(no_joinsplits.joinsplit_count(), 0);
    assert_eq!(
        check::disabled_add_to_sprout_pool(&no_joinsplits, block_height, network),
        Ok(())
    );

    // A transaction moving transparent value into the pool fails the check.
    let mut depositing_data = mock_sprout_join_split_data();
    depositing_data.first.vpub_old = Amount::<NonNegative>::try_from(1).expect("one is in range");
    let depositing = Transaction::V4 {
        inputs: vec![],
        outputs: vec![],
        lock_time: LockTime::unlocked(),
        expiry_height: Height(0),
        joinsplit_data: Some(depositing_data),
        sapling_shielded_data: None,
    };
    assert!(depositing.joinsplit_count() > 0);
    assert_eq!(
        check::disabled_add_to_sprout_pool(&depositing, block_height, network),
        Err(TransactionError::DisabledAddToSproutPool)
    );

    // A join-split moving no transparent value into the pool passes.
    let withdrawing = Transaction::V4 {
        inputs: vec![],
        outputs: vec![],
        lock_time: LockTime::unlocked(),
        expiry_height: Height(0),
        joinsplit_data: Some(mock_sprout_join_split_data()),
        sapling_shielded_data: None,
    };
    assert!(withdrawing.joinsplit_count() > 0);
    assert_eq!(
        check::disabled_add_to_sprout_pool(&withdrawing, block_height, network),
        Ok(())
    );

    // Before the disabling upgrade the deposit is still legal.
    let pre_canopy = Height(block_height.0 - 1);
    let mut depositing_data = mock_sprout_join_split_data();
    depositing_data.first.vpub_old = Amount::<NonNegative>::try_from(1).expect("one is in range");
    let depositing = Transaction::V4 {
        inputs: vec![],
        outputs: vec![],
        lock_time: LockTime::unlocked(),
        expiry_height: Height(0),
        joinsplit_data: Some(depositing_data),
        sapling_shielded_data: None,
    };
    assert_eq!(
        check::disabled_add_to_sprout_pool(&depositing, pre_canopy, network),
        Ok(())
    );
}

#[test]
fn decryptable_verdict_decides_from_heartwood() {
    let network = Network::Mainnet;
    let heartwood = NetworkUpgrade::Heartwood.activation_height(network);

    // A coinbase transaction with one Orchard output-side action.
    let (input, output) = mock_coinbase_transparent_output(heartwood);
    let mut transaction = Transaction::V5 {
        network_upgrade: NetworkUpgrade::Nu5,
        inputs: vec![input],
        outputs: vec![output],
        lock_time: LockTime::unlocked(),
        expiry_height: heartwood,
        sapling_shielded_data: None,
        orchard_shielded_data: None,
    };
    insert_fake_orchard_shielded_data(&mut transaction);

    // From the upgrade on, the collaborator's verdict decides.
    assert_eq!(
        check::coinbase_outputs_are_decryptable(&transaction, network, heartwood, true),
        Ok(())
    );
    assert_eq!(
        check::coinbase_outputs_are_decryptable(&transaction, network, heartwood, false),
        Err(TransactionError::CoinbaseOutputsNotDecryptable)
    );

    // Before the upgrade the rule does not apply.
    let before = Height(heartwood.0 - 1);
    assert_eq!(
        check::coinbase_outputs_are_decryptable(&transaction, network, before, false),
        Ok(())
    );
}

#[test]
fn decryptable_check_is_vacuous_without_shielded_outputs() {
    let network = Network::Mainnet;
    let heartwood = NetworkUpgrade::Heartwood.activation_height(network);

    let (input, output) = mock_coinbase_transparent_output(heartwood);
    let transaction = Transaction::V4 {
        inputs: vec![input],
        outputs: vec![output],
        lock_time: LockTime::unlocked(),
        expiry_height: heartwood,
        joinsplit_data: None,
        sapling_shielded_data: None,
    };

    assert_eq!(
        check::coinbase_outputs_are_decryptable(&transaction, network, heartwood, false),
        Ok(())
    );
}

#[test]
fn zero_expiry_height_never_expires() {
    let (input, output, _) = mock_transparent_transfer(Height(10), true, 0);
    let transaction = Transaction::V4 {
        inputs: vec![input],
        outputs: vec![output],
        lock_time: LockTime::unlocked(),
        expiry_height: Height(0),
        joinsplit_data: None,
        sapling_shielded_data: None,
    };

    // A zero expiry height means no expiry at all, whatever the block.
    assert_eq!(
        check::non_coinbase_expiry_height(Height(499_999_999), &transaction),
        Ok(())
    );
}

#[test]
fn empty_transaction_has_no_inputs() {
    let transaction = Transaction::V1 {
        inputs: vec![],
        outputs: vec![],
        lock_time: LockTime::unlocked(),
    };
    assert_eq!(
        check::has_inputs_and_outputs(&transaction),
        Err(TransactionError::NoInputs)
    );
}
