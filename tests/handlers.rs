use std::collections::HashMap;

use payments_engine::client::Client;
use payments_engine::handlers::handle_transaction;
use payments_engine::transaction::{ProcessedTransaction, RawTransaction, RawTransactionType};

/// A decimal amount in fixed-point units of 1/10,000, as the input decoder
/// produces it.
fn fixed(amount: f64) -> i64 {
    (amount * 10_000.0).round() as i64
}

#[test]
fn test_handle_transaction_with_simple_data() {
    let mut transactions: HashMap<u32, ProcessedTransaction> = HashMap::new();
    let mut clients: HashMap<u16, Client> = HashMap::new();

    let sample_transactions = vec![
        RawTransaction {
            transaction_type: RawTransactionType::Deposit,
            client_id: 1,
            transaction_id: 1,
            amount: Some(fixed(1.0)),
        },
        RawTransaction {
            transaction_type: RawTransactionType::Deposit,
            client_id: 2,
            transaction_id: 2,
            amount: Some(fixed(5.0)),
        },
        RawTransaction {
            transaction_type: RawTransactionType::Deposit,
            client_id: 1,
            transaction_id: 3,
            amount: Some(fixed(2.0)),
        },
        RawTransaction {
            transaction_type: RawTransactionType::Withdrawal,
            client_id: 1,
            transaction_id: 4,
            amount: Some(fixed(1.5)),
        },
        RawTransaction {
            transaction_type: RawTransactionType::Withdrawal,
            client_id: 2,
            transaction_id: 5,
            amount: Some(fixed(3.0)),
        },
    ];

    for raw_tx in &sample_transactions {
        let _ = handle_transaction(raw_tx, &mut transactions, &mut clients);
    }

    assert_eq!(clients.len(), 2);
    assert!(clients.contains_key(&1));
    assert!(clients.contains_key(&2));

    let client1 = clients.get(&1).unwrap();
    assert_eq!(client1.available, 15000); // 1.5 * 10000
    assert_eq!(client1.held, 0);
    assert_eq!(client1.total, 15000); // 1.5 * 10000
    assert_eq!(client1.locked, false);

    let client2 = clients.get(&2).unwrap();
    assert_eq!(client2.available, 20000); // 2.0 * 10000
    assert_eq!(client2.held, 0);
    assert_eq!(client2.total, 20000); // 2.0 * 10000
    assert_eq!(client2.locked, false);

    assert_eq!(transactions.len(), 5);
    assert!(transactions.contains_key(&1));
    assert!(transactions.contains_key(&2));
    assert!(transactions.contains_key(&3));
    assert!(transactions.contains_key(&4));
    assert!(transactions.contains_key(&5));
}

#[test]
fn test_handle_transaction_complex_data() {
    let mut transactions: HashMap<u32, ProcessedTransaction> = HashMap::new();
    let mut clients: HashMap<u16, Client> = HashMap::new();

    let complex_transactions = vec![
        RawTransaction {
            transaction_type: RawTransactionType::Deposit,
            client_id: 1,
            transaction_id: 1,
            amount: Some(fixed(1000.0)),
        },
        RawTransaction {
            transaction_type: RawTransactionType::Deposit,
            client_id: 2,
            transaction_id: 4,
            amount: Some(fixed(800.0)),
        },
        RawTransaction {
            transaction_type: RawTransactionType::Deposit,
            client_id: 3,
            transaction_id: 7,
            amount: Some(fixed(600.0)),
        },
        RawTransaction {
            transaction_type: RawTransactionType::Deposit,
            client_id: 1,
            transaction_id: 2,
            amount: Some(fixed(500.0)),
        },
        RawTransaction {
            transaction_type: RawTransactionType::Deposit,
            client_id: 2,
            transaction_id: 5,
            amount: Some(fixed(400.0)),
        },
        RawTransaction {
            transaction_type: RawTransactionType::Deposit,
            client_id: 3,
            transaction_id: 8,
            amount: Some(fixed(300.0)),
        },
        RawTransaction {
            transaction_type: RawTransactionType::Withdrawal,
            client_id: 1,
            transaction_id: 3,
            amount: Some(fixed(200.0)),
        },
        RawTransaction {
            transaction_type: RawTransactionType::Withdrawal,
            client_id: 2,
            transaction_id: 6,
            amount: Some(fixed(100.0)),
        },
        RawTransaction {
            transaction_type: RawTransactionType::Withdrawal,
            client_id: 3,
            transaction_id: 9,
            amount: Some(fixed(150.0)),
        },
        RawTransaction {
            transaction_type: RawTransactionType::Dispute,
            client_id: 1,
            transaction_id: 1,
            amount: None,
        },
        RawTransaction {
            transaction_type: RawTransactionType::Dispute,
            client_id: 2,
            transaction_id: 4,
            amount: None,
        },
        RawTransaction {
            transaction_type: RawTransactionType::Dispute,
            client_id: 3,
            transaction_id: 7,
            amount: None,
        },
        RawTransaction {
            transaction_type: RawTransactionType::Dispute,
            client_id: 1,
            transaction_id: 2,
            amount: None,
        },
        RawTransaction {
            transaction_type: RawTransactionType::Dispute,
            client_id: 3,
            transaction_id: 8,
            amount: None,
        },
        RawTransaction {
            transaction_type: RawTransactionType::Resolve,
            client_id: 1,
            transaction_id: 2,
            amount: None,
        },
        RawTransaction {
            transaction_type: RawTransactionType::Resolve,
            client_id: 3,
            transaction_id: 7,
            amount: None,
        },
        RawTransaction {
            transaction_type: RawTransactionType::Chargeback,
            client_id: 2,
            transaction_id: 4,
            amount: None,
        },
    ];

    for raw_tx in &complex_transactions {
        let _ = handle_transaction(raw_tx, &mut transactions, &mut clients);
    }

    assert_eq!(clients.len(), 3);
    assert!(clients.contains_key(&1));
    assert!(clients.contains_key(&2));
    assert!(clients.contains_key(&3));

    // Client 1 has one unresolved dispute (tx1 = 1000 held), tx2 was resolved
    // We expect: available=300, held=1000, total=1300, locked=false
    let client1 = clients.get(&1).unwrap();
    assert_eq!(client1.available, 3000000); // 300.0 * 10000
    assert_eq!(client1.held, 10000000); // 1000.0 * 10000
    assert_eq!(client1.total, 13000000); // 1300.0 * 10000
    assert_eq!(client1.locked, false);

    // Client 2 has chargeback on tx4 so account should be locked
    // We expect available=300, held=0, total=300, locked=true
    let client2 = clients.get(&2).unwrap();
    assert_eq!(client2.available, 3000000); // 300.0 * 10000
    assert_eq!(client2.held, 0);
    assert_eq!(client2.total, 3000000); // 300.0 * 10000
    assert_eq!(client2.locked, true);

    // Client 3 has one unresolved dispute (tx8 = 300 held), tx7 was resolved
    // Expected: available=450, held=300, total=750, locked=false
    let client3 = clients.get(&3).unwrap();
    assert_eq!(client3.available, 4500000); // 450.0 * 10000
    assert_eq!(client3.held, 3000000); // 300.0 * 10000
    assert_eq!(client3.total, 7500000); // 750.0 * 10000
    assert_eq!(client3.locked, false);

    assert_eq!(transactions.len(), 9);
}

#[test]
fn test_locked_account_rejects_operations() {
    let mut transactions: HashMap<u32, ProcessedTransaction> = HashMap::new();
    let mut clients: HashMap<u16, Client> = HashMap::new();

    let initial_transactions = vec![
        RawTransaction {
            transaction_type: RawTransactionType::Deposit,
            client_id: 1,
            transaction_id: 1,
            amount: Some(fixed(1000.0)),
        },
        RawTransaction {
            transaction_type: RawTransactionType::Dispute,
            client_id: 1,
            transaction_id: 1,
            amount: None,
        },
        RawTransaction {
            transaction_type: RawTransactionType::Chargeback,
            client_id: 1,
            transaction_id: 1,
            amount: None,
        },
    ];

    for raw_tx in &initial_transactions {
        let _ = handle_transaction(raw_tx, &mut transactions, &mut clients);
    }

    let client = clients.get(&1).unwrap();
    assert_eq!(client.locked, true);

    let available_before = client.available;
    let held_before = client.held;
    let total_before = client.total;
    let tx_count_before = transactions.len();

    let forbidden_transactions = vec![
        RawTransaction {
            transaction_type: RawTransactionType::Deposit,
            client_id: 1,
            transaction_id: 2,
            amount: Some(fixed(500.0)),
        },
        RawTransaction {
            transaction_type: RawTransactionType::Withdrawal,
            client_id: 1,
            transaction_id: 3,
            amount: Some(fixed(100.0)),
        },
        RawTransaction {
            transaction_type: RawTransactionType::Dispute,
            client_id: 1,
            transaction_id: 1,
            amount: None,
        },
        RawTransaction {
            transaction_type: RawTransactionType::Resolve,
            client_id: 1,
            transaction_id: 1,
            amount: None,
        },
    ];

    for raw_tx in &forbidden_transactions {
        let _ = handle_transaction(raw_tx, &mut transactions, &mut clients);
    }

    let client_after = clients.get(&1).unwrap();
    assert_eq!(
        client_after.available, available_before,
        "Available balance changed on locked account"
    );
    assert_eq!(
        client_after.held, held_before,
        "Held balance changed on locked account"
    );
    assert_eq!(
        client_after.total, total_before,
        "Total balance changed on locked account"
    );
    assert_eq!(client_after.locked, true, "Account should still be locked");

    assert_eq!(
        transactions.len(),
        tx_count_before,
        "Forbidden transactions were processed when they should have been rejected"
    );
}
