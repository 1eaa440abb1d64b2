use vstd::prelude::*;
use std::collections::HashMap;

use crate::client::{Client, ClientError};
use crate::transaction::{
    DisputeStatus, ProcessedTransaction, ProcessedTransactionType, RawTransaction,
    RawTransactionType,
};

verus! {

broadcast use vstd::std_specs::hash::group_hash_axioms;

/// Why an incoming record was not applied. None of these stops processing:
/// the record is skipped and the ledger and journal stay as they were, but
/// for an account that a deposit or withdrawal creates on first reference.
#[derive(Debug, Clone, Copy, PartialEq, Eq, Structural)]
pub enum TransactionError {
    /// A deposit or withdrawal without a positive amount.
    InvalidAmount,
    /// A dispute, resolve or chargeback names a client that has no account.
    UnknownClient,
    /// A dispute, resolve or chargeback names a transaction not in the journal.
    UnknownTransaction,
    /// A deposit or withdrawal reuses a transaction id already journaled.
    DuplicateTransaction,
    /// The journaled transaction is not in the state the operation starts from.
    InvalidState,
    /// The account refused the operation.
    Client(ClientError),
}

/// The ledger of accounts and the journal of applied deposits and
/// withdrawals, as mathematical maps.
pub struct EngineState {
    pub journal: Map<u32, ProcessedTransaction>,
    pub ledger: Map<u16, Client>,
}

/// The account that a record for an unknown client starts from.
pub open spec fn zeroed(client_id: u16) -> Client {
    Client { client_id, available: 0, held: 0, total: 0, locked: false }
}

impl EngineState {
    /// Every account keeps `total == available + held` and is filed under its
    /// own id; every journal entry is filed under its own id, carries a
    /// positive amount that fits an `i64`, and belongs to a known account.
    pub open spec fn wf(self) -> bool {
        &&& forall|c: u16| #[trigger]
            self.ledger.contains_key(c) ==> self.ledger[c].wf() && self.ledger[c].client_id == c
        &&& forall|id: u32| #[trigger]
            self.journal.contains_key(id) ==> {
                let e = self.journal[id];
                &&& e.transaction_id == id
                &&& 0 < e.amount <= i64::MAX
                &&& self.ledger.contains_key(e.client_id)
            }
    }

    /// The ledger with an account for `client_id`, created zeroed if absent.
    pub open spec fn with_account(self, client_id: u16) -> EngineState {
        if self.ledger.contains_key(client_id) {
            self
        } else {
            EngineState { ledger: self.ledger.insert(client_id, zeroed(client_id)), ..self }
        }
    }

    /// A deposit or withdrawal: account created on first reference; a
    /// reused id has no effect; otherwise the account operation decides, and
    /// on success the transaction is journaled as `Valid`.
    pub open spec fn move_funds(self, tx: RawTransaction, kind: ProcessedTransactionType) -> (
        EngineState,
        Result<(), TransactionError>,
    ) {
        match tx.amount {
            Some(amount) if amount > 0 => {
                let s = self.with_account(tx.client_id);
                let acct = s.ledger[tx.client_id];
                if s.journal.contains_key(tx.transaction_id) {
                    (s, Err(TransactionError::DuplicateTransaction))
                } else {
                    let outcome = match kind {
                        ProcessedTransactionType::Deposit => acct.deposit_spec(amount as int),
                        ProcessedTransactionType::Withdrawal => acct.withdraw_spec(amount as int),
                    };
                    match outcome {
                        Err(e) => (s, Err(TransactionError::Client(e))),
                        Ok(acct2) => (
                            EngineState {
                                journal: s.journal.insert(
                                    tx.transaction_id,
                                    ProcessedTransaction::fresh(
                                        tx.transaction_id,
                                        tx.client_id,
                                        amount as u64,
                                        kind,
                                    ),
                                ),
                                ledger: s.ledger.insert(tx.client_id, acct2),
                            },
                            Ok(()),
                        ),
                    }
                }
            },
            _ => (self, Err(TransactionError::InvalidAmount)),
        }
    }

    /// The journal entry that a dispute, resolve or chargeback acts on, if
    /// the client and the transaction are known and the entry is in state
    /// `from`.
    pub open spec fn lookup_entry(self, tx: RawTransaction, from: DisputeStatus) -> Result<
        ProcessedTransaction,
        TransactionError,
    > {
        if !self.ledger.contains_key(tx.client_id) {
            Err(TransactionError::UnknownClient)
        } else if !self.journal.contains_key(tx.transaction_id) {
            Err(TransactionError::UnknownTransaction)
        } else if self.journal[tx.transaction_id].dispute_status != from {
            Err(TransactionError::InvalidState)
        } else {
            Ok(self.journal[tx.transaction_id])
        }
    }

    /// A dispute lifecycle step: from state `from` to state `to`, applying
    /// the account operation of `to` to the account that owns the entry.
    pub open spec fn transition(self, tx: RawTransaction, from: DisputeStatus, to: DisputeStatus) -> (
        EngineState,
        Result<(), TransactionError>,
    ) {
        match self.lookup_entry(tx, from) {
            Err(e) => (self, Err(e)),
            Ok(entry) => {
                let owner = self.ledger[entry.client_id];
                let outcome = match to {
                    DisputeStatus::Disputed => owner.dispute_spec(entry.amount as int),
                    DisputeStatus::Resolved => owner.resolve_spec(entry.amount as int),
                    _ => owner.chargeback_spec(entry.amount as int),
                };
                match outcome {
                    Err(e) => (self, Err(TransactionError::Client(e))),
                    Ok(owner2) => (
                        EngineState {
                            journal: self.journal.insert(
                                tx.transaction_id,
                                ProcessedTransaction { dispute_status: to, ..entry },
                            ),
                            ledger: self.ledger.insert(entry.client_id, owner2),
                        },
                        Ok(()),
                    ),
                }
            },
        }
    }

    /// What processing one record does: the state after it and the outcome.
    pub open spec fn step(self, tx: RawTransaction) -> (EngineState, Result<(), TransactionError>) {
        match tx.transaction_type {
            RawTransactionType::Deposit => self.move_funds(tx, ProcessedTransactionType::Deposit),
            RawTransactionType::Withdrawal => self.move_funds(
                tx,
                ProcessedTransactionType::Withdrawal,
            ),
            RawTransactionType::Dispute => self.transition(
                tx,
                DisputeStatus::Valid,
                DisputeStatus::Disputed,
            ),
            RawTransactionType::Resolve => self.transition(
                tx,
                DisputeStatus::Disputed,
                DisputeStatus::Resolved,
            ),
            RawTransactionType::Chargeback => self.transition(
                tx,
                DisputeStatus::Disputed,
                DisputeStatus::ChargedBack,
            ),
        }
    }

    /// What processing a stream of records does, in order.
    pub open spec fn run(self, txs: Seq<RawTransaction>) -> EngineState
        decreases txs.len(),
    {
        if txs.len() == 0 {
            self
        } else {
            self.step(txs[0]).0.run(txs.drop_first())
        }
    }
}

/// The state that the two maps hold.
pub open spec fn state_of(
    transactions: Map<u32, ProcessedTransaction>,
    clients: Map<u16, Client>,
) -> EngineState {
    EngineState { journal: transactions, ledger: clients }
}

/// Applies one record to the journal and the ledger, dispatching on its kind.
pub fn handle_transaction(
    raw_tx: &RawTransaction,
    transactions: &mut HashMap<u32, ProcessedTransaction>,
    clients: &mut HashMap<u16, Client>,
) -> (r: Result<(), TransactionError>)
    requires
        state_of(old(transactions)@, old(clients)@).wf(),
    ensures
        state_of(old(transactions)@, old(clients)@).step(*raw_tx) == (
        state_of(final(transactions)@, final(clients)@),
        r,
        ),
        state_of(final(transactions)@, final(clients)@).wf(),
{
    match raw_tx.transaction_type {
        RawTransactionType::Deposit => handle_deposit(raw_tx, transactions, clients),
        RawTransactionType::Withdrawal => handle_withdrawal(raw_tx, transactions, clients),
        RawTransactionType::Dispute => handle_dispute(raw_tx, transactions, clients),
        RawTransactionType::Resolve => handle_resolve(raw_tx, transactions, clients),
        RawTransactionType::Chargeback => handle_chargeback(raw_tx, transactions, clients),
    }
}

/// Makes sure `clients` has an account for `client_id`, creating a zeroed one.
fn ensure_account(clients: &mut HashMap<u16, Client>, client_id: u16)
    ensures
        final(clients)@ == (if old(clients)@.contains_key(client_id) {
            old(clients)@
        } else {
            old(clients)@.insert(client_id, zeroed(client_id))
        }),
{
    if !clients.contains_key(&client_id) {
        clients.insert(client_id, Client::new(client_id));
    }
}

/// Credits a deposit to its client, creating the account on first
/// reference, and journals it; a reused id is refused before any effect.
fn handle_deposit(
    raw_tx: &RawTransaction,
    transactions: &mut HashMap<u32, ProcessedTransaction>,
    clients: &mut HashMap<u16, Client>,
) -> (r: Result<(), TransactionError>)
    requires
        raw_tx.transaction_type == RawTransactionType::Deposit,
        state_of(old(transactions)@, old(clients)@).wf(),
    ensures
        state_of(old(transactions)@, old(clients)@).step(*raw_tx) == (
        state_of(final(transactions)@, final(clients)@),
        r,
        ),
        state_of(final(transactions)@, final(clients)@).wf(),
{
    let amount = match raw_tx.amount {
        Some(a) => a,
        None => return Err(TransactionError::InvalidAmount),
    };
    if amount <= 0 {
        return Err(TransactionError::InvalidAmount);
    }
    ensure_account(clients, raw_tx.client_id);
    if transactions.contains_key(&raw_tx.transaction_id) {
        return Err(TransactionError::DuplicateTransaction);
    }
    let mut client = *clients.get(&raw_tx.client_id).unwrap();
    if let Err(e) = client.deposit(amount) {
        return Err(TransactionError::Client(e));
    }
    clients.insert(raw_tx.client_id, client);
    let entry = ProcessedTransaction::new(
        raw_tx.transaction_id,
        raw_tx.client_id,
        amount as u64,
        ProcessedTransactionType::Deposit,
    );
    transactions.insert(raw_tx.transaction_id, entry);
    Ok(())
}

/// Debits a withdrawal from its client when the available balance covers
/// it, creating the account on first reference, and journals it; a reused id
/// is refused before any effect.
fn handle_withdrawal(
    raw_tx: &RawTransaction,
    transactions: &mut HashMap<u32, ProcessedTransaction>,
    clients: &mut HashMap<u16, Client>,
) -> (r: Result<(), TransactionError>)
    requires
        raw_tx.transaction_type == RawTransactionType::Withdrawal,
        state_of(old(transactions)@, old(clients)@).wf(),
    ensures
        state_of(old(transactions)@, old(clients)@).step(*raw_tx) == (
        state_of(final(transactions)@, final(clients)@),
        r,
        ),
        state_of(final(transactions)@, final(clients)@).wf(),
{
    let amount = match raw_tx.amount {
        Some(a) => a,
        None => return Err(TransactionError::InvalidAmount),
    };
    if amount <= 0 {
        return Err(TransactionError::InvalidAmount);
    }
    ensure_account(clients, raw_tx.client_id);
    if transactions.contains_key(&raw_tx.transaction_id) {
        return Err(TransactionError::DuplicateTransaction);
    }
    let mut client = *clients.get(&raw_tx.client_id).unwrap();
    if let Err(e) = client.withdraw(amount) {
        return Err(TransactionError::Client(e));
    }
    clients.insert(raw_tx.client_id, client);
    let entry = ProcessedTransaction::new(
        raw_tx.transaction_id,
        raw_tx.client_id,
        amount as u64,
        ProcessedTransactionType::Withdrawal,
    );
    transactions.insert(raw_tx.transaction_id, entry);
    Ok(())
}

/// Looks up the journal entry that a dispute, resolve or chargeback names,
/// checking that its client is known and that it stands in state `from`.
fn find_entry(
    raw_tx: &RawTransaction,
    transactions: &HashMap<u32, ProcessedTransaction>,
    clients: &HashMap<u16, Client>,
    from: DisputeStatus,
) -> (r: Result<ProcessedTransaction, TransactionError>)
    ensures
        r == state_of(transactions@, clients@).lookup_entry(*raw_tx, from),
{
    if !clients.contains_key(&raw_tx.client_id) {
        return Err(TransactionError::UnknownClient);
    }
    match transactions.get(&raw_tx.transaction_id) {
        None => Err(TransactionError::UnknownTransaction),
        Some(entry) => {
            if entry.dispute_status != from {
                Err(TransactionError::InvalidState)
            } else {
                Ok(*entry)
            }
        },
    }
}

/// Puts a `Valid` entry on hold: its amount moves from the owner's available
/// balance to the held balance.
fn handle_dispute(
    raw_tx: &RawTransaction,
    transactions: &mut HashMap<u32, ProcessedTransaction>,
    clients: &mut HashMap<u16, Client>,
) -> (r: Result<(), TransactionError>)
    requires
        raw_tx.transaction_type == RawTransactionType::Dispute,
        state_of(old(transactions)@, old(clients)@).wf(),
    ensures
        state_of(old(transactions)@, old(clients)@).step(*raw_tx) == (
        state_of(final(transactions)@, final(clients)@),
        r,
        ),
        state_of(final(transactions)@, final(clients)@).wf(),
{
    let entry = find_entry(raw_tx, transactions, clients, DisputeStatus::Valid)?;
    let mut owner = *clients.get(&entry.client_id).unwrap();
    if let Err(e) = owner.apply_dispute(entry.amount as i64) {
        return Err(TransactionError::Client(e));
    }
    clients.insert(entry.client_id, owner);
    transactions.insert(
        raw_tx.transaction_id,
        ProcessedTransaction { dispute_status: DisputeStatus::Disputed, ..entry },
    );
    Ok(())
}

/// Releases a `Disputed` entry: its amount moves back from held to
/// available.
fn handle_resolve(
    raw_tx: &RawTransaction,
    transactions: &mut HashMap<u32, ProcessedTransaction>,
    clients: &mut HashMap<u16, Client>,
) -> (r: Result<(), TransactionError>)
    requires
        raw_tx.transaction_type == RawTransactionType::Resolve,
        state_of(old(transactions)@, old(clients)@).wf(),
    ensures
        state_of(old(transactions)@, old(clients)@).step(*raw_tx) == (
        state_of(final(transactions)@, final(clients)@),
        r,
        ),
        state_of(final(transactions)@, final(clients)@).wf(),
{
    let entry = find_entry(raw_tx, transactions, clients, DisputeStatus::Disputed)?;
    let mut owner = *clients.get(&entry.client_id).unwrap();
    if let Err(e) = owner.apply_resolve(entry.amount as i64) {
        return Err(TransactionError::Client(e));
    }
    clients.insert(entry.client_id, owner);
    transactions.insert(
        raw_tx.transaction_id,
        ProcessedTransaction { dispute_status: DisputeStatus::Resolved, ..entry },
    );
    Ok(())
}

/// Reverses a `Disputed` entry: its amount leaves the held and total
/// balances and the owner's account is locked.
fn handle_chargeback(
    raw_tx: &RawTransaction,
    transactions: &mut HashMap<u32, ProcessedTransaction>,
    clients: &mut HashMap<u16, Client>,
) -> (r: Result<(), TransactionError>)
    requires
        raw_tx.transaction_type == RawTransactionType::Chargeback,
        state_of(old(transactions)@, old(clients)@).wf(),
    ensures
        state_of(old(transactions)@, old(clients)@).step(*raw_tx) == (
        state_of(final(transactions)@, final(clients)@),
        r,
        ),
        state_of(final(transactions)@, final(clients)@).wf(),
{
    let entry = find_entry(raw_tx, transactions, clients, DisputeStatus::Disputed)?;
    let mut owner = *clients.get(&entry.client_id).unwrap();
    if let Err(e) = owner.apply_chargeback(entry.amount as i64) {
        return Err(TransactionError::Client(e));
    }
    clients.insert(entry.client_id, owner);
    transactions.insert(
        raw_tx.transaction_id,
        ProcessedTransaction { dispute_status: DisputeStatus::ChargedBack, ..entry },
    );
    Ok(())
}

} // verus!
