use vstd::prelude::*;

verus! {

/// The kind of an incoming record.
#[derive(Debug, Clone, Copy, PartialEq, Eq, Structural)]
pub enum RawTransactionType {
    Deposit,
    Withdrawal,
    Dispute,
    Resolve,
    Chargeback,
}

/// One incoming record, already decoded. `amount` is in fixed-point units of
/// 1/10,000 and is expected only on deposits and withdrawals.
#[derive(Debug, Clone, Copy, PartialEq, Eq, Structural)]
pub struct RawTransaction {
    pub transaction_type: RawTransactionType,
    pub client_id: u16,
    pub transaction_id: u32,
    pub amount: Option<i64>,
}

/// The kind of a journaled transaction: only these move funds.
#[derive(Debug, Clone, Copy, PartialEq, Eq, Structural)]
pub enum ProcessedTransactionType {
    Deposit,
    Withdrawal,
}

/// Where a journaled transaction stands in its dispute lifecycle:
/// `Valid -> Disputed -> Resolved | ChargedBack`.
#[derive(Debug, Clone, Copy, PartialEq, Eq, Structural)]
pub enum DisputeStatus {
    Valid,
    Disputed,
    Resolved,
    ChargedBack,
}

/// A deposit or withdrawal that has been applied, as kept in the journal.
#[derive(Debug, Clone, Copy, PartialEq, Eq, Structural)]
pub struct ProcessedTransaction {
    pub transaction_type: ProcessedTransactionType,
    pub dispute_status: DisputeStatus,
    pub client_id: u16,
    pub transaction_id: u32,
    pub amount: u64,
}

impl ProcessedTransaction {
    /// The journal entry that a freshly applied deposit or withdrawal gets.
    pub open spec fn fresh(
        transaction_id: u32,
        client_id: u16,
        amount: u64,
        transaction_type: ProcessedTransactionType,
    ) -> ProcessedTransaction {
        ProcessedTransaction {
            transaction_type,
            dispute_status: DisputeStatus::Valid,
            client_id,
            transaction_id,
            amount,
        }
    }

    pub fn new(
        transaction_id: u32,
        client_id: u16,
        amount: u64,
        transaction_type: ProcessedTransactionType,
    ) -> (t: ProcessedTransaction)
        ensures
            t == ProcessedTransaction::fresh(transaction_id, client_id, amount, transaction_type),
    {
        ProcessedTransaction {
            transaction_id,
            client_id,
            transaction_type,
            amount,
            dispute_status: DisputeStatus::Valid,
        }
    }
}

} // verus!
