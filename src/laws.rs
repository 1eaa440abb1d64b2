use vstd::prelude::*;

use crate::client::ClientError;
use crate::handlers::{EngineState, TransactionError};
use crate::transaction::{DisputeStatus, RawTransaction, RawTransactionType};

verus! {

/// Whether a record moves funds, that is, is a deposit or a withdrawal.
pub open spec fn moves_funds(tx: RawTransaction) -> bool {
    tx.transaction_type == RawTransactionType::Deposit || tx.transaction_type
        == RawTransactionType::Withdrawal
}

/// Processing one record keeps the state well formed, in particular
/// `total == available + held` for every account.
pub proof fn lemma_step_preserves_wf(s: EngineState, tx: RawTransaction)
    requires
        s.wf(),
    ensures
        s.step(tx).0.wf(),
{
}

/// Balance invariant: after any stream of records, and so after every record
/// of a stream, every account has `total == available + held`.
pub proof fn law_balance_invariant(s: EngineState, txs: Seq<RawTransaction>)
    requires
        s.wf(),
    ensures
        s.run(txs).wf(),
        forall|c: u16| #[trigger]
            s.run(txs).ledger.contains_key(c) ==> s.run(txs).ledger[c].total as int
                == s.run(txs).ledger[c].available as int + s.run(txs).ledger[c].held as int,
    decreases txs.len(),
{
    if txs.len() > 0 {
        lemma_step_preserves_wf(s, txs[0]);
        law_balance_invariant(s.step(txs[0]).0, txs.drop_first());
    }
}

/// A deposit or withdrawal whose id is already journaled has no monetary
/// effect: the journal and every existing account stay as they were, and the
/// record is refused.
pub proof fn law_journaled_id_has_no_effect(s: EngineState, tx: RawTransaction)
    requires
        s.wf(),
        moves_funds(tx),
        s.journal.contains_key(tx.transaction_id),
    ensures
        s.step(tx).0.journal == s.journal,
        forall|c: u16| #[trigger]
            s.ledger.contains_key(c) ==> s.step(tx).0.ledger.contains_key(c)
                && s.step(tx).0.ledger[c] == s.ledger[c],
        s.step(tx).1.is_err(),
{
}

/// Exactly-once effect: once a deposit or withdrawal has been applied, any
/// later deposit or withdrawal under the same id changes neither the journal
/// nor any account that already existed.
pub proof fn law_replayed_id_applied_once(s: EngineState, first: RawTransaction, again: RawTransaction)
    requires
        s.wf(),
        moves_funds(first),
        moves_funds(again),
        again.transaction_id == first.transaction_id,
        s.step(first).1.is_ok(),
    ensures
        s.step(first).0.step(again).0.journal == s.step(first).0.journal,
        forall|c: u16| #[trigger]
            s.step(first).0.ledger.contains_key(c) ==> s.step(first).0.step(again).0.ledger[c]
                == s.step(first).0.ledger[c],
        s.step(first).0.step(again).1.is_err(),
{
    let s1 = s.step(first).0;
    lemma_step_preserves_wf(s, first);
    law_journaled_id_has_no_effect(s1, again);
}

/// A dispute of an entry that is not `Valid` (already disputed, resolved or
/// charged back) changes nothing and is refused.
pub proof fn law_dispute_needs_valid_entry(s: EngineState, tx: RawTransaction)
    requires
        tx.transaction_type == RawTransactionType::Dispute,
        s.journal.contains_key(tx.transaction_id),
        s.journal[tx.transaction_id].dispute_status != DisputeStatus::Valid,
    ensures
        s.step(tx).0 == s,
        s.step(tx).1.is_err(),
{
}

/// A resolve or a chargeback of an entry that is not `Disputed` changes
/// nothing and is refused.
pub proof fn law_settle_needs_disputed_entry(s: EngineState, tx: RawTransaction)
    requires
        tx.transaction_type == RawTransactionType::Resolve || tx.transaction_type
            == RawTransactionType::Chargeback,
        s.journal.contains_key(tx.transaction_id),
        s.journal[tx.transaction_id].dispute_status != DisputeStatus::Disputed,
    ensures
        s.step(tx).0 == s,
        s.step(tx).1.is_err(),
{
}

/// A locked account is frozen for one record: whatever the record, the
/// account keeps its balances and its lock, and a record on that account
/// adds nothing to the journal.
pub proof fn lemma_locked_account_frozen(s: EngineState, tx: RawTransaction, c: u16)
    requires
        s.wf(),
        s.ledger.contains_key(c),
        s.ledger[c].locked,
    ensures
        s.step(tx).0.ledger.contains_key(c),
        s.step(tx).0.ledger[c] == s.ledger[c],
        tx.client_id == c ==> s.step(tx).0.journal.dom() == s.journal.dom(),
{
}

/// Freeze: once an account is locked, no stream of records changes its
/// balances or its lock, and a stream of records on that account leaves the
/// journal's size as it was.
pub proof fn law_locked_account_frozen(s: EngineState, txs: Seq<RawTransaction>, c: u16)
    requires
        s.wf(),
        s.ledger.contains_key(c),
        s.ledger[c].locked,
    ensures
        s.run(txs).ledger.contains_key(c),
        s.run(txs).ledger[c] == s.ledger[c],
        (forall|i: int| 0 <= i < txs.len() ==> (#[trigger] txs[i]).client_id == c)
            ==> s.run(txs).journal.dom() == s.journal.dom(),
        (forall|i: int| 0 <= i < txs.len() ==> (#[trigger] txs[i]).client_id == c)
            ==> s.run(txs).journal.len() == s.journal.len(),
    decreases txs.len(),
{
    if txs.len() > 0 {
        lemma_step_preserves_wf(s, txs[0]);
        lemma_locked_account_frozen(s, txs[0], c);
        let rest = txs.drop_first();
        if forall|i: int| 0 <= i < txs.len() ==> (#[trigger] txs[i]).client_id == c {
            assert forall|i: int| 0 <= i < rest.len() implies (#[trigger] rest[i]).client_id == c by {
                assert(rest[i] == txs[i + 1]);
            }
        }
        law_locked_account_frozen(s.step(txs[0]).0, rest, c);
    }
}

/// Withdrawal boundary: taking exactly the available balance succeeds and
/// leaves nothing available; taking one unit more is refused for
/// insufficient funds and changes nothing.
pub proof fn law_withdraw_boundary(s: EngineState, tx: RawTransaction)
    requires
        s.wf(),
        tx.transaction_type == RawTransactionType::Withdrawal,
        s.ledger.contains_key(tx.client_id),
        !s.ledger[tx.client_id].locked,
        !s.journal.contains_key(tx.transaction_id),
    ensures
        tx.amount == Some(s.ledger[tx.client_id].available) && s.ledger[tx.client_id].available > 0
            ==> {
            &&& s.step(tx).1 == Ok::<(), TransactionError>(())
            &&& s.step(tx).0.ledger[tx.client_id].available == 0
        },
        tx.amount.is_some() && tx.amount.unwrap() > 0 && tx.amount.unwrap() as int
            == s.ledger[tx.client_id].available + 1 ==> {
            &&& s.step(tx).1 == Err::<(), TransactionError>(
                TransactionError::Client(ClientError::InsufficientFunds),
            )
            &&& s.step(tx).0 == s
        },
{
}

} // verus!
