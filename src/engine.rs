use vstd::prelude::*;
use std::collections::HashMap;

use crate::client::Client;
use crate::handlers::{handle_transaction, state_of, EngineState, TransactionError};
use crate::transaction::{ProcessedTransaction, RawTransaction};

verus! {

broadcast use vstd::std_specs::hash::group_hash_axioms;

/// Owns the ledger of accounts and the journal of applied transactions, and
/// applies incoming records to them one at a time, in order.
pub struct Engine {
    transactions: HashMap<u32, ProcessedTransaction>,
    clients: HashMap<u16, Client>,
}

impl View for Engine {
    type V = EngineState;

    closed spec fn view(&self) -> EngineState {
        state_of(self.transactions@, self.clients@)
    }
}

/// Whether `accts` lists exactly the accounts of `ledger` whose id is below
/// `bound`, in increasing order of id.
pub open spec fn lists_accounts(accts: Seq<Client>, ledger: Map<u16, Client>, bound: int) -> bool {
    &&& forall|k: int| #![trigger accts[k]]
        0 <= k < accts.len() ==> {
            &&& accts[k].client_id < bound
            &&& ledger.contains_key(accts[k].client_id)
            &&& ledger[accts[k].client_id] == accts[k]
        }
    &&& forall|j: int, k: int|
        0 <= j < k < accts.len() ==> (#[trigger] accts[j]).client_id < (#[trigger] accts[k]).client_id
    &&& forall|c: u16|
        c < bound && #[trigger] ledger.contains_key(c) ==> exists|k: int|
            0 <= k < accts.len() && (#[trigger] accts[k]).client_id == c
}

impl Engine {
    pub open spec fn wf(&self) -> bool {
        self@.wf()
    }

    /// An engine with no accounts and an empty journal.
    pub fn new() -> (e: Engine)
        ensures
            e@.journal == Map::<u32, ProcessedTransaction>::empty(),
            e@.ledger == Map::<u16, Client>::empty(),
            e.wf(),
    {
        Engine { transactions: HashMap::new(), clients: HashMap::new() }
    }

    /// Applies one record; the outcome says whether it took effect, and why not.
    pub fn process(&mut self, raw_tx: &RawTransaction) -> (r: Result<(), TransactionError>)
        requires
            old(self).wf(),
        ensures
            old(self)@.step(*raw_tx) == (final(self)@, r),
            final(self).wf(),
    {
        handle_transaction(raw_tx, &mut self.transactions, &mut self.clients)
    }

    /// The account of `client_id`, if any record has created it.
    pub fn client(&self, client_id: u16) -> (r: Option<Client>)
        ensures
            r == (if self@.ledger.contains_key(client_id) {
                Some(self@.ledger[client_id])
            } else {
                None::<Client>
            }),
    {
        match self.clients.get(&client_id) {
            Some(c) => Some(*c),
            None => None,
        }
    }

    /// How many deposits and withdrawals the journal holds.
    pub fn journal_len(&self) -> (r: usize)
        ensures
            r == self@.journal.len(),
    {
        self.transactions.len()
    }

    /// The journal entry of `transaction_id`, if it has been applied.
    pub fn transaction(&self, transaction_id: u32) -> (r: Option<ProcessedTransaction>)
        ensures
            r == (if self@.journal.contains_key(transaction_id) {
                Some(self@.journal[transaction_id])
            } else {
                None::<ProcessedTransaction>
            }),
    {
        match self.transactions.get(&transaction_id) {
            Some(t) => Some(*t),
            None => None,
        }
    }

    /// Every account, in increasing order of client id.
    pub fn accounts(&self) -> (r: Vec<Client>)
        requires
            self.wf(),
        ensures
            lists_accounts(r@, self@.ledger, 0x1_0000),
    {
        let mut r: Vec<Client> = Vec::new();
        let mut id: u32 = 0;
        while id < 0x1_0000
            invariant
                id <= 0x1_0000,
                self.wf(),
                lists_accounts(r@, self@.ledger, id as int),
            decreases 0x1_0000 - id,
        {
            let cid = id as u16;
            if let Some(c) = self.clients.get(&cid) {
                let ghost before = r@;
                r.push(*c);
                assert(r@[before.len() as int].client_id == cid);
                assert forall|c2: u16| c2 < id + 1 && #[trigger] self@.ledger.contains_key(c2) implies exists|k: int|
                    0 <= k < r@.len() && (#[trigger] r@[k]).client_id == c2 by {
                    if c2 < id {
                        let k0 = choose|k: int| 0 <= k < before.len() && (#[trigger] before[k]).client_id == c2;
                        assert(r@[k0] == before[k0]);
                    } else {
                        assert(r@[before.len() as int].client_id == c2);
                    }
                }
            }
            id = id + 1;
        }
        r
    }
}

} // verus!
