use vstd::prelude::*;

verus! {

/// Why an operation on a single account was refused.
#[derive(Debug, Clone, Copy, PartialEq, Eq, Structural)]
pub enum ClientError {
    /// The account has been frozen by a chargeback.
    Locked,
    /// A withdrawal asked for more than the available balance.
    InsufficientFunds,
    /// The new balance would not fit in a 64-bit signed integer.
    Overflow,
}

impl ClientError {
    /// A sentence that says why the account refused the operation.
    pub fn message(&self) -> (r: &'static str)
        ensures
            *self == ClientError::Locked ==> r@ == "Account is locked"@,
            *self == ClientError::InsufficientFunds ==> r@ == "Insufficient funds available"@,
            *self == ClientError::Overflow ==> r@ == "Balance would overflow"@,
    {
        match self {
            ClientError::Locked => "Account is locked",
            ClientError::InsufficientFunds => "Insufficient funds available",
            ClientError::Overflow => "Balance would overflow",
        }
    }
}

/// Whether `x` can be held in an `i64`.
pub open spec fn fits_i64(x: int) -> bool {
    i64::MIN <= x <= i64::MAX
}

/// Balances of one client, in fixed-point units of 1/10,000.
#[derive(Debug, Clone, Copy, PartialEq, Eq, Structural)]
pub struct Client {
    pub client_id: u16,
    pub available: i64,
    pub held: i64,
    pub total: i64,
    pub locked: bool,
}

/// Tells the caller whether a state-changing call succeeded: the state after
/// the call is the state before it changed as `r` says.
pub open spec fn outcome_matches(before: Client, after: Client, r: Result<bool, ClientError>, expected: Result<Client, ClientError>) -> bool {
    match expected {
        Ok(c) => r == Ok::<bool, ClientError>(true) && after == c,
        Err(e) => r == Err::<bool, ClientError>(e) && after == before,
    }
}

impl Client {
    /// The balance invariant: the total is what is available plus what is held.
    pub open spec fn wf(&self) -> bool {
        self.total as int == self.available as int + self.held as int
    }

    /// A new, unlocked account with all balances at zero.
    pub fn new(client_id: u16) -> (c: Client)
        ensures
            c.client_id == client_id,
            c.available == 0,
            c.held == 0,
            c.total == 0,
            !c.locked,
            c.wf(),
    {
        Client { client_id, available: 0, held: 0, total: 0, locked: false }
    }

    /// A deposit of `amount`: both `available` and `total` grow by it.
    pub open spec fn deposit_spec(self, amount: int) -> Result<Client, ClientError> {
        if self.locked {
            Err(ClientError::Locked)
        } else if !fits_i64(self.available + amount) || !fits_i64(self.total + amount) {
            Err(ClientError::Overflow)
        } else {
            Ok(Client {
                available: (self.available + amount) as i64,
                total: (self.total + amount) as i64,
                ..self
            })
        }
    }

    /// A withdrawal of `amount`: refused unless `available` covers it; then
    /// both `available` and `total` shrink by it.
    pub open spec fn withdraw_spec(self, amount: int) -> Result<Client, ClientError> {
        if self.locked {
            Err(ClientError::Locked)
        } else if self.available < amount {
            Err(ClientError::InsufficientFunds)
        } else if !fits_i64(self.available - amount) || !fits_i64(self.total - amount) {
            Err(ClientError::Overflow)
        } else {
            Ok(Client {
                available: (self.available - amount) as i64,
                total: (self.total - amount) as i64,
                ..self
            })
        }
    }

    /// A dispute holds `amount`: it moves from `available` to `held`,
    /// even where `available` becomes negative.
    pub open spec fn dispute_spec(self, amount: int) -> Result<Client, ClientError> {
        if self.locked {
            Err(ClientError::Locked)
        } else if !fits_i64(self.available - amount) || !fits_i64(self.held + amount) {
            Err(ClientError::Overflow)
        } else {
            Ok(Client {
                available: (self.available - amount) as i64,
                held: (self.held + amount) as i64,
                ..self
            })
        }
    }

    /// A resolve releases `amount`: it moves from `held` back to `available`.
    pub open spec fn resolve_spec(self, amount: int) -> Result<Client, ClientError> {
        if self.locked {
            Err(ClientError::Locked)
        } else if !fits_i64(self.available + amount) || !fits_i64(self.held - amount) {
            Err(ClientError::Overflow)
        } else {
            Ok(Client {
                available: (self.available + amount) as i64,
                held: (self.held - amount) as i64,
                ..self
            })
        }
    }

    /// A chargeback removes `amount` from `held` and `total` and freezes the
    /// account.
    pub open spec fn chargeback_spec(self, amount: int) -> Result<Client, ClientError> {
        if self.locked {
            Err(ClientError::Locked)
        } else if !fits_i64(self.held - amount) || !fits_i64(self.total - amount) {
            Err(ClientError::Overflow)
        } else {
            Ok(Client {
                held: (self.held - amount) as i64,
                total: (self.total - amount) as i64,
                locked: true,
                ..self
            })
        }
    }

    /// Adds `amount` to the available and total balances.
    pub fn deposit(&mut self, amount: i64) -> (r: Result<bool, ClientError>)
        ensures
            outcome_matches(*old(self), *final(self), r, old(self).deposit_spec(amount as int)),
            old(self).wf() ==> final(self).wf(),
    {
        if self.locked {
            return Err(ClientError::Locked);
        }
        match (self.available.checked_add(amount), self.total.checked_add(amount)) {
            (Some(available), Some(total)) => {
                self.available = available;
                self.total = total;
                Ok(true)
            },
            _ => Err(ClientError::Overflow),
        }
    }

    /// Takes `amount` from the available and total balances, if available
    /// covers it.
    pub fn withdraw(&mut self, amount: i64) -> (r: Result<bool, ClientError>)
        ensures
            outcome_matches(*old(self), *final(self), r, old(self).withdraw_spec(amount as int)),
            old(self).wf() ==> final(self).wf(),
    {
        if self.locked {
            return Err(ClientError::Locked);
        }
        if self.available < amount {
            return Err(ClientError::InsufficientFunds);
        }
        match (self.available.checked_sub(amount), self.total.checked_sub(amount)) {
            (Some(available), Some(total)) => {
                self.available = available;
                self.total = total;
                Ok(true)
            },
            _ => Err(ClientError::Overflow),
        }
    }

    /// Holds `amount`: moves it from available to held.
    pub fn apply_dispute(&mut self, amount: i64) -> (r: Result<bool, ClientError>)
        ensures
            outcome_matches(*old(self), *final(self), r, old(self).dispute_spec(amount as int)),
            old(self).wf() ==> final(self).wf(),
    {
        if self.locked {
            return Err(ClientError::Locked);
        }
        match (self.available.checked_sub(amount), self.held.checked_add(amount)) {
            (Some(available), Some(held)) => {
                self.available = available;
                self.held = held;
                Ok(true)
            },
            _ => Err(ClientError::Overflow),
        }
    }

    /// Releases `amount`: moves it from held back to available.
    pub fn apply_resolve(&mut self, amount: i64) -> (r: Result<bool, ClientError>)
        ensures
            outcome_matches(*old(self), *final(self), r, old(self).resolve_spec(amount as int)),
            old(self).wf() ==> final(self).wf(),
    {
        if self.locked {
            return Err(ClientError::Locked);
        }
        match (self.available.checked_add(amount), self.held.checked_sub(amount)) {
            (Some(available), Some(held)) => {
                self.available = available;
                self.held = held;
                Ok(true)
            },
            _ => Err(ClientError::Overflow),
        }
    }

    /// Charges `amount` back: removes it from held and total, and locks the
    /// account.
    pub fn apply_chargeback(&mut self, amount: i64) -> (r: Result<bool, ClientError>)
        ensures
            outcome_matches(*old(self), *final(self), r, old(self).chargeback_spec(amount as int)),
            old(self).wf() ==> final(self).wf(),
    {
        if self.locked {
            return Err(ClientError::Locked);
        }
        match (self.held.checked_sub(amount), self.total.checked_sub(amount)) {
            (Some(held), Some(total)) => {
                self.held = held;
                self.total = total;
                self.locked = true;
                Ok(true)
            },
            _ => Err(ClientError::Overflow),
        }
    }
}

} // verus!
