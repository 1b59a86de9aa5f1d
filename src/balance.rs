use vstd::prelude::*;

use crate::amount::{fits, units_of_text, MonetaryAmount};
use crate::error::LedgerError;
use crate::transaction::TransactionType;

verus! {

/// The model of a client balance; amounts in ten-thousandths.
pub ghost struct BalanceView {
    pub client: u16,
    pub available: int,
    pub held: int,
    pub total: int,
    pub locked: bool,
}

impl BalanceView {
    /// The balance invariant: the total is what is available plus what is
    /// held, nothing is negative, and the total is within range.
    pub open spec fn wf(self) -> bool {
        &&& self.total == self.available + self.held
        &&& self.available >= 0
        &&& self.held >= 0
        &&& fits(self.total)
    }

    /// The fields after an operation of `kind` with amount `a`, before any
    /// check.
    pub open spec fn applied(self, kind: TransactionType, a: int) -> BalanceView {
        match kind {
            TransactionType::Deposit => BalanceView {
                available: self.available + a,
                total: self.total + a,
                ..self
            },
            TransactionType::Withdrawal => BalanceView {
                available: self.available - a,
                total: self.total - a,
                ..self
            },
            TransactionType::Dispute => BalanceView {
                available: self.available - a,
                held: self.held + a,
                ..self
            },
            TransactionType::Resolve => BalanceView {
                held: self.held - a,
                available: self.available + a,
                ..self
            },
            TransactionType::Chargeback => BalanceView {
                held: self.held - a,
                total: self.total - a,
                locked: true,
                ..self
            },
        }
    }

    /// Whether every field is within the range of a monetary amount.
    pub open spec fn in_range(self) -> bool {
        fits(self.available) && fits(self.held) && fits(self.total)
    }

    /// Whether no field is negative.
    pub open spec fn nonnegative(self) -> bool {
        self.available >= 0 && self.held >= 0 && self.total >= 0
    }

    /// Whether an operation of `kind` with amount `a` is committed.
    pub open spec fn admits(self, kind: TransactionType, a: int) -> bool {
        &&& !self.locked
        &&& self.applied(kind, a).in_range()
        &&& self.applied(kind, a).nonnegative()
    }

    /// Whether an operation of `kind` with amount `a` takes more than the
    /// field that the amount leaves holds: available for a withdrawal or a
    /// dispute, held for a resolve or a chargeback. This is checked before
    /// any range.
    pub open spec fn debit_short(self, kind: TransactionType, a: int) -> bool {
        match kind {
            TransactionType::Deposit => false,
            TransactionType::Withdrawal => self.available - a < 0,
            TransactionType::Dispute => self.available - a < 0,
            TransactionType::Resolve => self.held - a < 0,
            TransactionType::Chargeback => self.held - a < 0,
        }
    }

    /// The field reported when an operation of `kind` with amount `a` would
    /// leave a field negative.
    pub open spec fn shortfall(self, kind: TransactionType, a: int) -> int {
        match kind {
            TransactionType::Deposit => self.available,
            TransactionType::Withdrawal => self.available,
            TransactionType::Dispute => if self.available - a < 0 {
                self.available
            } else {
                self.held
            },
            TransactionType::Resolve => if self.held - a < 0 {
                self.held
            } else {
                self.available
            },
            TransactionType::Chargeback => self.held,
        }
    }

    /// The balance after an operation of `kind` with amount `a`: changed
    /// where the operation is committed, unchanged where it is rejected.
    pub open spec fn after(self, kind: TransactionType, a: int) -> BalanceView {
        if self.admits(kind, a) {
            self.applied(kind, a)
        } else {
            self
        }
    }
}

/// What an operation of `kind` with amount `a` does: `new` is `old` with
/// the operation applied where it is committed, `old` itself where not, and
/// `r` is the error that rejects it. A locked account comes first, then a
/// field that the amount leaves going short, then a field leaving the range,
/// then any other field going negative.
pub open spec fn outcome(
    old: BalanceView,
    new: BalanceView,
    kind: TransactionType,
    a: int,
    r: Result<(), LedgerError>,
) -> bool {
    &&& r is Ok <==> old.admits(kind, a)
    &&& new == old.after(kind, a)
    &&& old.locked ==> r == Err::<(), LedgerError>(LedgerError::AccountLocked(old.client))
    &&& !old.locked && !old.debit_short(kind, a) && !old.applied(kind, a).in_range() ==> r
        == Err::<(), LedgerError>(LedgerError::ValueOverflow)
    &&& !old.locked && (old.debit_short(kind, a) || (old.applied(kind, a).in_range()
        && !old.applied(kind, a).nonnegative())) ==> (r matches Err(LedgerError::InsufficientFunds { amount: x, balance: y }) && x@ == a
        && y@ == old.shortfall(kind, a))
}

/// What an operation of `kind` with the amount text `text` does: the text
/// is read only on an unlocked balance, and an unreadable amount rejects
/// the operation.
pub open spec fn text_outcome(
    old: BalanceView,
    new: BalanceView,
    kind: TransactionType,
    text: Seq<char>,
    r: Result<(), LedgerError>,
) -> bool {
    match units_of_text(text) {
        Some(a) => outcome(old, new, kind, a, r),
        None => {
            &&& new == old
            &&& r == if old.locked {
                Err::<(), LedgerError>(LedgerError::AccountLocked(old.client))
            } else {
                Err::<(), LedgerError>(LedgerError::InvalidAmount)
            }
        },
    }
}

/// Every operation keeps the balance invariant: a committed one leaves the
/// total equal to available plus held with nothing negative, and a rejected
/// one leaves the balance as it was.
pub proof fn lemma_operation_keeps_invariant(b: BalanceView, kind: TransactionType, a: int)
    requires
        b.wf(),
    ensures
        b.after(kind, a).wf(),
        b.after(kind, a).nonnegative(),
        b.after(kind, a).client == b.client,
{
}

/// Once a balance is locked, every operation on it is rejected and changes
/// none of its fields.
pub proof fn lemma_locked_balance_frozen(b: BalanceView, kind: TransactionType, a: int)
    requires
        b.locked,
    ensures
        !b.admits(kind, a),
        b.after(kind, a) == b,
{
}

/// A committed chargeback locks the balance.
pub proof fn lemma_chargeback_locks(b: BalanceView, a: int)
    requires
        b.admits(TransactionType::Chargeback, a),
    ensures
        b.after(TransactionType::Chargeback, a).locked,
{
}

/// The funds of one client: available, held, their total, and whether the
/// account is locked.
#[derive(Debug, Clone, Copy, PartialEq, Eq, Structural)]
pub struct ClientBalance {
    client: u16,
    available: MonetaryAmount,
    held: MonetaryAmount,
    total: MonetaryAmount,
    locked: bool,
}

impl View for ClientBalance {
    type V = BalanceView;

    closed spec fn view(&self) -> BalanceView {
        BalanceView {
            client: self.client,
            available: self.available@,
            held: self.held@,
            total: self.total@,
            locked: self.locked,
        }
    }
}

impl ClientBalance {
    /// The balance invariant.
    pub open spec fn wf(self) -> bool {
        self@.wf()
    }

    /// An all-zero, unlocked balance for `client`.
    pub fn new(client: u16) -> (r: Self)
        ensures
            r@ == (BalanceView { client, available: 0, held: 0, total: 0, locked: false }),
            r.wf(),
    {
        ClientBalance {
            client,
            available: MonetaryAmount::zero(),
            held: MonetaryAmount::zero(),
            total: MonetaryAmount::zero(),
            locked: false,
        }
    }

    /// The client id.
    pub fn client(&self) -> (r: &u16)
        ensures
            *r == self@.client,
    {
        &self.client
    }

    /// The funds that may be withdrawn.
    pub fn available(&self) -> (r: &MonetaryAmount)
        ensures
            r@ == self@.available,
            self.wf() ==> r.wf(),
    {
        &self.available
    }

    /// The funds held by disputes.
    pub fn held(&self) -> (r: &MonetaryAmount)
        ensures
            r@ == self@.held,
            self.wf() ==> r.wf(),
    {
        &self.held
    }

    /// Available plus held.
    pub fn total(&self) -> (r: &MonetaryAmount)
        ensures
            r@ == self@.total,
            self.wf() ==> r.wf(),
    {
        &self.total
    }

    /// Whether a chargeback has locked the account.
    pub fn locked(&self) -> (r: &bool)
        ensures
            *r == self@.locked,
    {
        &self.locked
    }

    fn validate_is_unlocked(&self) -> (r: Result<(), LedgerError>)
        ensures
            r == if self@.locked {
                Err::<(), LedgerError>(LedgerError::AccountLocked(self@.client))
            } else {
                Ok::<(), LedgerError>(())
            },
    {
        if self.locked {
            return Err(LedgerError::AccountLocked(self.client));
        }
        Ok(())
    }

    /// Adds `amount` to what is available and to the total.
    pub fn deposit_amount(&mut self, amount: MonetaryAmount) -> (r: Result<(), LedgerError>)
        requires
            old(self).wf(),
            amount.wf(),
        ensures
            final(self).wf(),
            outcome(old(self)@, final(self)@, TransactionType::Deposit, amount@, r),
            r is Err ==> *final(self) == *old(self),
    {
        self.validate_is_unlocked()?;
        let available = match self.available.checked_add(&amount) {
            Some(v) => v,
            None => return Err(LedgerError::ValueOverflow),
        };
        let total = match self.total.checked_add(&amount) {
            Some(v) => v,
            None => return Err(LedgerError::ValueOverflow),
        };
        if available.is_negative() {
            return Err(LedgerError::InsufficientFunds { amount, balance: self.available });
        }
        self.available = available;
        self.total = total;
        Ok(())
    }

    /// Takes `amount` from what is available and from the total.
    pub fn withdraw_amount(&mut self, amount: MonetaryAmount) -> (r: Result<(), LedgerError>)
        requires
            old(self).wf(),
            amount.wf(),
        ensures
            final(self).wf(),
            outcome(old(self)@, final(self)@, TransactionType::Withdrawal, amount@, r),
            r is Err ==> *final(self) == *old(self),
    {
        self.validate_is_unlocked()?;
        let available = match self.available.checked_sub(&amount) {
            Some(v) => v,
            None => return Err(LedgerError::ValueOverflow),
        };
        let total = match self.total.checked_sub(&amount) {
            Some(v) => v,
            None => return Err(LedgerError::ValueOverflow),
        };
        if available.is_negative() || total.is_negative() {
            return Err(LedgerError::InsufficientFunds { amount, balance: self.available });
        }
        self.available = available;
        self.total = total;
        Ok(())
    }

    /// Moves `amount` from what is available to what is held.
    pub fn dispute_amount(&mut self, amount: MonetaryAmount) -> (r: Result<(), LedgerError>)
        requires
            old(self).wf(),
            amount.wf(),
        ensures
            final(self).wf(),
            outcome(old(self)@, final(self)@, TransactionType::Dispute, amount@, r),
            r is Err ==> *final(self) == *old(self),
    {
        self.validate_is_unlocked()?;
        let available = match self.available.checked_sub(&amount) {
            Some(v) => v,
            None => return Err(LedgerError::ValueOverflow),
        };
        if available.is_negative() {
            return Err(LedgerError::InsufficientFunds { amount, balance: self.available });
        }
        let held = match self.held.checked_add(&amount) {
            Some(v) => v,
            None => return Err(LedgerError::ValueOverflow),
        };
        if held.is_negative() {
            return Err(LedgerError::InsufficientFunds { amount, balance: self.held });
        }
        self.available = available;
        self.held = held;
        Ok(())
    }

    /// Moves `amount` from what is held back to what is available.
    pub fn resolve_amount(&mut self, amount: MonetaryAmount) -> (r: Result<(), LedgerError>)
        requires
            old(self).wf(),
            amount.wf(),
        ensures
            final(self).wf(),
            outcome(old(self)@, final(self)@, TransactionType::Resolve, amount@, r),
            r is Err ==> *final(self) == *old(self),
    {
        self.validate_is_unlocked()?;
        let held = match self.held.checked_sub(&amount) {
            Some(v) => v,
            None => return Err(LedgerError::ValueOverflow),
        };
        if held.is_negative() {
            return Err(LedgerError::InsufficientFunds { amount, balance: self.held });
        }
        let available = match self.available.checked_add(&amount) {
            Some(v) => v,
            None => return Err(LedgerError::ValueOverflow),
        };
        if available.is_negative() {
            return Err(LedgerError::InsufficientFunds { amount, balance: self.available });
        }
        self.held = held;
        self.available = available;
        Ok(())
    }

    /// Removes `amount` from what is held and from the total, and locks the
    /// account.
    pub fn chargeback_amount(&mut self, amount: MonetaryAmount) -> (r: Result<(), LedgerError>)
        requires
            old(self).wf(),
            amount.wf(),
        ensures
            final(self).wf(),
            outcome(old(self)@, final(self)@, TransactionType::Chargeback, amount@, r),
            r is Err ==> *final(self) == *old(self),
    {
        self.validate_is_unlocked()?;
        let held = match self.held.checked_sub(&amount) {
            Some(v) => v,
            None => return Err(LedgerError::ValueOverflow),
        };
        let total = match self.total.checked_sub(&amount) {
            Some(v) => v,
            None => return Err(LedgerError::ValueOverflow),
        };
        if held.is_negative() || total.is_negative() {
            return Err(LedgerError::InsufficientFunds { amount, balance: self.held });
        }
        self.held = held;
        self.total = total;
        self.locked = true;
        Ok(())
    }

    /// Deposits the amount written in `amount`.
    pub fn deposit(&mut self, amount: &str) -> (r: Result<(), LedgerError>)
        requires
            old(self).wf(),
        ensures
            final(self).wf(),
            text_outcome(old(self)@, final(self)@, TransactionType::Deposit, amount@, r),
            r is Err ==> *final(self) == *old(self),
    {
        self.validate_is_unlocked()?;
        let amount = MonetaryAmount::parse(amount)?;
        self.deposit_amount(amount)
    }

    /// Withdraws the amount written in `amount`.
    pub fn withdraw(&mut self, amount: &str) -> (r: Result<(), LedgerError>)
        requires
            old(self).wf(),
        ensures
            final(self).wf(),
            text_outcome(old(self)@, final(self)@, TransactionType::Withdrawal, amount@, r),
            r is Err ==> *final(self) == *old(self),
    {
        self.validate_is_unlocked()?;
        let amount = MonetaryAmount::parse(amount)?;
        self.withdraw_amount(amount)
    }

    /// Holds the amount written in `amount`, the amount of a disputed transaction.
    pub fn dispute(&mut self, amount: &str) -> (r: Result<(), LedgerError>)
        requires
            old(self).wf(),
        ensures
            final(self).wf(),
            text_outcome(old(self)@, final(self)@, TransactionType::Dispute, amount@, r),
            r is Err ==> *final(self) == *old(self),
    {
        self.validate_is_unlocked()?;
        let amount = MonetaryAmount::parse(amount)?;
        self.dispute_amount(amount)
    }

    /// Releases the held amount written in `amount`, the amount of a resolved transaction.
    pub fn resolve(&mut self, amount: &str) -> (r: Result<(), LedgerError>)
        requires
            old(self).wf(),
        ensures
            final(self).wf(),
            text_outcome(old(self)@, final(self)@, TransactionType::Resolve, amount@, r),
            r is Err ==> *final(self) == *old(self),
    {
        self.validate_is_unlocked()?;
        let amount = MonetaryAmount::parse(amount)?;
        self.resolve_amount(amount)
    }

    /// Charges back the held amount written in `amount`, and locks the account.
    pub fn chargeback(&mut self, amount: &str) -> (r: Result<(), LedgerError>)
        requires
            old(self).wf(),
        ensures
            final(self).wf(),
            text_outcome(old(self)@, final(self)@, TransactionType::Chargeback, amount@, r),
            r is Err ==> *final(self) == *old(self),
    {
        self.validate_is_unlocked()?;
        let amount = MonetaryAmount::parse(amount)?;
        self.chargeback_amount(amount)
    }
}

} // verus!
