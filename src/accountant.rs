use vstd::prelude::*;

use std::collections::HashMap;

use crate::amount::{units_of_text, MonetaryAmount};
use crate::balance::{
    lemma_locked_balance_frozen, lemma_operation_keeps_invariant, text_outcome, BalanceView,
    ClientBalance,
};
use crate::error::LedgerError;
use crate::transaction::{Transaction, TransactionType, TransactionView};

verus! {

broadcast use vstd::std_specs::hash::group_hash_axioms;

/// The model of the ledger.
pub ghost struct LedgerView {
    /// The balance of each client seen so far.
    pub clients: Map<u16, BalanceView>,
    /// The clients in the order in which they were first seen.
    pub order: Seq<u16>,
    /// Each transaction recorded, by id.
    pub history: Map<u32, TransactionView>,
    /// The ids of the rejected transactions, in order.
    pub rejected: Seq<u32>,
}

/// The balance of a client that has not been seen before.
pub open spec fn fresh_balance(client: u16) -> BalanceView {
    BalanceView { client, available: 0, held: 0, total: 0, locked: false }
}

/// The transaction that a dispute-family transaction `t` names: the
/// deposit or withdrawal of the same client recorded under its id. `None`
/// where there is no such transaction.
pub open spec fn referenced_record(history: Map<u32, TransactionView>, t: TransactionView) -> Option<
    TransactionView,
> {
    if history.contains_key(t.tx) && history[t.tx].client == t.client
        && !history[t.tx].kind.is_dispute_family() {
        Some(history[t.tx])
    } else {
        None
    }
}

/// The amount, in ten-thousandths, that `t` moves, given the history of
/// earlier transactions: its own amount for a deposit or a withdrawal; for
/// the dispute family, the amount of the transaction that it names. `None`
/// where there is no such amount.
pub open spec fn referenced_amount(history: Map<u32, TransactionView>, t: TransactionView) -> Option<
    int,
> {
    if !t.kind.is_dispute_family() {
        units_of_text(t.amount)
    } else {
        match referenced_record(history, t) {
            Some(rec) => units_of_text(rec.amount),
            None => None,
        }
    }
}

/// Whether the bookkeeping of `t` against balance `b` fails.
pub open spec fn is_rejected(b: BalanceView, history: Map<u32, TransactionView>, t: TransactionView) -> bool {
    match referenced_amount(history, t) {
        Some(a) => !b.admits(t.kind, a),
        None => true,
    }
}

/// The balance `b` after the bookkeeping of `t`.
pub open spec fn balance_after(b: BalanceView, history: Map<u32, TransactionView>, t: TransactionView) -> BalanceView {
    match referenced_amount(history, t) {
        Some(a) => b.after(t.kind, a),
        None => b,
    }
}

impl LedgerView {
    /// The empty ledger.
    pub open spec fn empty() -> LedgerView {
        LedgerView {
            clients: Map::empty(),
            order: Seq::empty(),
            history: Map::empty(),
            rejected: Seq::empty(),
        }
    }

    /// The ledger invariant: every balance keeps the balance invariant and
    /// is filed under its own client, and `order` lists each client once.
    pub open spec fn wf(self) -> bool {
        &&& forall|c: u16| #[trigger]
            self.clients.contains_key(c) ==> self.clients[c].wf() && self.clients[c].client == c
        &&& self.order.no_duplicates()
        &&& forall|i: int| 0 <= i < self.order.len() ==> self.clients.contains_key(#[trigger] self.order[i])
        &&& forall|c: u16| #[trigger] self.clients.contains_key(c) ==> self.order.contains(c)
    }

    /// The ledger after transaction `t`, or the error that aborts the run:
    /// a deposit or a withdrawal whose id is already recorded, or whose
    /// amount does not read. A transaction of a new id is recorded; a
    /// client seen for the first time gets a zero balance; a transaction
    /// whose bookkeeping fails leaves the balance as it was and is listed
    /// as rejected.
    pub open spec fn step(self, t: TransactionView) -> Result<LedgerView, LedgerError> {
        if self.history.contains_key(t.tx) && !t.kind.is_dispute_family() {
            Err(LedgerError::TxDuplicated(t.tx))
        } else if !t.kind.is_dispute_family() && units_of_text(t.amount) is None {
            Err(LedgerError::InvalidAmount)
        } else {
            let history = if self.history.contains_key(t.tx) {
                self.history
            } else {
                self.history.insert(t.tx, t)
            };
            let seen = self.clients.contains_key(t.client);
            let b = if seen {
                self.clients[t.client]
            } else {
                fresh_balance(t.client)
            };
            Ok(
                LedgerView {
                    clients: self.clients.insert(t.client, balance_after(b, history, t)),
                    order: if seen {
                        self.order
                    } else {
                        self.order.push(t.client)
                    },
                    history,
                    rejected: if is_rejected(b, history, t) {
                        self.rejected.push(t.tx)
                    } else {
                        self.rejected
                    },
                },
            )
        }
    }

    /// The ledger after the transactions `ts` in order, or the first error
    /// that aborts the run.
    pub open spec fn replay(self, ts: Seq<TransactionView>) -> Result<LedgerView, LedgerError>
        decreases ts.len(),
    {
        if ts.len() == 0 {
            Ok(self)
        } else {
            match self.step(ts[0]) {
                Ok(next) => next.replay(ts.drop_first()),
                Err(e) => Err(e),
            }
        }
    }

    /// The balances, one per client, in the order in which the clients were
    /// first seen.
    pub open spec fn snapshot(self) -> Seq<BalanceView> {
        self.order.map_values(|c: u16| self.clients[c])
    }
}

/// Every transaction keeps the ledger invariant: each balance keeps its
/// total equal to available plus held, with nothing negative.
pub proof fn lemma_step_keeps_invariant(s: LedgerView, t: TransactionView)
    requires
        s.wf(),
    ensures
        s.step(t) matches Ok(next) ==> next.wf(),
{
    if let Ok(next) = s.step(t) {
        let c0 = t.client;
        let seen = s.clients.contains_key(c0);
        let b = if seen {
            s.clients[c0]
        } else {
            fresh_balance(c0)
        };
        if let Some(a) = referenced_amount(next.history, t) {
            lemma_operation_keeps_invariant(b, t.kind, a);
        }
        if !seen {
            assert(forall|i: int| 0 <= i < s.order.len() ==> s.order[i] != c0);
        }
        assert forall|c: u16| #[trigger] next.clients.contains_key(c) implies next.order.contains(c) by {
            if c != c0 {
                assert(s.order.contains(c));
                let i = choose|i: int| 0 <= i < s.order.len() && s.order[i] == c;
                assert(next.order[i] == c);
            } else if seen {
                assert(s.order.contains(c));
            } else {
                assert(next.order[next.order.len() - 1] == c);
            }
        }
    }
}

/// The ledger invariant holds after any stream of transactions.
pub proof fn lemma_replay_keeps_invariant(s: LedgerView, ts: Seq<TransactionView>)
    requires
        s.wf(),
    ensures
        s.replay(ts) matches Ok(end) ==> end.wf(),
    decreases ts.len(),
{
    if ts.len() > 0 {
        lemma_step_keeps_invariant(s, ts[0]);
        if let Ok(next) = s.step(ts[0]) {
            lemma_replay_keeps_invariant(next, ts.drop_first());
        }
    }
}

/// A transaction leaves the balance of a locked client as it was.
pub proof fn lemma_step_keeps_locked_client(s: LedgerView, t: TransactionView, c: u16)
    requires
        s.clients.contains_key(c),
        s.clients[c].locked,
    ensures
        s.step(t) matches Ok(next) ==> next.clients.contains_key(c) && next.clients[c]
            == s.clients[c],
{
    if let Ok(next) = s.step(t) {
        if t.client == c {
            if let Some(a) = referenced_amount(next.history, t) {
                lemma_locked_balance_frozen(s.clients[c], t.kind, a);
            }
        }
    }
}

/// Once a client is locked, no later transaction changes its balance.
pub proof fn lemma_locked_client_frozen(s: LedgerView, ts: Seq<TransactionView>, c: u16)
    requires
        s.clients.contains_key(c),
        s.clients[c].locked,
    ensures
        s.replay(ts) matches Ok(end) ==> end.clients.contains_key(c) && end.clients[c]
            == s.clients[c],
    decreases ts.len(),
{
    if ts.len() > 0 {
        lemma_step_keeps_locked_client(s, ts[0], c);
        if let Ok(next) = s.step(ts[0]) {
            lemma_locked_client_frozen(next, ts.drop_first(), c);
        }
    }
}

/// Dispute-family transactions are never refused as duplicates: the same
/// one may come again and again. A deposit or a withdrawal whose id is
/// already recorded is refused.
pub proof fn lemma_duplicate_boundary(s: LedgerView, t: TransactionView)
    ensures
        t.kind.is_dispute_family() ==> (s.step(t) matches Ok(next) && next.step(t) is Ok),
        !t.kind.is_dispute_family() && s.history.contains_key(t.tx) ==> s.step(t) == Err::<
            LedgerView,
            LedgerError,
        >(LedgerError::TxDuplicated(t.tx)),
{
}

/// A dispute-family transaction that names a recorded id is applied anew
/// each time it comes, with no guard against re-entry: it is never refused,
/// leaves the history as it was, and applies the amount of the transaction
/// that it names to its client's balance where that balance admits it;
/// otherwise it is listed as rejected and the balance stays as it was.
pub proof fn lemma_replayed_reference(s: LedgerView, t: TransactionView)
    requires
        t.kind.is_dispute_family(),
        s.history.contains_key(t.tx),
        s.clients.contains_key(t.client),
    ensures
        s.step(t) is Ok,
        s.step(t)->Ok_0.history == s.history,
        match referenced_amount(s.history, t) {
            Some(a) => {
                &&& s.step(t)->Ok_0.clients[t.client] == s.clients[t.client].after(t.kind, a)
                &&& s.step(t)->Ok_0.rejected == if s.clients[t.client].admits(t.kind, a) {
                    s.rejected
                } else {
                    s.rejected.push(t.tx)
                }
            },
            None => {
                &&& s.step(t)->Ok_0.clients[t.client] == s.clients[t.client]
                &&& s.step(t)->Ok_0.rejected == s.rejected.push(t.tx)
            },
        },
{
}

/// Whether every deposit and withdrawal of `ts` has an amount that reads
/// and an id recorded neither in `history` nor earlier in `ts`.
pub open spec fn fresh_funding(history: Map<u32, TransactionView>, ts: Seq<TransactionView>) -> bool {
    forall|i: int|
        0 <= i < ts.len() && !(#[trigger] ts[i]).kind.is_dispute_family() ==> {
            &&& units_of_text(ts[i].amount) is Some
            &&& !history.contains_key(ts[i].tx)
            &&& forall|j: int| 0 <= j < i ==> ts[j].tx != ts[i].tx
        }
}

/// Only a deposit or a withdrawal aborts a run: a stream whose deposits and
/// withdrawals have amounts that read and ids not recorded before is applied
/// whole, however often its dispute-family transactions name the same
/// transaction, and every balance at its end keeps the balance invariant.
pub proof fn lemma_stream_never_aborts(s: LedgerView, ts: Seq<TransactionView>)
    requires
        s.wf(),
        fresh_funding(s.history, ts),
    ensures
        s.replay(ts) is Ok,
        s.replay(ts) matches Ok(end) ==> end.wf(),
    decreases ts.len(),
{
    lemma_replay_keeps_invariant(s, ts);
    if ts.len() > 0 {
        lemma_step_keeps_invariant(s, ts[0]);
        let next = s.step(ts[0])->Ok_0;
        let rest = ts.drop_first();
        assert forall|i: int|
            0 <= i < rest.len() && !(#[trigger] rest[i]).kind.is_dispute_family() implies {
            &&& units_of_text(rest[i].amount) is Some
            &&& !next.history.contains_key(rest[i].tx)
            &&& forall|j: int| 0 <= j < i ==> rest[j].tx != rest[i].tx
        } by {
            assert(rest[i] == ts[i + 1]);
            assert(ts[0].tx != ts[i + 1].tx);
            assert forall|j: int| 0 <= j < i implies rest[j].tx != rest[i].tx by {
                assert(rest[j] == ts[j + 1]);
            }
        }
        lemma_stream_never_aborts(next, rest);
    }
}

/// The balances after a stream of transactions depend on that stream alone:
/// two replays of one stream from the empty ledger give the same set of
/// client records, and that set is the balance of every client seen.
pub proof fn lemma_snapshot_deterministic(ts: Seq<TransactionView>, a: LedgerView, b: LedgerView)
    requires
        LedgerView::empty().replay(ts) == Ok::<LedgerView, LedgerError>(a),
        LedgerView::empty().replay(ts) == Ok::<LedgerView, LedgerError>(b),
    ensures
        a.snapshot().to_set() == b.snapshot().to_set(),
        a.snapshot().to_set() == a.clients.values(),
{
    let e = LedgerView::empty();
    assert(e.wf());
    lemma_replay_keeps_invariant(e, ts);
    let snap = a.snapshot();
    assert forall|x: BalanceView| snap.to_set().contains(x) implies a.clients.values().contains(x) by {
        let i = choose|i: int| 0 <= i < snap.len() && snap[i] == x;
        assert(a.clients.contains_key(a.order[i]));
    }
    assert forall|x: BalanceView| a.clients.values().contains(x) implies snap.to_set().contains(x) by {
        let c = choose|c: u16| a.clients.contains_key(c) && a.clients[c] == x;
        assert(a.order.contains(c));
        let i = choose|i: int| 0 <= i < a.order.len() && a.order[i] == c;
        assert(snap[i] == x);
    }
    assert(snap.to_set() =~= a.clients.values());
}

/// The ledger engine: applies transactions in arrival order to the balances
/// of their clients.
pub struct Accountant {
    clients: HashMap<u16, ClientBalance>,
    client_order: Vec<u16>,
    transactions: HashMap<u32, Transaction>,
    transactions_rejected: Vec<u32>,
}

impl View for Accountant {
    type V = LedgerView;

    closed spec fn view(&self) -> LedgerView {
        LedgerView {
            clients: self.clients@.map_values(|b: ClientBalance| b@),
            order: self.client_order@,
            history: self.transactions@.map_values(|t: Transaction| t@),
            rejected: self.transactions_rejected@,
        }
    }
}

impl Accountant {
    /// The ledger invariant.
    pub open spec fn wf(&self) -> bool {
        self@.wf()
    }

    /// An empty ledger.
    pub fn new() -> (r: Self)
        ensures
            r@ == LedgerView::empty(),
            r.wf(),
    {
        let r = Accountant {
            clients: HashMap::new(),
            client_order: Vec::new(),
            transactions: HashMap::new(),
            transactions_rejected: Vec::new(),
        };
        assert(r@.clients =~= Map::empty());
        assert(r@.history =~= Map::empty());
        r
    }

    /// The ids of the rejected transactions, in order.
    pub fn transactions_rejected(&self) -> (r: &Vec<u32>)
        ensures
            r@ == self@.rejected,
    {
        &self.transactions_rejected
    }

    /// The balance of `client`, if it has been seen.
    pub fn client_balance(&self, client: u16) -> (r: Option<ClientBalance>)
        requires
            self.wf(),
        ensures
            r is Some <==> self@.clients.contains_key(client),
            r matches Some(b) ==> b@ == self@.clients[client] && b.wf(),
    {
        match self.clients.get(&client) {
            Some(b) => {
                assert(self@.clients.contains_key(client));
                Some(*b)
            },
            None => None,
        }
    }

    /// Applies `tx` to `client`, with `transactions` as the history of
    /// earlier transactions.
    fn update_client_balance(
        transactions: &HashMap<u32, Transaction>,
        client: &mut ClientBalance,
        tx: &Transaction,
    ) -> (r: Result<(), LedgerError>)
        requires
            old(client).wf(),
        ensures
            final(client).wf(),
            final(client)@ == balance_after(
                old(client)@,
                transactions@.map_values(|t: Transaction| t@),
                tx@,
            ),
            r is Err <==> is_rejected(
                old(client)@,
                transactions@.map_values(|t: Transaction| t@),
                tx@,
            ),
            !tx@.kind.is_dispute_family() ==> text_outcome(
                old(client)@,
                final(client)@,
                tx@.kind,
                tx@.amount,
                r,
            ),
            tx@.kind.is_dispute_family() ==> match referenced_record(
                transactions@.map_values(|t: Transaction| t@),
                tx@,
            ) {
                Some(rec) => text_outcome(old(client)@, final(client)@, tx@.kind, rec.amount, r),
                None => r == Err::<(), LedgerError>(LedgerError::TxNotFound(tx@.tx))
                    && final(client)@ == old(client)@,
            },
    {
        let history = Ghost(transactions@.map_values(|t: Transaction| t@));
        let kind = tx.type_();
        if let TransactionType::Deposit = kind {
            return client.deposit(tx.amount());
        }
        if let TransactionType::Withdrawal = kind {
            return client.withdraw(tx.amount());
        }
        let id = tx.tx();
        let referenced = match transactions.get(&id) {
            Some(r) => r,
            None => return Err(LedgerError::TxNotFound(id)),
        };
        proof {
            assert(history@.contains_key(id));
            assert(history@[id] == referenced@);
        }
        let referenced_kind = referenced.type_();
        if referenced.client() != tx.client() || matches!(
            referenced_kind,
            TransactionType::Dispute | TransactionType::Resolve | TransactionType::Chargeback
        ) {
            return Err(LedgerError::TxNotFound(id));
        }
        match kind {
            TransactionType::Dispute => client.dispute(referenced.amount()),
            TransactionType::Resolve => client.resolve(referenced.amount()),
            _ => client.chargeback(referenced.amount()),
        }
    }

    /// Applies one transaction: records it, finds or creates the balance of
    /// its client, and applies it there; a transaction whose bookkeeping
    /// fails is listed as rejected. The one error returned is a deposit or
    /// withdrawal that reuses a recorded id, which leaves the ledger as it
    /// was.
    pub fn apply_bookkeeping(&mut self, transaction: Transaction) -> (r: Result<(), LedgerError>)
        requires
            old(self).wf(),
        ensures
            final(self).wf(),
            match old(self)@.step(transaction@) {
                Ok(next) => r is Ok && final(self)@ == next,
                Err(e) => r == Err::<(), LedgerError>(e) && final(self)@ == old(self)@,
            },
    {
        let ghost s = self@;
        let ghost t = transaction@;
        let id = transaction.tx();
        let kind = transaction.type_();
        let client_id = transaction.client();
        let known = self.transactions.contains_key(&id);
        if known && matches!(kind, TransactionType::Deposit | TransactionType::Withdrawal) {
            return Err(LedgerError::TxDuplicated(id));
        }
        if matches!(kind, TransactionType::Deposit | TransactionType::Withdrawal) {
            if MonetaryAmount::parse(transaction.amount()).is_err() {
                return Err(LedgerError::InvalidAmount);
            }
        }
        let mut balance = match self.clients.get(&client_id) {
            Some(b) => *b,
            None => {
                self.client_order.push(client_id);
                ClientBalance::new(client_id)
            },
        };
        let ghost history = if known {
            s.history
        } else {
            s.history.insert(t.tx, t)
        };
        proof {
            if !known {
                assert(referenced_amount(history, t) == referenced_amount(s.history, t));
            }
        }
        let res = Self::update_client_balance(&self.transactions, &mut balance, &transaction);
        if res.is_err() {
            self.transactions_rejected.push(id);
        }
        self.clients.insert(client_id, balance);
        if !known {
            self.transactions.insert(id, transaction);
        }
        proof {
            let next = s.step(t)->Ok_0;
            assert(self@.clients =~= next.clients);
            assert(self@.history =~= next.history);
            lemma_step_keeps_invariant(s, t);
        }
        Ok(())
    }

    /// The balance of every client, each once, in the order in which the
    /// clients were first seen.
    pub fn export(&self) -> (r: Vec<ClientBalance>)
        requires
            self.wf(),
        ensures
            r@.len() == self@.order.len(),
            forall|i: int| 0 <= i < r@.len() ==> (#[trigger] r@[i])@ == self@.snapshot()[i],
            forall|i: int| 0 <= i < r@.len() ==> (#[trigger] r@[i]).wf(),
    {
        let mut out: Vec<ClientBalance> = Vec::new();
        let mut i: usize = 0;
        while i < self.client_order.len()
            invariant
                self.wf(),
                i <= self.client_order@.len(),
                out@.len() == i,
                forall|j: int| 0 <= j < i ==> (#[trigger] out@[j])@ == self@.snapshot()[j],
                forall|j: int| 0 <= j < i ==> (#[trigger] out@[j]).wf(),
            decreases self.client_order@.len() - i,
        {
            let c = self.client_order[i];
            assert(self@.clients.contains_key(self@.order[i as int]));
            match self.clients.get(&c) {
                Some(b) => {
                    out.push(*b);
                },
                None => {
                    assert(false);
                },
            }
            i = i + 1;
        }
        out
    }
}

} // verus!
