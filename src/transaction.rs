use vstd::prelude::*;

verus! {

/// The kind of a transaction record.
#[derive(Debug, Clone, Copy, PartialEq, Eq, Structural)]
pub enum TransactionType {
    Deposit,
    Withdrawal,
    Dispute,
    Resolve,
    Chargeback,
}

/// The kind that a type tag of the input names, if any.
pub open spec fn kind_of_tag(tag: Seq<char>) -> Option<TransactionType> {
    if tag == "deposit"@ {
        Some(TransactionType::Deposit)
    } else if tag == "withdrawal"@ {
        Some(TransactionType::Withdrawal)
    } else if tag == "dispute"@ {
        Some(TransactionType::Dispute)
    } else if tag == "resolve"@ {
        Some(TransactionType::Resolve)
    } else if tag == "chargeback"@ {
        Some(TransactionType::Chargeback)
    } else {
        None
    }
}

impl TransactionType {
    /// Whether the kind refers to an earlier transaction instead of carrying
    /// an amount of its own.
    pub open spec fn is_dispute_family(self) -> bool {
        self is Dispute || self is Resolve || self is Chargeback
    }

    /// The kind named by a type tag of the input ("deposit", "withdrawal",
    /// "dispute", "resolve" or "chargeback", matched exactly).
    pub fn from_tag(tag: &str) -> (r: Option<Self>)
        ensures
            r == kind_of_tag(tag@),
    {
        let t = tag.to_owned();
        if t == "deposit".to_owned() {
            proof { reveal_strlit("deposit"); }
            Some(TransactionType::Deposit)
        } else if t == "withdrawal".to_owned() {
            proof { reveal_strlit("deposit"); reveal_strlit("withdrawal"); }
            Some(TransactionType::Withdrawal)
        } else if t == "dispute".to_owned() {
            proof { reveal_strlit("deposit"); reveal_strlit("withdrawal"); reveal_strlit("dispute"); }
            Some(TransactionType::Dispute)
        } else if t == "resolve".to_owned() {
            proof {
                reveal_strlit("deposit");
                reveal_strlit("withdrawal");
                reveal_strlit("dispute");
                reveal_strlit("resolve");
            }
            Some(TransactionType::Resolve)
        } else if t == "chargeback".to_owned() {
            proof {
                reveal_strlit("deposit");
                reveal_strlit("withdrawal");
                reveal_strlit("dispute");
                reveal_strlit("resolve");
                reveal_strlit("chargeback");
            }
            Some(TransactionType::Chargeback)
        } else {
            None
        }
    }
}

/// The model of a transaction record.
pub ghost struct TransactionView {
    pub tx: u32,
    pub client: u16,
    pub amount: Seq<char>,
    pub kind: TransactionType,
}

/// An input event: its id, its client, its kind and its amount text (empty
/// for the dispute family).
#[derive(Debug, Clone, PartialEq, Eq)]
pub struct Transaction {
    tx: u32,
    client: u16,
    amount: String,
    type_: TransactionType,
}

impl View for Transaction {
    type V = TransactionView;

    closed spec fn view(&self) -> TransactionView {
        TransactionView { tx: self.tx, client: self.client, amount: self.amount@, kind: self.type_ }
    }
}

impl Transaction {
    /// A transaction record.
    pub fn new(tx: u32, client: u16, amount: String, type_: TransactionType) -> (r: Self)
        ensures
            r@ == (TransactionView { tx, client, amount: amount@, kind: type_ }),
    {
        Transaction { tx, client, amount, type_ }
    }

    /// The transaction id.
    pub fn tx(&self) -> (r: u32)
        ensures
            r == self@.tx,
    {
        self.tx
    }

    /// The client id.
    pub fn client(&self) -> (r: u16)
        ensures
            r == self@.client,
    {
        self.client
    }

    /// The amount text.
    pub fn amount(&self) -> (r: &String)
        ensures
            r@ == self@.amount,
    {
        &self.amount
    }

    /// The kind of transaction.
    pub fn type_(&self) -> (r: TransactionType)
        ensures
            r == self@.kind,
    {
        self.type_
    }
}

} // verus!
