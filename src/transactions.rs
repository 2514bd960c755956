//! A ledger of payment and refund transactions: each open transaction is
//! processed into a message, each closed one is reported, and an empty batch
//! is refused.
use crate::amount::{hundredths, plain_decimal, two_decimals, Amount};
use crate::digits::{decimal, is_digit, lemma_low_digits, low_digits};
use vstd::prelude::*;

verus! {

/// Whether a transaction moves money to or from the customer.
#[derive(Debug, Clone, Copy, PartialEq, Eq, Structural)]
pub enum TransactionType {
    Payment,
    Refund,
}

/// Whether a transaction may still be processed.
#[derive(Debug, Clone, Copy, PartialEq, Eq, Structural)]
pub enum TransactionStatus {
    Open,
    Closed,
}

/// How a transaction is paid.
#[derive(Debug, Clone, Copy, PartialEq, Eq, Structural)]
pub enum PaymentMethod {
    CreditCard,
    PayPal,
    Plan,
}

/// The display label of a transaction type.
pub open spec fn type_label(t: TransactionType) -> Seq<char> {
    match t {
        TransactionType::Payment => "payment"@,
        TransactionType::Refund => "refund"@,
    }
}

/// The display label of a status.
pub open spec fn status_label(s: TransactionStatus) -> Seq<char> {
    match s {
        TransactionStatus::Open => "open"@,
        TransactionStatus::Closed => "closed"@,
    }
}

/// The display label of a payment method.
pub open spec fn method_label(m: PaymentMethod) -> Seq<char> {
    match m {
        PaymentMethod::CreditCard => "credit card"@,
        PaymentMethod::PayPal => "PayPal"@,
        PaymentMethod::Plan => "plan"@,
    }
}

impl TransactionType {
    /// The display label: `payment` or `refund`.
    pub fn to_string(&self) -> (r: String)
        ensures
            r@ == type_label(*self),
    {
        match self {
            TransactionType::Payment => String::from_str("payment"),
            TransactionType::Refund => String::from_str("refund"),
        }
    }
}

impl TransactionStatus {
    /// The display label: `open` or `closed`.
    pub fn to_string(&self) -> (r: String)
        ensures
            r@ == status_label(*self),
    {
        match self {
            TransactionStatus::Open => String::from_str("open"),
            TransactionStatus::Closed => String::from_str("closed"),
        }
    }
}

impl PaymentMethod {
    /// The display label: `credit card`, `PayPal` or `plan`.
    pub fn to_string(&self) -> (r: String)
        ensures
            r@ == method_label(*self),
    {
        match self {
            PaymentMethod::CreditCard => String::from_str("credit card"),
            PaymentMethod::PayPal => String::from_str("PayPal"),
            PaymentMethod::Plan => String::from_str("plan"),
        }
    }
}

/// One transaction record. It is read, never changed, by processing.
#[derive(Debug, Clone, PartialEq)]
pub struct Transaction {
    pub id: String,
    pub transaction_type: TransactionType,
    pub status: TransactionStatus,
    pub method: PaymentMethod,
    pub amount: Amount,
}

/// Why a transaction, or a batch of them, could not be processed.
#[derive(Debug, Clone, PartialEq)]
pub enum TransactionError {
    /// The batch holds no transaction.
    Empty,
    /// The transaction is closed; it is carried along when known.
    Closed(Option<Transaction>),
}

/// The full rendering of a transaction; the amount is written plainly.
pub open spec fn transaction_text(t: Transaction) -> Seq<char> {
    "Transaction: id: "@ + t.id@ + ", type: "@ + type_label(t.transaction_type) + ", status: "@
        + status_label(t.status) + ", method: "@ + method_label(t.method) + ", amount: "@
        + plain_decimal(t.amount.units as nat, t.amount.scale as nat)
}

/// The message of an error.
pub open spec fn error_text(e: TransactionError) -> Seq<char> {
    match e {
        TransactionError::Empty => "There are no transactions to process"@,
        TransactionError::Closed(Some(t)) => "Your "@ + type_label(t.transaction_type)
            + " is already closed | "@ + transaction_text(t),
        TransactionError::Closed(None) => "Your transaction is already closed"@,
    }
}

/// The line that a batch reports for one transaction: its processing message
/// when it is open, the message of its closed error otherwise.
pub open spec fn outcome_text(t: Transaction) -> Seq<char> {
    match t.status {
        TransactionStatus::Open => processing_text(t),
        TransactionStatus::Closed => error_text(TransactionError::Closed(Some(t))),
    }
}

/// The message of a processed transaction; the amount has two fraction digits.
pub open spec fn processing_text(t: Transaction) -> Seq<char> {
    "Processing "@ + type_label(t.transaction_type) + " "@ + method_label(t.method)
        + " for amount: "@ + two_decimals(t.amount.units as nat, t.amount.scale as nat)
}

impl Transaction {
    /// A transaction with the given fields.
    pub fn new(
        id: String,
        transaction_type: TransactionType,
        status: TransactionStatus,
        method: PaymentMethod,
        amount: Amount,
    ) -> (r: Transaction)
        ensures
            r.id == id,
            r.transaction_type == transaction_type,
            r.status == status,
            r.method == method,
            r.amount == amount,
    {
        Transaction { id, transaction_type, status, method, amount }
    }

    /// A field-by-field copy.
    fn duplicate(&self) -> (r: Transaction)
        ensures
            r == *self,
    {
        Transaction {
            id: self.id.clone(),
            transaction_type: self.transaction_type,
            status: self.status,
            method: self.method,
            amount: self.amount,
        }
    }

    /// `Processing <type> <method> for amount: <amount, two fraction digits>`
    fn processing_message(&self) -> (r: String)
        ensures
            r@ == processing_text(*self),
    {
        let mut out = String::from_str("Processing ");
        out.append(self.transaction_type.to_string().as_str());
        out.append(" ");
        out.append(self.method.to_string().as_str());
        out.append(" for amount: ");
        out.append(self.amount.two_decimal_text().as_str());
        proof {
            assert(out@ =~= processing_text(*self));
        }
        out
    }

    /// Processes an open transaction into its message; a closed one fails
    /// with an error that carries it.
    pub fn process(&self) -> (r: Result<String, TransactionError>)
        ensures
            self.status == TransactionStatus::Open ==> r is Ok && r->Ok_0@ == processing_text(*self),
            self.status == TransactionStatus::Closed ==> r == Err::<String, TransactionError>(
                TransactionError::Closed(Some(*self)),
            ),
    {
        match self.status {
            TransactionStatus::Closed => Err(TransactionError::Closed(Some(self.duplicate()))),
            TransactionStatus::Open => Ok(self.processing_message()),
        }
    }

    /// `Transaction: id: .., type: .., status: .., method: .., amount: ..`
    pub fn to_string(&self) -> (r: String)
        ensures
            r@ == transaction_text(*self),
    {
        let mut out = String::from_str("Transaction: id: ");
        out.append(self.id.as_str());
        out.append(", type: ");
        out.append(self.transaction_type.to_string().as_str());
        out.append(", status: ");
        out.append(self.status.to_string().as_str());
        out.append(", method: ");
        out.append(self.method.to_string().as_str());
        out.append(", amount: ");
        out.append(self.amount.plain_text().as_str());
        proof {
            assert(out@ =~= transaction_text(*self));
        }
        out
    }
}

impl TransactionError {
    /// The human-readable message of the error.
    pub fn to_string(&self) -> (r: String)
        ensures
            r@ == error_text(*self),
    {
        match self {
            TransactionError::Empty => String::from_str("There are no transactions to process"),
            TransactionError::Closed(Some(t)) => {
                let mut out = String::from_str("Your ");
                out.append(t.transaction_type.to_string().as_str());
                out.append(" is already closed | ");
                out.append(t.to_string().as_str());
                proof {
                    assert(out@ =~= error_text(*self));
                }
                out
            },
            TransactionError::Closed(None) => String::from_str("Your transaction is already closed"),
        }
    }
}

/// An open transaction is processed, and its message ends with the amount
/// written with exactly two fraction digits, whatever the amount's own scale.
pub proof fn open_message_shows_two_fraction_digits(t: Transaction)
    requires
        t.status == TransactionStatus::Open,
    ensures
        outcome_text(t) == processing_text(t),
        two_decimals(t.amount.units as nat, t.amount.scale as nat).is_suffix_of(processing_text(t)),
        ({
            let m = processing_text(t);
            &&& m.len() >= 3
            &&& m[m.len() - 3] == '.'
            &&& is_digit(m[m.len() - 2])
            &&& is_digit(m[m.len() - 1])
        }),
{
    let m = processing_text(t);
    let a = two_decimals(t.amount.units as nat, t.amount.scale as nat);
    let c = hundredths(t.amount.units as nat, t.amount.scale as nat);
    lemma_low_digits(c, 2);
    let head = "Processing "@ + type_label(t.transaction_type) + " "@ + method_label(t.method)
        + " for amount: "@;
    assert(m == head + a);
    assert(a == decimal(c / 100) + seq!['.'] + low_digits(c, 2));
    assert(m.subrange(m.len() - a.len(), m.len() as int) =~= a);
    assert(m[m.len() - 3] == a[a.len() - 3]);
    assert(m[m.len() - 2] == low_digits(c, 2)[0]);
    assert(m[m.len() - 1] == low_digits(c, 2)[1]);
}

/// The message of a closed transaction's error names its type first:
/// `Your payment is already closed` or `Your refund is already closed`.
pub proof fn closed_message_names_type(t: Transaction)
    requires
        t.status == TransactionStatus::Closed,
    ensures
        outcome_text(t) == error_text(TransactionError::Closed(Some(t))),
        t.transaction_type == TransactionType::Payment ==> "Your payment is already closed"@.is_prefix_of(
            error_text(TransactionError::Closed(Some(t))),
        ),
        t.transaction_type == TransactionType::Refund ==> "Your refund is already closed"@.is_prefix_of(
            error_text(TransactionError::Closed(Some(t))),
        ),
{
    reveal_strlit("Your payment is already closed");
    reveal_strlit("Your refund is already closed");
    reveal_strlit("Your ");
    reveal_strlit("payment");
    reveal_strlit("refund");
    reveal_strlit(" is already closed | ");
    let m = error_text(TransactionError::Closed(Some(t)));
    let head = "Your "@ + type_label(t.transaction_type) + " is already closed | "@;
    assert(m == head + transaction_text(t));
    if t.transaction_type == TransactionType::Payment {
        assert(m.subrange(0, 30) =~= "Your payment is already closed"@);
    } else {
        assert(m.subrange(0, 29) =~= "Your refund is already closed"@);
    }
}

/// Accepts a batch that holds at least one transaction.
pub fn validate_transactions(transactions: &Vec<Transaction>) -> (r: Result<(), TransactionError>)
    ensures
        transactions@.len() == 0 ==> r == Err::<(), TransactionError>(TransactionError::Empty),
        transactions@.len() > 0 ==> r is Ok,
{
    if transactions.len() == 0 {
        Err(TransactionError::Empty)
    } else {
        Ok(())
    }
}

/// Processes a batch in order. An empty batch fails with `Empty`; otherwise
/// every transaction gives one line, closed ones their error message, and the
/// batch as a whole succeeds.
pub fn process_transactions(transactions: &Vec<Transaction>) -> (r: Result<
    Vec<String>,
    TransactionError,
>)
    ensures
        transactions@.len() == 0 ==> r == Err::<Vec<String>, TransactionError>(
            TransactionError::Empty,
        ),
        transactions@.len() > 0 ==> r is Ok,
        r is Ok ==> r->Ok_0@.len() == transactions@.len(),
        r is Ok ==> forall|i: int|
            0 <= i < transactions@.len() ==> #[trigger] r->Ok_0@[i]@ == outcome_text(
                transactions@[i],
            ),
{
    validate_transactions(transactions)?;
    let mut results: Vec<String> = Vec::new();
    let mut i: usize = 0;
    while i < transactions.len()
        invariant
            i <= transactions@.len(),
            results@.len() == i,
            forall|j: int| 0 <= j < i ==> #[trigger] results@[j]@ == outcome_text(transactions@[j]),
        decreases transactions@.len() - i,
    {
        let line = match transactions[i].process() {
            Ok(message) => message,
            Err(e) => e.to_string(),
        };
        results.push(line);
        i = i + 1;
    }
    Ok(results)
}

} // verus!
