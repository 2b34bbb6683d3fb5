//! Errors that keep a transaction from being executed.

use vstd::prelude::*;
use vstd::string::StringExecFns;

use crate::decimal::{
    decimal, law_decimal_is_canonical, law_decimal_is_told_from_rest, law_decimal_reads_back,
    push_decimal,
};
use crate::output::ResultAndState;
use crate::primitives::{law_u256_value_is_unique, U256};

verus! {

/// Result of EVM execution. `State` is the state of the accounts that comes
/// with a result.
pub type EVMResult<State, DBError> = EVMResultGeneric<ResultAndState<State>, DBError>;

/// Generic result of EVM execution. Used to represent error and generic output.
pub type EVMResultGeneric<T, DBError> = core::result::Result<T, EVMError<DBError>>;

/// Main EVM error.
#[derive(Debug, Clone, PartialEq, Eq, Hash)]
pub enum EVMError<DBError> {
    /// Transaction validation error.
    Transaction(InvalidTransaction),
    /// Header validation error.
    Header(InvalidHeader),
    /// Database error.
    Database(DBError),
    /// Custom error.
    ///
    /// Useful for handler registers where custom logic would want to return their own custom error.
    Custom(String),
}

/// The error that lies beneath an [`EVMError`].
#[derive(Debug, Clone, Copy, PartialEq, Eq)]
pub enum ErrorSource<'a, DBError> {
    /// Transaction validation error.
    Transaction(&'a InvalidTransaction),
    /// Header validation error.
    Header(&'a InvalidHeader),
    /// Database error.
    Database(&'a DBError),
}

/// Transaction validation error.
#[derive(Debug, Clone, PartialEq, Eq, Hash)]
pub enum InvalidTransaction {
    /// When using the EIP-1559 fee model introduced in the London upgrade, transactions specify two primary fee fields:
    /// - `gas_max_fee`: The maximum total fee a user is willing to pay, base fee and priority fee together.
    /// - `gas_priority_fee`: The extra amount a user is willing to give directly to the miner, often referred to as the "tip".
    ///
    /// Provided `gas_priority_fee` exceeds the total `gas_max_fee`.
    PriorityFeeGreaterThanMaxFee,
    /// EIP-1559: `gas_price` is less than `basefee`.
    GasPriceLessThanBasefee,
    /// `gas_limit` in the tx is bigger than `block_gas_limit`.
    CallerGasLimitMoreThanBlock,
    /// Initial gas for a Call is bigger than `gas_limit`.
    ///
    /// Initial gas for a Call contains:
    /// - initial stipend gas
    /// - gas for access list and input data
    CallGasCostMoreThanGasLimit,
    /// EIP-3607 Reject transactions from senders with deployed code
    RejectCallerWithCode,
    /// Transaction account does not have enough amount of ether to cover transferred value and gas_limit*gas_price.
    LackOfFundForMaxFee {
        fee: Box<U256>,
        balance: Box<U256>,
    },
    /// Overflow payment in transaction.
    OverflowPaymentInTransaction,
    /// Nonce overflows in transaction.
    NonceOverflowInTransaction,
    /// The nonce of the transaction is above that of its sender.
    NonceTooHigh {
        tx: u64,
        state: u64,
    },
    /// The nonce of the transaction is below that of its sender.
    NonceTooLow {
        tx: u64,
        state: u64,
    },
    /// EIP-3860: Limit and meter initcode
    CreateInitCodeSizeLimit,
    /// Transaction chain id does not match the config chain id.
    InvalidChainId,
    /// Access list is not supported for blocks before the Berlin hardfork.
    AccessListNotSupported,
    /// `max_fee_per_blob_gas` is not supported for blocks before the Cancun hardfork.
    MaxFeePerBlobGasNotSupported,
    /// `blob_hashes`/`blob_versioned_hashes` is not supported for blocks before the Cancun hardfork.
    BlobVersionedHashesNotSupported,
    /// Block `blob_gas_price` is greater than tx-specified `max_fee_per_blob_gas` after Cancun.
    BlobGasPriceGreaterThanMax,
    /// There should be at least one blob in Blob transaction.
    EmptyBlobs,
    /// Blob transaction can't be a create transaction.
    /// `to` must be present
    BlobCreateTransaction,
    /// Transaction has more blobs than a block can hold.
    TooManyBlobs,
    /// Blob transaction contains a versioned hash with an incorrect version
    BlobVersionNotSupported,
    /// System transactions are not supported post-regolith hardfork (OP Stack chains).
    ///
    /// Before the Regolith hardfork, there was a special field in the `Deposit` transaction
    /// type that differentiated between `system` and `user` deposit transactions. This field
    /// was deprecated in the Regolith hardfork, and this error is thrown if a `Deposit` transaction
    /// is found with this field set to `true` after the hardfork activation.
    ///
    /// This error is internal, and bubbles up into a
    /// [`HaltReason::FailedDeposit`](crate::output::HaltReason::FailedDeposit) error.
    DepositSystemTxPostRegolith,
    /// Deposit transaction halts bubble up to the global main return handler, wiping state and
    /// only increasing the nonce and persisting the mint value (OP Stack chains).
    ///
    /// This is a catch-all error for any deposit transaction that results in a
    /// [`HaltReason`](crate::output::HaltReason) error post-regolith hardfork.
    HaltedDepositPostRegolith,
}

/// Errors related to misconfiguration of a block environment.
#[derive(Debug, Copy, Clone, PartialEq, Eq, Hash)]
pub enum InvalidHeader {
    /// `prevrandao` is not set for Merge and above.
    PrevrandaoNotSet,
    /// `excess_blob_gas` is not set for Cancun and above.
    ExcessBlobGasNotSet,
}

/// What is told of an invalid transaction.
pub open spec fn transaction_message(error: InvalidTransaction) -> Seq<char> {
    match error {
        InvalidTransaction::PriorityFeeGreaterThanMaxFee => "priority fee is greater than max fee"@,
        InvalidTransaction::GasPriceLessThanBasefee => "gas price is less than basefee"@,
        InvalidTransaction::CallerGasLimitMoreThanBlock =>
            "caller gas limit exceeds the block gas limit"@,
        InvalidTransaction::CallGasCostMoreThanGasLimit => "call gas cost exceeds the gas limit"@,
        InvalidTransaction::RejectCallerWithCode =>
            "reject transactions from senders with deployed code"@,
        InvalidTransaction::LackOfFundForMaxFee { fee, balance } =>
            "lack of funds ("@ + decimal(balance@) + ") for max fee ("@ + decimal(fee@) + ")"@,
        InvalidTransaction::OverflowPaymentInTransaction => "overflow payment in transaction"@,
        InvalidTransaction::NonceOverflowInTransaction => "nonce overflow in transaction"@,
        InvalidTransaction::NonceTooHigh { tx, state } =>
            "nonce "@ + decimal(tx as nat) + " too high, expected "@ + decimal(state as nat),
        InvalidTransaction::NonceTooLow { tx, state } =>
            "nonce "@ + decimal(tx as nat) + " too low, expected "@ + decimal(state as nat),
        InvalidTransaction::CreateInitCodeSizeLimit => "create initcode size limit"@,
        InvalidTransaction::InvalidChainId => "invalid chain ID"@,
        InvalidTransaction::AccessListNotSupported => "access list not supported"@,
        InvalidTransaction::MaxFeePerBlobGasNotSupported => "max fee per blob gas not supported"@,
        InvalidTransaction::BlobVersionedHashesNotSupported =>
            "blob versioned hashes not supported"@,
        InvalidTransaction::BlobGasPriceGreaterThanMax =>
            "blob gas price is greater than max fee per blob gas"@,
        InvalidTransaction::EmptyBlobs => "empty blobs"@,
        InvalidTransaction::BlobCreateTransaction => "blob create transaction"@,
        InvalidTransaction::TooManyBlobs => "too many blobs"@,
        InvalidTransaction::BlobVersionNotSupported => "blob version not supported"@,
        InvalidTransaction::DepositSystemTxPostRegolith =>
            "deposit system transactions post regolith hardfork are not supported"@,
        InvalidTransaction::HaltedDepositPostRegolith =>
            "deposit transaction halted post-regolith; error will be bubbled up to main return handler"@,
    }
}

impl InvalidTransaction {
    /// What is told of the error.
    pub fn message(&self) -> (r: String)
        ensures
            r@ == transaction_message(*self),
    {
        match self {
            Self::PriorityFeeGreaterThanMaxFee => "priority fee is greater than max fee".to_owned(),
            Self::GasPriceLessThanBasefee => "gas price is less than basefee".to_owned(),
            Self::CallerGasLimitMoreThanBlock => {
                "caller gas limit exceeds the block gas limit".to_owned()
            },
            Self::CallGasCostMoreThanGasLimit => "call gas cost exceeds the gas limit".to_owned(),
            Self::RejectCallerWithCode => {
                "reject transactions from senders with deployed code".to_owned()
            },
            Self::LackOfFundForMaxFee { fee, balance } => {
                let mut text = "lack of funds (".to_owned();
                push_decimal(&mut text, **balance);
                text.append(") for max fee (");
                push_decimal(&mut text, **fee);
                text.append(")");
                text
            },
            Self::OverflowPaymentInTransaction => "overflow payment in transaction".to_owned(),
            Self::NonceOverflowInTransaction => "nonce overflow in transaction".to_owned(),
            Self::NonceTooHigh { tx, state } => {
                let mut text = "nonce ".to_owned();
                push_decimal(&mut text, U256::from_u64(*tx));
                text.append(" too high, expected ");
                push_decimal(&mut text, U256::from_u64(*state));
                text
            },
            Self::NonceTooLow { tx, state } => {
                let mut text = "nonce ".to_owned();
                push_decimal(&mut text, U256::from_u64(*tx));
                text.append(" too low, expected ");
                push_decimal(&mut text, U256::from_u64(*state));
                text
            },
            Self::CreateInitCodeSizeLimit => "create initcode size limit".to_owned(),
            Self::InvalidChainId => "invalid chain ID".to_owned(),
            Self::AccessListNotSupported => "access list not supported".to_owned(),
            Self::MaxFeePerBlobGasNotSupported => "max fee per blob gas not supported".to_owned(),
            Self::BlobVersionedHashesNotSupported => {
                "blob versioned hashes not supported".to_owned()
            },
            Self::BlobGasPriceGreaterThanMax => {
                "blob gas price is greater than max fee per blob gas".to_owned()
            },
            Self::EmptyBlobs => "empty blobs".to_owned(),
            Self::BlobCreateTransaction => "blob create transaction".to_owned(),
            Self::TooManyBlobs => "too many blobs".to_owned(),
            Self::BlobVersionNotSupported => "blob version not supported".to_owned(),
            Self::DepositSystemTxPostRegolith => {
                "deposit system transactions post regolith hardfork are not supported".to_owned()
            },
            Self::HaltedDepositPostRegolith => {
                "deposit transaction halted post-regolith; error will be bubbled up to main return handler".to_owned()
            },
        }
    }
}

/// What is told of an invalid header.
pub open spec fn header_message(error: InvalidHeader) -> Seq<char> {
    match error {
        InvalidHeader::PrevrandaoNotSet => "`prevrandao` not set"@,
        InvalidHeader::ExcessBlobGasNotSet => "`excess_blob_gas` not set"@,
    }
}

impl InvalidHeader {
    /// What is told of the error.
    pub fn message(&self) -> (r: String)
        ensures
            r@ == header_message(*self),
    {
        match self {
            Self::PrevrandaoNotSet => "`prevrandao` not set".to_owned(),
            Self::ExcessBlobGasNotSet => "`excess_blob_gas` not set".to_owned(),
        }
    }
}

/// What is told of an error, where `database` is what a database error tells
/// of itself.
pub open spec fn evm_message<DBError>(error: EVMError<DBError>, database: Seq<char>) -> Seq<char> {
    match error {
        EVMError::Transaction(e) => "transaction validation error: "@ + transaction_message(e),
        EVMError::Header(e) => "header validation error: "@ + header_message(e),
        EVMError::Database(_) => "database error: "@ + database,
        EVMError::Custom(e) => e@,
    }
}

/// The error that lies beneath another: none beneath a custom one.
pub open spec fn error_source<DBError>(error: &EVMError<DBError>) -> Option<
    ErrorSource<'_, DBError>,
> {
    match error {
        EVMError::Transaction(e) => Some(ErrorSource::Transaction(e)),
        EVMError::Header(e) => Some(ErrorSource::Header(e)),
        EVMError::Database(e) => Some(ErrorSource::Database(e)),
        EVMError::Custom(_) => None,
    }
}

/// Two texts put together.
fn joined(head: &str, tail: &str) -> (r: String)
    ensures
        r@ == head@ + tail@,
{
    let mut text = head.to_owned();
    text.append(tail);
    text
}

impl<DBError> EVMError<DBError> {
    /// What is told of the error, where `database` is what a database error
    /// tells of itself. The other errors make no use of `database`.
    pub fn message_with(&self, database: &str) -> (r: String)
        ensures
            r@ == evm_message(*self, database@),
    {
        match self {
            Self::Transaction(e) => joined("transaction validation error: ", e.message().as_str()),
            Self::Header(e) => joined("header validation error: ", e.message().as_str()),
            Self::Database(_) => joined("database error: ", database),
            Self::Custom(e) => e.clone(),
        }
    }

    /// The error that lies beneath this one. A custom error has none.
    pub fn source(&self) -> (r: Option<ErrorSource<'_, DBError>>)
        ensures
            r == error_source(self),
    {
        match self {
            Self::Transaction(e) => Some(ErrorSource::Transaction(e)),
            Self::Header(e) => Some(ErrorSource::Header(e)),
            Self::Database(e) => Some(ErrorSource::Database(e)),
            Self::Custom(_) => None,
        }
    }

    /// The custom error that stands for a failed input or output operation,
    /// which `text` describes.
    pub fn from_io_text(text: &str) -> (r: Self)
        ensures
            r is Custom,
            r->Custom_0@ == "IO error: "@ + text@,
    {
        Self::Custom(joined("IO error: ", text))
    }
}

impl<DBError: core::fmt::Display> EVMError<DBError> {
    /// What is told of the error.
    ///
    /// Nothing is known of the text that a database error writes of itself but
    /// that it is what its `Display` gave; [`EVMError::message_with`] says what
    /// becomes of it.
    pub fn message(&self) -> (r: String)
        ensures
            match *self {
                EVMError::Database(e) => exists|text: String|
                    #[trigger] vstd::string::to_string_from_display_ensures(&e, text)
                        && r@ == evm_message(*self, text@),
                _ => r@ == evm_message(*self, seq![]),
            },
    {
        match self {
            Self::Database(e) => {
                let text = e.to_string();
                self.message_with(text.as_str())
            },
            _ => {
                proof {
                    reveal_strlit("");
                }
                self.message_with("")
            },
        }
    }
}

impl<DBError> From<InvalidTransaction> for EVMError<DBError> {
    fn from(value: InvalidTransaction) -> (r: Self)
        ensures
            r == EVMError::<DBError>::Transaction(value),
    {
        Self::Transaction(value)
    }
}

impl<DBError> vstd::std_specs::convert::FromSpecImpl<InvalidTransaction> for EVMError<DBError> {
    open spec fn obeys_from_spec() -> bool {
        true
    }

    open spec fn from_spec(value: InvalidTransaction) -> Self {
        EVMError::Transaction(value)
    }
}

impl<DBError> From<InvalidHeader> for EVMError<DBError> {
    fn from(value: InvalidHeader) -> (r: Self)
        ensures
            r == EVMError::<DBError>::Header(value),
    {
        Self::Header(value)
    }
}

impl<DBError> vstd::std_specs::convert::FromSpecImpl<InvalidHeader> for EVMError<DBError> {
    open spec fn obeys_from_spec() -> bool {
        true
    }

    open spec fn from_spec(value: InvalidHeader) -> Self {
        EVMError::Header(value)
    }
}

/// `std::io::Error`, of which nothing is known but that it can be carried
/// about and displayed.
#[verifier::external_type_specification]
#[verifier::external_body]
pub struct ExIoError(std::io::Error);

impl<DBError> From<std::io::Error> for EVMError<DBError> {
    /// The text of the error comes from the operating system or from the code
    /// that made the error, so that nothing is known of it but that it is what
    /// the error's `Display` gave.
    fn from(err: std::io::Error) -> (r: Self)
        ensures
            r is Custom,
            exists|text: String|
                #[trigger] vstd::string::to_string_from_display_ensures(&err, text)
                    && r->Custom_0@ == "IO error: "@ + text@,
    {
        let text = err.to_string();
        Self::from_io_text(text.as_str())
    }
}

impl<DBError> vstd::std_specs::convert::FromSpecImpl<std::io::Error> for EVMError<DBError> {
    open spec fn obeys_from_spec() -> bool {
        false
    }

    open spec fn from_spec(err: std::io::Error) -> Self {
        arbitrary()
    }
}

/// The length and the first character of the messages that hold no number.
spec fn outline(error: InvalidTransaction) -> (nat, char) {
    match error {
        InvalidTransaction::PriorityFeeGreaterThanMaxFee => (36, 'p'),
        InvalidTransaction::GasPriceLessThanBasefee => (30, 'g'),
        InvalidTransaction::CallerGasLimitMoreThanBlock => (44, 'c'),
        InvalidTransaction::CallGasCostMoreThanGasLimit => (35, 'c'),
        InvalidTransaction::RejectCallerWithCode => (51, 'r'),
        InvalidTransaction::OverflowPaymentInTransaction => (31, 'o'),
        InvalidTransaction::NonceOverflowInTransaction => (29, 'n'),
        InvalidTransaction::CreateInitCodeSizeLimit => (26, 'c'),
        InvalidTransaction::InvalidChainId => (16, 'i'),
        InvalidTransaction::AccessListNotSupported => (25, 'a'),
        InvalidTransaction::MaxFeePerBlobGasNotSupported => (34, 'm'),
        InvalidTransaction::BlobVersionedHashesNotSupported => (35, 'b'),
        InvalidTransaction::BlobGasPriceGreaterThanMax => (51, 'b'),
        InvalidTransaction::EmptyBlobs => (11, 'e'),
        InvalidTransaction::BlobCreateTransaction => (23, 'b'),
        InvalidTransaction::TooManyBlobs => (14, 't'),
        InvalidTransaction::BlobVersionNotSupported => (26, 'b'),
        InvalidTransaction::DepositSystemTxPostRegolith => (68, 'd'),
        InvalidTransaction::HaltedDepositPostRegolith => (89, 'd'),
        _ => (0, ' '),
    }
}

/// What the beginning of a message shows of its error.
proof fn lemma_message_outline(error: InvalidTransaction)
    ensures
        ({
            let text = transaction_message(error);
            match error {
                InvalidTransaction::LackOfFundForMaxFee { .. } => text.len() > 0 && text[0] == 'l',
                InvalidTransaction::NonceTooHigh { .. }
                | InvalidTransaction::NonceTooLow { .. } => text.len() > 6 && text[0] == 'n' && '0'
                    <= text[6] <= '9',
                InvalidTransaction::NonceOverflowInTransaction => (text.len(), text[0]) == outline(
                    error,
                ) && text[6] == 'o',
                _ => (text.len(), text[0]) == outline(error),
            }
        }),
{
    reveal_strlit("priority fee is greater than max fee");
    reveal_strlit("gas price is less than basefee");
    reveal_strlit("caller gas limit exceeds the block gas limit");
    reveal_strlit("call gas cost exceeds the gas limit");
    reveal_strlit("reject transactions from senders with deployed code");
    reveal_strlit("overflow payment in transaction");
    reveal_strlit("nonce overflow in transaction");
    reveal_strlit("create initcode size limit");
    reveal_strlit("invalid chain ID");
    reveal_strlit("access list not supported");
    reveal_strlit("max fee per blob gas not supported");
    reveal_strlit("blob versioned hashes not supported");
    reveal_strlit("blob gas price is greater than max fee per blob gas");
    reveal_strlit("empty blobs");
    reveal_strlit("blob create transaction");
    reveal_strlit("too many blobs");
    reveal_strlit("blob version not supported");
    reveal_strlit("deposit system transactions post regolith hardfork are not supported");
    reveal_strlit("deposit transaction halted post-regolith; error will be bubbled up to main return handler");
    reveal_strlit("lack of funds (");
    reveal_strlit("nonce ");
    match error {
        InvalidTransaction::NonceTooHigh { tx, .. } => law_decimal_is_canonical(tx as nat),
        InvalidTransaction::NonceTooLow { tx, .. } => law_decimal_is_canonical(tx as nat),
        _ => {},
    }
}

/// Where two texts are equal, they are so behind a common beginning, too.
proof fn lemma_same_tail(head: Seq<char>, a: Seq<char>, b: Seq<char>)
    requires
        head + a == head + b,
    ensures
        a == b,
{
    assert((head + a).subrange(head.len() as int, (head + a).len() as int) =~= a);
    assert((head + b).subrange(head.len() as int, (head + b).len() as int) =~= b);
}

/// The message of an invalid transaction tells which error it is: no two have
/// the same.
pub proof fn law_transaction_messages_differ(a: InvalidTransaction, b: InvalidTransaction)
    requires
        transaction_message(a) == transaction_message(b),
    ensures
        a == b,
{
    lemma_message_outline(a);
    lemma_message_outline(b);
    match (a, b) {
        (
            InvalidTransaction::LackOfFundForMaxFee { fee: fee_a, balance: balance_a },
            InvalidTransaction::LackOfFundForMaxFee { fee: fee_b, balance: balance_b },
        ) => lemma_fund_messages_differ(*fee_a, *balance_a, *fee_b, *balance_b),
        (
            InvalidTransaction::NonceTooHigh { tx: tx_a, state: state_a },
            InvalidTransaction::NonceTooHigh { tx: tx_b, state: state_b },
        ) => {
            reveal_strlit(" too high, expected ");
            let word = " too high, expected "@;
            lemma_nonce_messages_differ(tx_a, word, state_a, tx_b, word, state_b);
        },
        (
            InvalidTransaction::NonceTooLow { tx: tx_a, state: state_a },
            InvalidTransaction::NonceTooLow { tx: tx_b, state: state_b },
        ) => {
            reveal_strlit(" too low, expected ");
            let word = " too low, expected "@;
            lemma_nonce_messages_differ(tx_a, word, state_a, tx_b, word, state_b);
        },
        (
            InvalidTransaction::NonceTooHigh { tx: tx_a, state: state_a },
            InvalidTransaction::NonceTooLow { tx: tx_b, state: state_b },
        ) => lemma_high_is_not_low(tx_a, state_a, tx_b, state_b),
        (
            InvalidTransaction::NonceTooLow { tx: tx_a, state: state_a },
            InvalidTransaction::NonceTooHigh { tx: tx_b, state: state_b },
        ) => lemma_high_is_not_low(tx_b, state_b, tx_a, state_a),
        _ => {},
    }
}

/// The messages on a lack of funds differ wherever the amounts do.
proof fn lemma_fund_messages_differ(fee_a: U256, balance_a: U256, fee_b: U256, balance_b: U256)
    requires
        "lack of funds ("@ + decimal(balance_a@) + ") for max fee ("@ + decimal(fee_a@) + ")"@
            == "lack of funds ("@ + decimal(balance_b@) + ") for max fee ("@ + decimal(fee_b@) + ")"@,
    ensures
        fee_a == fee_b,
        balance_a == balance_b,
{
    reveal_strlit(") for max fee (");
    reveal_strlit(")");
    let head = "lack of funds ("@;
    let word = ") for max fee ("@;
    let end = ")"@;
    let last_a = decimal(fee_a@) + end;
    let last_b = decimal(fee_b@) + end;
    let rest_a = decimal(balance_a@) + (word + last_a);
    let rest_b = decimal(balance_b@) + (word + last_b);
    assert(head + decimal(balance_a@) + word + decimal(fee_a@) + end =~= head + rest_a);
    assert(head + decimal(balance_b@) + word + decimal(fee_b@) + end =~= head + rest_b);
    lemma_same_tail(head, rest_a, rest_b);
    law_decimal_is_told_from_rest(balance_a@, word + last_a, balance_b@, word + last_b);
    lemma_same_tail(word, last_a, last_b);
    law_decimal_is_told_from_rest(fee_a@, end, fee_b@, end);
    law_u256_value_is_unique(fee_a, fee_b);
    law_u256_value_is_unique(balance_a, balance_b);
}

/// The messages on nonces differ wherever the nonces, or what stands between
/// them, do.
proof fn lemma_nonce_messages_differ(
    tx_a: u64,
    word_a: Seq<char>,
    state_a: u64,
    tx_b: u64,
    word_b: Seq<char>,
    state_b: u64,
)
    requires
        "nonce "@ + decimal(tx_a as nat) + word_a + decimal(state_a as nat) == "nonce "@ + decimal(
            tx_b as nat,
        ) + word_b + decimal(state_b as nat),
        word_a.len() > 0 && word_a[0] == ' ',
        word_b.len() > 0 && word_b[0] == ' ',
    ensures
        tx_a == tx_b,
        word_a + decimal(state_a as nat) == word_b + decimal(state_b as nat),
        word_a == word_b ==> state_a == state_b,
{
    let head = "nonce "@;
    let last_a = word_a + decimal(state_a as nat);
    let last_b = word_b + decimal(state_b as nat);
    assert(head + decimal(tx_a as nat) + word_a + decimal(state_a as nat) =~= head + (decimal(
        tx_a as nat,
    ) + last_a));
    assert(head + decimal(tx_b as nat) + word_b + decimal(state_b as nat) =~= head + (decimal(
        tx_b as nat,
    ) + last_b));
    lemma_same_tail(head, decimal(tx_a as nat) + last_a, decimal(tx_b as nat) + last_b);
    law_decimal_is_told_from_rest(tx_a as nat, last_a, tx_b as nat, last_b);
    if word_a == word_b {
        lemma_same_tail(word_a, decimal(state_a as nat), decimal(state_b as nat));
        law_decimal_reads_back(state_a as nat);
        law_decimal_reads_back(state_b as nat);
    }
}

/// A nonce that is too high is not told of as one that is too low is.
proof fn lemma_high_is_not_low(tx_high: u64, state_high: u64, tx_low: u64, state_low: u64)
    ensures
        transaction_message(InvalidTransaction::NonceTooHigh { tx: tx_high, state: state_high })
            != transaction_message(InvalidTransaction::NonceTooLow { tx: tx_low, state: state_low }),
{
    reveal_strlit(" too high, expected ");
    reveal_strlit(" too low, expected ");
    let high = " too high, expected "@;
    let low = " too low, expected "@;
    if transaction_message(InvalidTransaction::NonceTooHigh { tx: tx_high, state: state_high })
        == transaction_message(InvalidTransaction::NonceTooLow { tx: tx_low, state: state_low }) {
        lemma_nonce_messages_differ(tx_high, high, state_high, tx_low, low, state_low);
        assert((high + decimal(state_high as nat))[5] == 'h');
        assert((low + decimal(state_low as nat))[5] == 'l');
    }
}

/// An error has no other beneath it if and only if it is a custom one, and one
/// that was made of an invalid transaction or header has just that beneath it.
pub proof fn law_source_is_what_was_converted<DBError>(
    error: EVMError<DBError>,
    transaction: InvalidTransaction,
    header: InvalidHeader,
)
    ensures
        error_source(&error) is None <==> error is Custom,
        error_source(
            &<EVMError<DBError> as vstd::std_specs::convert::FromSpec<
                InvalidTransaction,
            >>::from_spec(transaction),
        ) == Some(ErrorSource::<DBError>::Transaction(&transaction)),
        error_source(
            &<EVMError<DBError> as vstd::std_specs::convert::FromSpec<InvalidHeader>>::from_spec(
                header,
            ),
        ) == Some(ErrorSource::<DBError>::Header(&header)),
{
}

/// An error that was made of an invalid transaction is a transaction error and
/// holds it, and one that was made of an invalid header is a header error and
/// holds that.
pub proof fn law_conversion_keeps_kind_and_error<DBError>(
    transaction: InvalidTransaction,
    header: InvalidHeader,
    r: EVMError<DBError>,
)
    ensures
        call_ensures(
            <EVMError<DBError> as From<InvalidTransaction>>::from,
            (transaction,),
            r,
        ) ==> r is Transaction && r->Transaction_0 == transaction,
        call_ensures(<EVMError<DBError> as From<InvalidHeader>>::from, (header,), r) ==> r is Header
            && r->Header_0 == header,
        <EVMError<DBError> as vstd::std_specs::convert::FromSpec<
            InvalidTransaction,
        >>::obeys_from_spec(),
        <EVMError<DBError> as vstd::std_specs::convert::FromSpec<InvalidHeader>>::obeys_from_spec(),
        ({
            let converted = <EVMError<DBError> as vstd::std_specs::convert::FromSpec<
                InvalidTransaction,
            >>::from_spec(transaction);
            converted is Transaction && converted->Transaction_0 == transaction
        }),
        ({
            let converted = <EVMError<DBError> as vstd::std_specs::convert::FromSpec<
                InvalidHeader,
            >>::from_spec(header);
            converted is Header && converted->Header_0 == header
        }),
{
}

/// What lies beneath an error is the very error that it holds, of the same
/// kind; beneath a custom error there is nothing, whatever its text.
pub proof fn law_source_is_what_error_holds<DBError>(
    transaction: InvalidTransaction,
    header: InvalidHeader,
    database: DBError,
    text: String,
    r: Option<ErrorSource<'_, DBError>>,
)
    ensures
        call_ensures(EVMError::<DBError>::source, (&EVMError::Transaction(transaction),), r) ==> r
            == Some(ErrorSource::<DBError>::Transaction(&transaction)),
        call_ensures(EVMError::<DBError>::source, (&EVMError::Header(header),), r) ==> r == Some(
            ErrorSource::<DBError>::Header(&header),
        ),
        call_ensures(EVMError::<DBError>::source, (&EVMError::Database(database),), r) ==> r
            == Some(ErrorSource::<DBError>::Database(&database)),
        call_ensures(EVMError::<DBError>::source, (&EVMError::Custom(text),), r) ==> r is None,
        error_source(&EVMError::<DBError>::Transaction(transaction)) == Some(
            ErrorSource::<DBError>::Transaction(&transaction),
        ),
        error_source(&EVMError::<DBError>::Header(header)) == Some(
            ErrorSource::<DBError>::Header(&header),
        ),
        error_source(&EVMError::Database(database)) == Some(ErrorSource::Database(&database)),
        error_source(&EVMError::<DBError>::Custom(text)) is None,
{
}

/// The message of an error names its kind and then says what the error beneath
/// it says of itself, whatever that is; a custom error says just its own text.
pub proof fn law_message_names_kind_and_source<DBError>(
    transaction: InvalidTransaction,
    header: InvalidHeader,
    database: DBError,
    database_text: &str,
    text: String,
    beneath: String,
    r: String,
)
    ensures
        call_ensures(InvalidTransaction::message, (&transaction,), beneath) && call_ensures(
            EVMError::<DBError>::message_with,
            (&EVMError::Transaction(transaction), database_text),
            r,
        ) ==> r@ == "transaction validation error: "@ + beneath@,
        call_ensures(InvalidHeader::message, (&header,), beneath) && call_ensures(
            EVMError::<DBError>::message_with,
            (&EVMError::Header(header), database_text),
            r,
        ) ==> r@ == "header validation error: "@ + beneath@,
        call_ensures(
            EVMError::<DBError>::message_with,
            (&EVMError::Database(database), database_text),
            r,
        ) ==> r@ == "database error: "@ + database_text@,
        call_ensures(
            EVMError::<DBError>::message_with,
            (&EVMError::Custom(text), database_text),
            r,
        ) ==> r@ == text@,
        evm_message(EVMError::<DBError>::Transaction(transaction), database_text@)
            == "transaction validation error: "@ + transaction_message(transaction),
        evm_message(EVMError::<DBError>::Header(header), database_text@)
            == "header validation error: "@ + header_message(header),
        evm_message(EVMError::Database(database), database_text@) == "database error: "@
            + database_text@,
        evm_message(EVMError::<DBError>::Custom(text), database_text@) == text@,
{
}

/// The message of an error that can be displayed is what is told of it with the
/// text that its database error displays.
pub proof fn law_displayed_message<DBError: core::fmt::Display>(
    transaction: InvalidTransaction,
    header: InvalidHeader,
    database: DBError,
    text: String,
    r: String,
)
    ensures
        call_ensures(EVMError::<DBError>::message, (&EVMError::Transaction(transaction),), r)
            ==> r@ == "transaction validation error: "@ + transaction_message(transaction),
        call_ensures(EVMError::<DBError>::message, (&EVMError::Header(header),), r) ==> r@
            == "header validation error: "@ + header_message(header),
        call_ensures(EVMError::<DBError>::message, (&EVMError::Database(database),), r) ==> exists|
            shown: String,
        |
            #[trigger] vstd::string::to_string_from_display_ensures(&database, shown) && r@
                == "database error: "@ + shown@,
        call_ensures(EVMError::<DBError>::message, (&EVMError::Custom(text),), r) ==> r@ == text@,
{
}

/// A message on nonces or funds tells each number in decimal at its place,
/// whatever the numbers are.
pub proof fn law_numbers_in_messages(tx: u64, state: u64, fee: U256, balance: U256, r: String)
    ensures
        call_ensures(
            InvalidTransaction::message,
            (&InvalidTransaction::NonceTooHigh { tx, state },),
            r,
        ) ==> r@ == "nonce "@ + decimal(tx as nat) + " too high, expected "@ + decimal(
            state as nat,
        ),
        call_ensures(
            InvalidTransaction::message,
            (&InvalidTransaction::NonceTooLow { tx, state },),
            r,
        ) ==> r@ == "nonce "@ + decimal(tx as nat) + " too low, expected "@ + decimal(state as nat),
        call_ensures(
            InvalidTransaction::message,
            (
                &InvalidTransaction::LackOfFundForMaxFee {
                    fee: Box::new(fee),
                    balance: Box::new(balance),
                },
            ),
            r,
        ) ==> r@ == "lack of funds ("@ + decimal(balance@) + ") for max fee ("@ + decimal(fee@)
            + ")"@,
{
}

/// A failed input or output operation becomes a custom error that says so and
/// then gives the whole description of the failure, whatever that is.
pub proof fn law_io_failure_is_described<DBError>(
    text: &str,
    err: std::io::Error,
    r: EVMError<DBError>,
)
    ensures
        call_ensures(EVMError::<DBError>::from_io_text, (text,), r) ==> r is Custom
            && r->Custom_0@ == "IO error: "@ + text@,
        call_ensures(<EVMError<DBError> as From<std::io::Error>>::from, (err,), r) ==> r is Custom
            && exists|shown: String|
            #[trigger] vstd::string::to_string_from_display_ensures(&err, shown) && r->Custom_0@
                == "IO error: "@ + shown@,
{
}

} // verus!
