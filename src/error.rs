use vstd::prelude::*;

use crate::text::{contains, seq_contains};

verus! {

/// Error handed to an HTTP caller: a status class and a human message.
pub enum ApiError {
    BadRequest(String),
    Unauthorized(String),
    Forbidden(String),
    NotFound(String),
    Internal(String),
}

/// The HTTP status code of an error class.
pub open spec fn status_of(e: ApiError) -> u16 {
    match e {
        ApiError::BadRequest(_) => 400,
        ApiError::Unauthorized(_) => 401,
        ApiError::Forbidden(_) => 403,
        ApiError::NotFound(_) => 404,
        ApiError::Internal(_) => 500,
    }
}

impl ApiError {
    /// The HTTP status code that goes with the error class.
    pub fn status_code(&self) -> (r: u16)
        ensures
            r == status_of(*self),
    {
        match self {
            ApiError::BadRequest(_) => 400,
            ApiError::Unauthorized(_) => 401,
            ApiError::Forbidden(_) => 403,
            ApiError::NotFound(_) => 404,
            ApiError::Internal(_) => 500,
        }
    }

    /// The message carried by the error.
    pub fn message(&self) -> (r: &String)
        ensures
            r == match self {
                ApiError::BadRequest(m) => m,
                ApiError::Unauthorized(m) => m,
                ApiError::Forbidden(m) => m,
                ApiError::NotFound(m) => m,
                ApiError::Internal(m) => m,
            },
    {
        match self {
            ApiError::BadRequest(m) => m,
            ApiError::Unauthorized(m) => m,
            ApiError::Forbidden(m) => m,
            ApiError::NotFound(m) => m,
            ApiError::Internal(m) => m,
        }
    }
}

/// A refusal reported by the ledger for a single account movement.
#[derive(PartialEq, Eq, Structural, Clone, Copy, Debug)]
pub enum LedgerError {
    NotOwner,
    InsufficientFunds,
    InvalidAmount,
    SameAccount,
    SourceNotFound,
    TargetNotFound,
    Other,
}

/// The tagged refusal that a ledger error text stands for; the sentinels are
/// looked for in this order, and a text with none of them is `Other`.
pub open spec fn ledger_error_of(msg: Seq<char>) -> LedgerError {
    if seq_contains(msg, "ACCOUNT_NOT_OWNED"@) {
        LedgerError::NotOwner
    } else if seq_contains(msg, "INSUFFICIENT_FUNDS"@) {
        LedgerError::InsufficientFunds
    } else if seq_contains(msg, "AMOUNT_INVALID"@) {
        LedgerError::InvalidAmount
    } else if seq_contains(msg, "SAME_ACCOUNT"@) {
        LedgerError::SameAccount
    } else if seq_contains(msg, "ACCOUNT_FROM_NOT_FOUND"@) {
        LedgerError::SourceNotFound
    } else if seq_contains(msg, "ACCOUNT_TO_NOT_FOUND"@) {
        LedgerError::TargetNotFound
    } else {
        LedgerError::Other
    }
}

/// Reads the sentinel that the ledger put in an error text.
pub fn ledger_error_from_message(msg: &str) -> (r: LedgerError)
    ensures
        r == ledger_error_of(msg@),
{
    if contains(msg, "ACCOUNT_NOT_OWNED") {
        LedgerError::NotOwner
    } else if contains(msg, "INSUFFICIENT_FUNDS") {
        LedgerError::InsufficientFunds
    } else if contains(msg, "AMOUNT_INVALID") {
        LedgerError::InvalidAmount
    } else if contains(msg, "SAME_ACCOUNT") {
        LedgerError::SameAccount
    } else if contains(msg, "ACCOUNT_FROM_NOT_FOUND") {
        LedgerError::SourceNotFound
    } else if contains(msg, "ACCOUNT_TO_NOT_FOUND") {
        LedgerError::TargetNotFound
    } else {
        LedgerError::Other
    }
}

/// Why a request was refused before any side effect.
#[derive(PartialEq, Eq, Structural, Clone, Copy, Debug)]
pub enum Invalid {
    /// The PIN is not six ASCII digits.
    PinFormat,
    /// A postpaid payment names no inquired transaction.
    MissingRefId,
    /// An e-money inquiry carries no positive amount.
    NonPositiveAmount,
    /// The stored inquiry holds no positive bill (or nominal) to charge.
    InquiryAmountMissing,
    /// A store announcement names no store.
    MissingStoreId,
    /// A store announcement names no company.
    MissingCompanyId,
    /// A single push names no device token.
    MissingToken,
    /// A single push has a blank title or body.
    MissingTitleOrBody,
    /// A role name other than `admin` or `user`.
    UnknownRole,
    /// A transfer names the same account on both sides.
    SameAccounts,
}

/// What a lookup did not find.
#[derive(PartialEq, Eq, Structural, Clone, Copy, Debug)]
pub enum Missing {
    Product,
    Transaction,
    Store,
    Recipients,
    Template,
}

/// Why an orchestrated operation ended without success.
#[derive(PartialEq, Eq, Structural, Clone, Copy, Debug)]
pub enum FlowError {
    /// Malformed input, rejected before any side effect.
    Validation(Invalid),
    /// The PIN did not match the account.
    Authorization,
    NotFound(Missing),
    /// The provider's deposit does not cover the product price.
    InsufficientBalance,
    /// The ledger refused the debit.
    Ledger(LedgerError),
    /// Network failure, non-2xx status, malformed reply, missing provider
    /// configuration or a failed record write.
    ExternalService,
    /// The provider explicitly reported the purchase as failed.
    BusinessFailure,
}

/// The caller-facing class of a flow error.
pub open spec fn api_class(e: FlowError) -> u16 {
    match e {
        FlowError::Validation(_) => 400,
        FlowError::Authorization => 401,
        FlowError::NotFound(_) => 404,
        FlowError::InsufficientBalance => 400,
        FlowError::Ledger(l) => match l {
            LedgerError::NotOwner => 403,
            LedgerError::Other => 500,
            _ => 400,
        },
        FlowError::ExternalService => 500,
        FlowError::BusinessFailure => 500,
    }
}

/// The message of an error as handed to a caller.
pub open spec fn message_of(e: ApiError) -> Seq<char> {
    match e {
        ApiError::BadRequest(m) => m@,
        ApiError::Unauthorized(m) => m@,
        ApiError::Forbidden(m) => m@,
        ApiError::NotFound(m) => m@,
        ApiError::Internal(m) => m@,
    }
}

/// The caller-facing message of a flow error.
pub open spec fn api_message(e: FlowError) -> Seq<char> {
    match e {
        FlowError::Validation(Invalid::PinFormat) => "pin must be 6 digits"@,
        FlowError::Validation(Invalid::MissingRefId) => "ref_id is required"@,
        FlowError::Validation(Invalid::NonPositiveAmount) => "amount must be > 0 for emoney"@,
        FlowError::Validation(Invalid::InquiryAmountMissing) => "amount not found from inquiry"@,
        FlowError::Validation(Invalid::MissingStoreId) => "id_store is required"@,
        FlowError::Validation(Invalid::MissingCompanyId) => "id_cmp is required"@,
        FlowError::Validation(Invalid::MissingToken) => "token is required"@,
        FlowError::Validation(Invalid::MissingTitleOrBody) => "title and body are required"@,
        FlowError::Validation(Invalid::UnknownRole) => "role must be admin|user"@,
        FlowError::Validation(Invalid::SameAccounts) => "from_account_no and to_account_no must be different"@,
        FlowError::Authorization => "invalid PIN"@,
        FlowError::NotFound(Missing::Product) => "product not found"@,
        FlowError::NotFound(Missing::Transaction) => "transaction not found"@,
        FlowError::NotFound(Missing::Store) => "store not found"@,
        FlowError::NotFound(Missing::Recipients) => "fcm token not found"@,
        FlowError::NotFound(Missing::Template) => "notification template not found"@,
        FlowError::InsufficientBalance => "digiflazz saldo tidak cukup"@,
        FlowError::Ledger(LedgerError::NotOwner) => "account not owned"@,
        FlowError::Ledger(LedgerError::InsufficientFunds) => "insufficient funds"@,
        FlowError::Ledger(LedgerError::InvalidAmount) => "amount invalid"@,
        FlowError::Ledger(LedgerError::SameAccount) => "same account"@,
        FlowError::Ledger(LedgerError::SourceNotFound) => "source account not found"@,
        FlowError::Ledger(LedgerError::TargetNotFound) => "target account not found"@,
        FlowError::Ledger(LedgerError::Other) => "ledger error"@,
        FlowError::ExternalService => "provider error"@,
        FlowError::BusinessFailure => "provider reported the purchase as failed"@,
    }
}

fn message_for(e: FlowError) -> (r: String)
    ensures
        r@ == api_message(e),
{
    match e {
        FlowError::Validation(Invalid::PinFormat) => "pin must be 6 digits".to_string(),
        FlowError::Validation(Invalid::MissingRefId) => "ref_id is required".to_string(),
        FlowError::Validation(Invalid::NonPositiveAmount) => "amount must be > 0 for emoney".to_string(),
        FlowError::Validation(Invalid::InquiryAmountMissing) => "amount not found from inquiry".to_string(),
        FlowError::Validation(Invalid::MissingStoreId) => "id_store is required".to_string(),
        FlowError::Validation(Invalid::MissingCompanyId) => "id_cmp is required".to_string(),
        FlowError::Validation(Invalid::MissingToken) => "token is required".to_string(),
        FlowError::Validation(Invalid::MissingTitleOrBody) => "title and body are required".to_string(),
        FlowError::Validation(Invalid::UnknownRole) => "role must be admin|user".to_string(),
        FlowError::Validation(Invalid::SameAccounts) => "from_account_no and to_account_no must be different".to_string(),
        FlowError::Authorization => "invalid PIN".to_string(),
        FlowError::NotFound(Missing::Product) => "product not found".to_string(),
        FlowError::NotFound(Missing::Transaction) => "transaction not found".to_string(),
        FlowError::NotFound(Missing::Store) => "store not found".to_string(),
        FlowError::NotFound(Missing::Recipients) => "fcm token not found".to_string(),
        FlowError::NotFound(Missing::Template) => "notification template not found".to_string(),
        FlowError::InsufficientBalance => "digiflazz saldo tidak cukup".to_string(),
        FlowError::Ledger(LedgerError::NotOwner) => "account not owned".to_string(),
        FlowError::Ledger(LedgerError::InsufficientFunds) => "insufficient funds".to_string(),
        FlowError::Ledger(LedgerError::InvalidAmount) => "amount invalid".to_string(),
        FlowError::Ledger(LedgerError::SameAccount) => "same account".to_string(),
        FlowError::Ledger(LedgerError::SourceNotFound) => "source account not found".to_string(),
        FlowError::Ledger(LedgerError::TargetNotFound) => "target account not found".to_string(),
        FlowError::Ledger(LedgerError::Other) => "ledger error".to_string(),
        FlowError::ExternalService => "provider error".to_string(),
        FlowError::BusinessFailure => "provider reported the purchase as failed".to_string(),
    }
}

impl FlowError {
    /// The caller-facing error for this outcome.
    pub fn to_api_error(&self) -> (r: ApiError)
        ensures
            status_of(r) == api_class(*self),
            message_of(r) == api_message(*self),
    {
        let m = message_for(*self);
        match self {
            FlowError::Validation(_) => ApiError::BadRequest(m),
            FlowError::Authorization => ApiError::Unauthorized(m),
            FlowError::NotFound(_) => ApiError::NotFound(m),
            FlowError::InsufficientBalance => ApiError::BadRequest(m),
            FlowError::Ledger(l) => match l {
                LedgerError::NotOwner => ApiError::Forbidden(m),
                LedgerError::Other => ApiError::Internal(m),
                _ => ApiError::BadRequest(m),
            },
            FlowError::ExternalService => ApiError::Internal(m),
            FlowError::BusinessFailure => ApiError::Internal(m),
        }
    }
}

} // verus!
