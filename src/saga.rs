use vstd::prelude::*;

use crate::catalog::{emoney_code, entry_is_emoney, is_emoney_code, is_emoney_entry, ProductEntry};
use crate::error::{
    api_class, api_message, message_of, status_of, ApiError, FlowError, Invalid, LedgerError, Missing,
};
use crate::pin::{is_valid_pin, valid_pin};
use crate::provider::{
    balance_request, bill_amount, bill_amount_of, classify, clone_opt, deposit_of, is_success_code,
    is_success_word, success_code,
    json_number_at, json_text_at, json_valid, opt_view, or_empty, read_envelope, sign_of, status_text,
    success_word, transaction_request, verdict_of, BalanceRequest, ProviderConfig, ProviderReply,
    TransactionRequest, Verdict,
};
use crate::text::{decimal, decimal_text, same_text, trim, trim_of};

verus! {

/// The four orchestrated operations.
#[derive(PartialEq, Eq, Structural, Clone, Copy, Debug)]
pub enum Flow {
    /// Single-shot purchase: debit, submit, confirm, maybe reverse.
    Prepaid,
    /// Postpaid bill inquiry: no money moves.
    Inquiry,
    /// Postpaid payment of an inquired bill.
    Pay,
    /// Re-query of a recorded transaction: no money moves.
    StatusCheck,
}

/// Where a saga stands: which answer it waits for.
#[derive(PartialEq, Eq, Structural, Clone, Copy, Debug)]
pub enum Phase {
    Start,
    AwaitPin,
    AwaitProduct,
    AwaitBalance,
    AwaitStored,
    AwaitDebit,
    AwaitSave,
    AwaitSubmit,
    /// A payment's own reply is being written before its confirmation.
    AwaitNote,
    AwaitDelay,
    AwaitStatus,
    AwaitCredit,
    AwaitUpdate,
    Done,
}

/// Lifecycle state written to the transaction record.
#[derive(PartialEq, Eq, Structural, Clone, Copy, Debug)]
pub enum TxStatus {
    Inquiry,
    Submitted,
    Success,
    Failed,
    Reversed,
}

/// The text a lifecycle state is stored as.
pub open spec fn status_label(s: TxStatus) -> Seq<char> {
    match s {
        TxStatus::Inquiry => "INQUIRY"@,
        TxStatus::Submitted => "SUBMITTED"@,
        TxStatus::Success => "SUCCESS"@,
        TxStatus::Failed => "FAILED"@,
        TxStatus::Reversed => "REVERSED"@,
    }
}

impl TxStatus {
    /// The stored text of this state.
    pub fn label(&self) -> (r: String)
        ensures
            r@ == status_label(*self),
    {
        match self {
            TxStatus::Inquiry => "INQUIRY".to_string(),
            TxStatus::Submitted => "SUBMITTED".to_string(),
            TxStatus::Success => "SUCCESS".to_string(),
            TxStatus::Failed => "FAILED".to_string(),
            TxStatus::Reversed => "REVERSED".to_string(),
        }
    }
}

/// A recorded transaction, as loaded by its `ref_id`.
pub struct StoredTx {
    pub buyer_sku_code: String,
    pub customer_no: String,
    pub product_type: String,
    /// The e-money nominal recorded at inquiry time.
    pub amount: i64,
    /// The bill recorded at inquiry time: what a payment charges.
    pub price: i64,
    pub status: String,
}

/// The row written (inserted or updated, keyed by `ref_id`) for a
/// transaction, with the request fields kept for audit.
pub struct TxRecord {
    pub ref_id: String,
    pub buyer_sku_code: String,
    pub customer_no: String,
    pub product_type: String,
    pub amount: i64,
    pub price: i64,
    pub commands: Option<String>,
    pub request_amount: Option<i64>,
    pub year: Option<i32>,
    pub testing: Option<bool>,
}

/// What a provider reply contributes to the record.
pub struct Observation {
    pub rc: String,
    pub message: String,
    pub sn: Option<String>,
    /// The raw reply body, when a response arrived.
    pub response: Option<String>,
    /// Whether `response` is kept as the JSON it holds (else as raw text).
    pub body_is_json: bool,
    /// The HTTP status code of the reply, when a response arrived.
    pub http_status: Option<u16>,
}

impl Observation {
    /// The observation holds what `reply` says: the envelope fields of a
    /// JSON body; for any other body a fixed message, and the HTTP status
    /// code as result code when it is not a 2xx one.
    pub open spec fn of(&self, reply: ProviderReply) -> bool {
        match reply {
            ProviderReply::Unreachable => {
                &&& self.rc@ == Seq::<char>::empty()
                &&& self.message@ == "provider unreachable"@
                &&& self.sn is None
                &&& self.response is None
                &&& !self.body_is_json
                &&& self.http_status is None
            },
            ProviderReply::Answered { status, body } => {
                &&& self.response == Some(body)
                &&& self.http_status == Some(status)
                &&& self.body_is_json == json_valid(body@)
                &&& if json_valid(body@) {
                    &&& self.rc@ == or_empty(json_text_at(body@, "/data/rc"@))
                    &&& self.message@ == or_empty(json_text_at(body@, "/data/message"@))
                    &&& opt_view(self.sn) == json_text_at(body@, "/data/sn"@)
                } else {
                    &&& self.rc@ == if success_code(status) {
                        Seq::<char>::empty()
                    } else {
                        decimal(status as nat)
                    }
                    &&& self.message@ == "digiflazz http error"@
                    &&& self.sn is None
                }
            },
        }
    }

    /// The observation of a non-2xx reply to a status re-query: the HTTP
    /// status code as result code, a fixed message, and the body kept as
    /// raw text.
    pub open spec fn http_failure_of(&self, status: u16, body: String) -> bool {
        &&& self.rc@ == decimal(status as nat)
        &&& self.message@ == "digiflazz http error"@
        &&& self.sn is None
        &&& self.response == Some(body)
        &&& !self.body_is_json
        &&& self.http_status == Some(status)
    }

    /// An observation with nothing in it.
    pub open spec fn is_blank(&self) -> bool {
        &&& self.rc@ == Seq::<char>::empty()
        &&& self.message@ == Seq::<char>::empty()
        &&& self.sn is None
        &&& self.response is None
        &&& !self.body_is_json
        &&& self.http_status is None
    }

    /// A blank observation.
    pub fn blank() -> (r: Observation)
        ensures
            r.is_blank(),
    {
        Observation {
            rc: String::new(),
            message: String::new(),
            sn: None,
            response: None,
            body_is_json: false,
            http_status: None,
        }
    }

    /// A copy of the observation.
    pub fn duplicate(&self) -> (r: Observation)
        ensures
            r == *self,
    {
        Observation {
            rc: self.rc.clone(),
            message: self.message.clone(),
            sn: clone_opt(&self.sn),
            response: clone_opt(&self.response),
            body_is_json: self.body_is_json,
            http_status: self.http_status,
        }
    }
}

/// Reads what a provider reply contributes to the record.
pub fn observe(reply: &ProviderReply) -> (r: Observation)
    ensures
        r.of(*reply),
{
    match reply {
        ProviderReply::Unreachable => Observation {
            rc: String::new(),
            message: "provider unreachable".to_string(),
            sn: None,
            response: None,
            body_is_json: false,
            http_status: None,
        },
        ProviderReply::Answered { status, body } => match read_envelope(body.as_str()) {
            Some(env) => Observation {
                rc: env.rc,
                message: env.message,
                sn: env.sn,
                response: Some(body.clone()),
                body_is_json: true,
                http_status: Some(*status),
            },
            None => Observation {
                rc: if is_success_code(*status) {
                    String::new()
                } else {
                    decimal_text(*status)
                },
                message: "digiflazz http error".to_string(),
                sn: None,
                response: Some(body.clone()),
                body_is_json: false,
                http_status: Some(*status),
            },
        },
    }
}

/// Records a non-2xx reply to a status re-query.
pub fn observe_http_failure(status: u16, body: &String) -> (r: Observation)
    ensures
        r.http_failure_of(status, *body),
{
    Observation {
        rc: decimal_text(status),
        message: "digiflazz http error".to_string(),
        sn: None,
        response: Some(body.clone()),
        body_is_json: false,
        http_status: Some(status),
    }
}

/// How a status re-query's reply is recorded: a non-2xx reply keeps its
/// status code and raw body, any other reply reads as usual.
pub open spec fn status_reply_noted(o: Observation, r: ProviderReply) -> bool {
    match r {
        ProviderReply::Answered { status, body } => if !success_code(status) {
            o.http_failure_of(status, body)
        } else {
            o.of(r)
        },
        ProviderReply::Unreachable => o.of(r),
    }
}

/// Records the reply to a status re-query.
pub fn observe_status_reply(r: &ProviderReply) -> (o: Observation)
    ensures
        status_reply_noted(o, *r),
{
    match r {
        ProviderReply::Answered { status, body } => if !is_success_code(*status) {
            observe_http_failure(*status, body)
        } else {
            observe(r)
        },
        ProviderReply::Unreachable => observe(r),
    }
}

/// What the caller of a saga must do next.
pub enum Action {
    /// Ask the ledger whether `pin` opens the account.
    VerifyPin { pin: String },
    /// Look the product up in the catalog.
    FindProduct { buyer_sku_code: String },
    /// Ask the provider for its deposit balance.
    CheckBalance(BalanceRequest),
    /// Load the recorded transaction with this `ref_id`.
    LoadTransaction { ref_id: String },
    /// Debit the account by `amount`.
    Debit { amount: i64 },
    /// Insert or update the transaction row keyed by its `ref_id`.
    SaveRecord(TxRecord),
    /// Send a `/transaction` call to the provider.
    Submit(TransactionRequest),
    /// Pause for the fixed confirmation delay.
    Wait,
    /// Credit `amount` back to the account, as a reversal.
    Credit { amount: i64 },
    /// Write the lifecycle state and provider fields to the row.
    UpdateRecord { tx_id: i64, ref_id: String, status: TxStatus, obs: Observation },
    /// Nothing is left to do; the outcome is final.
    Finish,
}

/// The answer to the last action.
pub enum Event {
    Start,
    PinChecked(bool),
    Product(Option<ProductEntry>),
    Stored(Option<StoredTx>),
    Debited(Result<(), LedgerError>),
    /// The record's id, or nothing when the write failed.
    Saved(Option<i64>),
    Replied(ProviderReply),
    Waited,
    /// Whether the ledger applied the reversal.
    Credited(bool),
    Updated,
}

/// A prepaid purchase order.
pub struct PrepaidOrder {
    pub pin: String,
    pub buyer_sku_code: String,
    pub customer_no: String,
    pub commands: Option<String>,
}

/// A postpaid inquiry request.
pub struct DigiflazzPascaInquiryReq {
    pub buyer_sku_code: String,
    pub customer_no: String,
    pub ref_id: Option<String>,
    pub amount: Option<i64>,
    pub year: Option<i32>,
    pub testing: Option<bool>,
}

/// A postpaid payment order. `amount` is what the caller claims; the charge
/// never reads it.
pub struct PayOrder {
    pub pin: String,
    pub ref_id: Option<String>,
    pub amount: Option<i64>,
    pub year: Option<i32>,
    pub testing: Option<bool>,
}

/// One orchestrated operation in progress.
pub struct Saga {
    pub flow: Flow,
    pub phase: Phase,
    pub cfg: ProviderConfig,
    pub ref_id: String,
    pub pin: String,
    pub buyer_sku_code: String,
    pub customer_no: String,
    pub product_type: String,
    /// The command of the flow's main provider call.
    pub commands: Option<String>,
    pub requested_amount: Option<i64>,
    pub year: Option<i32>,
    pub testing: Option<bool>,
    pub emoney: bool,
    pub nominal: i64,
    /// What the purchase charges.
    pub price: i64,
    /// A status check of a row that was already reversed keeps it so.
    pub reversed_before: bool,
    /// Amount the ledger confirmed debiting.
    pub debited: i64,
    /// Amount the ledger confirmed crediting back.
    pub credited: i64,
    /// Debit actions issued.
    pub debits: u8,
    /// Credit actions issued.
    pub credits: u8,
    pub tx_id: Option<i64>,
    /// The provider fields waiting to be written.
    pub pending: Observation,
    pub outcome: Option<Result<String, FlowError>>,
}

/// An optional amount, zero when absent.
pub open spec fn amount_or_zero(a: Option<i64>) -> i64 {
    match a {
        Some(x) => x,
        None => 0,
    }
}

/// The error a failed provider verdict is reported as.
pub open spec fn error_of(v: Verdict) -> FlowError {
    if v == Verdict::Declined {
        FlowError::BusinessFailure
    } else {
        FlowError::ExternalService
    }
}

/// The deposit a balance reply reports, if it is a 2xx reply holding one.
pub open spec fn balance_of(r: ProviderReply) -> Option<i64> {
    match r {
        ProviderReply::Answered { status, body } => if success_code(status) {
            json_number_at(body@, "/data/deposit"@)
        } else {
            None
        },
        ProviderReply::Unreachable => None,
    }
}

/// The status text of a reply body (empty when absent).
pub open spec fn status_text_of(r: ProviderReply) -> Seq<char> {
    match r {
        ProviderReply::Answered { status, body } => or_empty(json_text_at(body@, "/data/status"@)),
        ProviderReply::Unreachable => Seq::empty(),
    }
}

/// The record state for an accepted reply: `SUCCESS` when the provider says
/// so, `SUBMITTED` while it is still pending.
pub open spec fn accepted_status(r: ProviderReply) -> TxStatus {
    if success_word(trim_of(status_text_of(r))) {
        TxStatus::Success
    } else {
        TxStatus::Submitted
    }
}

/// The bill amount of an inquiry reply.
pub open spec fn bill_of(r: ProviderReply) -> i64 {
    match r {
        ProviderReply::Answered { status, body } => bill_amount_of(body@),
        ProviderReply::Unreachable => 0,
    }
}

/// The caller's result for a flow that reports a 2xx reply body as is.
pub open spec fn body_result(r: ProviderReply) -> Result<String, FlowError> {
    match r {
        ProviderReply::Answered { status, body } => if success_code(status) {
            Ok(body)
        } else {
            Err(FlowError::ExternalService)
        },
        ProviderReply::Unreachable => Err(FlowError::ExternalService),
    }
}

impl Saga {
    /// The amount field sent with the main provider call.
    pub open spec fn sent_amount(&self) -> Option<i64> {
        match self.flow {
            Flow::Inquiry => if self.emoney {
                self.requested_amount
            } else {
                None
            },
            Flow::Pay => if self.emoney {
                Some(self.nominal)
            } else {
                None
            },
            _ => None,
        }
    }

    /// The amount column of the record.
    pub open spec fn recorded_amount(&self) -> i64 {
        if self.flow == Flow::Inquiry {
            self.nominal
        } else {
            self.price
        }
    }

    /// The row this saga writes.
    pub open spec fn record(&self) -> TxRecord {
        TxRecord {
            ref_id: self.ref_id,
            buyer_sku_code: self.buyer_sku_code,
            customer_no: self.customer_no,
            product_type: self.product_type,
            amount: self.recorded_amount(),
            price: self.price,
            commands: self.commands,
            request_amount: self.sent_amount(),
            year: self.year,
            testing: self.testing,
        }
    }

    /// `req` is this saga's main provider call.
    pub open spec fn main_call(&self, req: TransactionRequest) -> bool {
        &&& req.signed_for(self.cfg, self.ref_id@)
        &&& opt_view(req.commands) == opt_view(self.commands)
        &&& req.buyer_sku_code@ == self.buyer_sku_code@
        &&& req.customer_no@ == self.customer_no@
        &&& req.amount == self.sent_amount()
        &&& req.year == self.year
        &&& req.testing == self.testing
    }

    /// `req` is this saga's status query: `status-pasca` for a payment, no
    /// command for a prepaid purchase, and the recorded command for a
    /// status check.
    pub open spec fn status_call(&self, req: TransactionRequest) -> bool {
        &&& req.signed_for(self.cfg, self.ref_id@)
        &&& match self.flow {
            Flow::Pay => opt_view(req.commands) == Some("status-pasca"@),
            Flow::StatusCheck => opt_view(req.commands) == opt_view(self.commands),
            _ => req.commands is None,
        }
        &&& req.buyer_sku_code@ == self.buyer_sku_code@
        &&& req.customer_no@ == self.customer_no@
        &&& req.amount is None
        &&& req.year is None
        &&& req.testing is None
    }

    /// Whether `e` answers what the saga waits for.
    pub open spec fn expects(&self, e: Event) -> bool {
        match (self.phase, e) {
            (Phase::Start, Event::Start) => true,
            (Phase::AwaitPin, Event::PinChecked(_)) => true,
            (Phase::AwaitProduct, Event::Product(_)) => true,
            (Phase::AwaitBalance, Event::Replied(_)) => true,
            (Phase::AwaitStored, Event::Stored(_)) => true,
            (Phase::AwaitDebit, Event::Debited(_)) => true,
            (Phase::AwaitSave, Event::Saved(_)) => true,
            (Phase::AwaitSubmit, Event::Replied(_)) => true,
            (Phase::AwaitNote, Event::Updated) => true,
            (Phase::AwaitDelay, Event::Waited) => true,
            (Phase::AwaitStatus, Event::Replied(_)) => true,
            (Phase::AwaitCredit, Event::Credited(_)) => true,
            (Phase::AwaitUpdate, Event::Updated) => true,
            _ => false,
        }
    }
}

/// `t` is `s` ended with result `r`, and nothing is left to do.
pub open spec fn finishes(s: Saga, t: Saga, a: Action, r: Result<String, FlowError>) -> bool {
    t == Saga { phase: Phase::Done, outcome: Some(r), ..s } && a == Action::Finish
}

/// `t` credits back what `s` debited, then ends with `r`; `t.pending` is
/// left to the caller to pin down.
pub open spec fn reverses(s: Saga, t: Saga, a: Action, r: Result<String, FlowError>) -> bool {
    &&& t == Saga {
        phase: Phase::AwaitCredit,
        credits: (s.credits + 1) as u8,
        outcome: Some(r),
        pending: t.pending,
        ..s
    }
    &&& a == Action::Credit { amount: s.debited }
}

/// A postpaid inquiry whose e-money class is known: refuse an e-money
/// inquiry without a positive amount, then a configuration that cannot
/// sign, else submit `inq-pasca`.
pub open spec fn inquiry_gate(u: Saga, t: Saga, a: Action) -> bool {
    if u.emoney && amount_or_zero(u.requested_amount) <= 0 {
        finishes(u, t, a, Err(FlowError::Validation(Invalid::NonPositiveAmount)))
    } else if !u.cfg.usable() {
        finishes(u, t, a, Err(FlowError::ExternalService))
    } else {
        t == Saga { phase: Phase::AwaitSubmit, ..u } && (a matches Action::Submit(req) && u.main_call(req))
    }
}

/// A postpaid payment whose e-money class is known: charge the recorded
/// bill, unless the inquiry left nothing to charge or the configuration
/// cannot sign the payment that would follow.
pub open spec fn charge_gate(u: Saga, t: Saga, a: Action) -> bool {
    if u.price <= 0 || (u.emoney && u.nominal <= 0) {
        finishes(u, t, a, Err(FlowError::Validation(Invalid::InquiryAmountMissing)))
    } else if !u.cfg.usable() {
        finishes(u, t, a, Err(FlowError::ExternalService))
    } else {
        t == Saga { phase: Phase::AwaitDebit, debits: (u.debits + 1) as u8, ..u } && a
            == Action::Debit { amount: u.price }
    }
}

/// The transition relation: on event `e`, saga `s` becomes `t` and asks for
/// action `a`.
pub open spec fn step_spec(s: Saga, e: Event, t: Saga, a: Action) -> bool {
    match e {
        Event::Start => match s.flow {
            Flow::Prepaid => if !valid_pin(s.pin@) {
                finishes(s, t, a, Err(FlowError::Validation(Invalid::PinFormat)))
            } else {
                t == Saga { phase: Phase::AwaitPin, ..s } && a == Action::VerifyPin { pin: s.pin }
            },
            Flow::Pay => if !valid_pin(s.pin@) {
                finishes(s, t, a, Err(FlowError::Validation(Invalid::PinFormat)))
            } else if s.ref_id@.len() == 0 {
                finishes(s, t, a, Err(FlowError::Validation(Invalid::MissingRefId)))
            } else {
                t == Saga { phase: Phase::AwaitPin, ..s } && a == Action::VerifyPin { pin: s.pin }
            },
            Flow::Inquiry => if emoney_code(s.buyer_sku_code@) {
                inquiry_gate(Saga { emoney: true, ..s }, t, a)
            } else {
                t == Saga { phase: Phase::AwaitProduct, ..s } && a == Action::FindProduct {
                    buyer_sku_code: s.buyer_sku_code,
                }
            },
            Flow::StatusCheck => t == Saga { phase: Phase::AwaitStored, ..s } && a
                == Action::LoadTransaction { ref_id: s.ref_id },
        },
        Event::PinChecked(ok) => if !ok {
            finishes(s, t, a, Err(FlowError::Authorization))
        } else if s.flow == Flow::Prepaid {
            t == Saga { phase: Phase::AwaitProduct, ..s } && a == Action::FindProduct {
                buyer_sku_code: s.buyer_sku_code,
            }
        } else {
            t == Saga { phase: Phase::AwaitStored, ..s } && a == Action::LoadTransaction {
                ref_id: s.ref_id,
            }
        },
        Event::Product(p) => {
            let emoney = match p {
                Some(x) => entry_is_emoney(x),
                None => false,
            };
            match s.flow {
                Flow::Prepaid => match p {
                    None => finishes(s, t, a, Err(FlowError::NotFound(Missing::Product))),
                    Some(x) => if x.price <= 0 {
                        finishes(s, t, a, Err(FlowError::Validation(Invalid::NonPositiveAmount)))
                    } else if !s.cfg.usable() {
                        finishes(s, t, a, Err(FlowError::ExternalService))
                    } else {
                        &&& t == Saga {
                            phase: Phase::AwaitBalance,
                            price: x.price,
                            product_type: x.product_type,
                            ..s
                        }
                        &&& a matches Action::CheckBalance(req)
                        &&& req.cmd@ == "deposit"@
                        &&& req.username@ == s.cfg.username@
                        &&& req.sign@ == sign_of(s.cfg, "depo"@)
                    },
                },
                Flow::Inquiry => inquiry_gate(Saga { emoney: emoney, ..s }, t, a),
                _ => charge_gate(Saga { emoney: emoney, ..s }, t, a),
            }
        },
        Event::Replied(r) => match s.phase {
            Phase::AwaitBalance => match balance_of(r) {
                None => finishes(s, t, a, Err(FlowError::ExternalService)),
                Some(d) => if d < s.price {
                    finishes(s, t, a, Err(FlowError::InsufficientBalance))
                } else {
                    t == Saga { phase: Phase::AwaitDebit, debits: (s.debits + 1) as u8, ..s } && a
                        == Action::Debit { amount: s.price }
                },
            },
            Phase::AwaitSubmit => match s.flow {
                Flow::Prepaid => if verdict_of(r).failed() {
                    reverses(s, t, a, Err(error_of(verdict_of(r)))) && t.pending.of(r)
                } else {
                    t == Saga { phase: Phase::AwaitDelay, ..s } && a == Action::Wait
                },
                Flow::Pay => {
                    &&& s.tx_id is Some
                    &&& t == Saga { phase: Phase::AwaitNote, pending: t.pending, ..s }
                    &&& t.pending.of(r)
                    &&& a == Action::UpdateRecord {
                        tx_id: s.tx_id->Some_0,
                        ref_id: s.ref_id,
                        status: TxStatus::Submitted,
                        obs: t.pending,
                    }
                },
                Flow::Inquiry => {
                    let bill = bill_of(r);
                    &&& t == Saga {
                        phase: Phase::AwaitSave,
                        price: bill,
                        nominal: if s.emoney {
                            amount_or_zero(s.requested_amount)
                        } else {
                            bill
                        },
                        pending: t.pending,
                        outcome: Some(body_result(r)),
                        ..s
                    }
                    &&& t.pending.of(r)
                    &&& a == Action::SaveRecord(t.record())
                },
                Flow::StatusCheck => {
                    let v = verdict_of(r);
                    let status = if s.reversed_before {
                        TxStatus::Reversed
                    } else if v == Verdict::Accepted {
                        accepted_status(r)
                    } else {
                        TxStatus::Failed
                    };
                    let result = if v == Verdict::Accepted || v == Verdict::Declined {
                        body_result(r)
                    } else {
                        Err(FlowError::ExternalService)
                    };
                    &&& s.tx_id is Some
                    &&& t == Saga {
                        phase: Phase::AwaitUpdate,
                        pending: t.pending,
                        outcome: Some(result),
                        ..s
                    }
                    &&& status_reply_noted(t.pending, r)
                    &&& a == Action::UpdateRecord {
                        tx_id: s.tx_id->Some_0,
                        ref_id: s.ref_id,
                        status: status,
                        obs: t.pending,
                    }
                },
            },
            _ => if verdict_of(r).failed() {
                reverses(s, t, a, Err(error_of(verdict_of(r)))) && t.pending.of(r)
            } else {
                &&& s.tx_id is Some
                &&& t == Saga {
                    phase: Phase::AwaitUpdate,
                    pending: t.pending,
                    outcome: Some(body_result(r)),
                    ..s
                }
                &&& t.pending.of(r)
                &&& a == Action::UpdateRecord {
                    tx_id: s.tx_id->Some_0,
                    ref_id: s.ref_id,
                    status: accepted_status(r),
                    obs: t.pending,
                }
            },
        },
        Event::Stored(o) => match o {
            None => finishes(s, t, a, Err(FlowError::NotFound(Missing::Transaction))),
            Some(x) => if s.flow == Flow::Pay {
                let u = Saga {
                    buyer_sku_code: x.buyer_sku_code,
                    customer_no: x.customer_no,
                    nominal: x.amount,
                    price: x.price,
                    ..s
                };
                if emoney_code(x.buyer_sku_code@) {
                    charge_gate(Saga { emoney: true, ..u }, t, a)
                } else {
                    t == Saga { phase: Phase::AwaitProduct, ..u } && a == Action::FindProduct {
                        buyer_sku_code: u.buyer_sku_code,
                    }
                }
            } else {
                let u = Saga {
                    buyer_sku_code: x.buyer_sku_code,
                    customer_no: x.customer_no,
                    product_type: x.product_type,
                    nominal: x.amount,
                    price: x.price,
                    reversed_before: x.status@ == "REVERSED"@,
                    ..s
                };
                if !s.cfg.usable() {
                    finishes(u, t, a, Err(FlowError::ExternalService))
                } else {
                    t == Saga { phase: Phase::AwaitSave, ..u } && a == Action::SaveRecord(u.record())
                }
            },
        },
        Event::Debited(res) => match res {
            Err(le) => finishes(s, t, a, Err(FlowError::Ledger(le))),
            Ok(_) => {
                let u = Saga { debited: s.price, ..s };
                t == Saga { phase: Phase::AwaitSave, ..u } && a == Action::SaveRecord(u.record())
            },
        },
        Event::Saved(o) => match o {
            None => if s.flow == Flow::Prepaid || s.flow == Flow::Pay {
                reverses(s, t, a, Err(FlowError::ExternalService)) && t.pending == s.pending
            } else {
                finishes(s, t, a, Err(FlowError::ExternalService))
            },
            Some(id) => match s.flow {
                Flow::Inquiry => t == Saga { phase: Phase::AwaitUpdate, tx_id: Some(id), ..s } && a
                    == Action::UpdateRecord {
                    tx_id: id,
                    ref_id: s.ref_id,
                    status: TxStatus::Inquiry,
                    obs: s.pending,
                },
                Flow::StatusCheck => t == Saga { phase: Phase::AwaitSubmit, tx_id: Some(id), ..s }
                    && (a matches Action::Submit(req) && s.status_call(req)),
                _ => t == Saga { phase: Phase::AwaitSubmit, tx_id: Some(id), ..s } && (
                a matches Action::Submit(req) && s.main_call(req)),
            },
        },
        Event::Waited => t == Saga { phase: Phase::AwaitStatus, ..s } && (a matches Action::Submit(
            req,
        ) && s.status_call(req)),
        Event::Credited(ok) => {
            let u = Saga {
                credited: if ok {
                    s.debited
                } else {
                    s.credited
                },
                ..s
            };
            match s.tx_id {
                Some(id) => t == Saga { phase: Phase::AwaitUpdate, ..u } && a == Action::UpdateRecord {
                    tx_id: id,
                    ref_id: s.ref_id,
                    status: if ok {
                        TxStatus::Reversed
                    } else {
                        TxStatus::Failed
                    },
                    obs: s.pending,
                },
                None => t == Saga { phase: Phase::Done, ..u } && a == Action::Finish,
            }
        },
        Event::Updated => if s.phase == Phase::AwaitNote {
            t == Saga { phase: Phase::AwaitStatus, ..s } && (a matches Action::Submit(req)
                && s.status_call(req))
        } else {
            t == Saga { phase: Phase::Done, ..s } && a == Action::Finish
        },
    }
}

/// A money-moving flow.
pub open spec fn moves_money(f: Flow) -> bool {
    f == Flow::Prepaid || f == Flow::Pay
}

/// An outcome that reports a provider-side failure.
pub open spec fn provider_failure(o: Option<Result<String, FlowError>>) -> bool {
    o == Some(Err::<String, FlowError>(FlowError::ExternalService)) || o == Some(
        Err::<String, FlowError>(FlowError::BusinessFailure),
    )
}

impl Saga {
    /// The ledger accounting of the saga: at most one debit and one credit;
    /// a credit only returns a confirmed debit of the price.
    pub open spec fn ledger_ok(&self) -> bool {
        &&& self.debits <= 1
        &&& self.credits <= 1
        &&& self.credits == 1 ==> self.debits == 1 && self.debited == self.price && self.price > 0
        &&& self.debited == 0 || (self.debited == self.price && self.debits == 1 && self.price > 0)
        &&& self.credited == 0 || (self.credited == self.debited && self.credits == 1)
        &&& !moves_money(self.flow) ==> self.debits == 0 && self.credits == 0 && self.debited == 0
            && self.credited == 0
        &&& self.debits == 1 && self.debited == 0 ==> self.credits == 0 && (self.phase
            == Phase::AwaitDebit || (self.outcome matches Some(Err(FlowError::Ledger(_)))))
    }

    /// A debited saga that has not failed still holds the debit.
    pub open spec fn holds_debit(&self) -> bool {
        moves_money(self.flow) && self.debits == 1 && self.debited == self.price && self.price > 0
            && self.credits == 0 && self.outcome is None
    }

    /// An ended (or ending) money flow is settled: a success keeps exactly
    /// one debit, a provider failure after a debit has its credit issued.
    pub open spec fn settled(&self) -> bool {
        &&& self.outcome is Some
        &&& moves_money(self.flow) && (self.outcome matches Some(Ok(_))) ==> self.debits == 1
            && self.debited == self.price && self.price > 0 && self.credits == 0
        &&& provider_failure(self.outcome) && self.debited > 0 ==> self.credits == 1
    }

    /// What holds of every saga that the constructors and `step` produce.
    pub open spec fn inv(&self) -> bool {
        &&& self.ledger_ok()
        &&& match self.phase {
            Phase::Start => self.debits == 0 && self.credits == 0 && self.tx_id is None
                && self.outcome is None,
            Phase::AwaitPin => moves_money(self.flow) && self.debits == 0 && self.outcome is None
                && self.tx_id is None,
            Phase::AwaitProduct => self.flow != Flow::StatusCheck && self.debits == 0
                && self.outcome is None && self.tx_id is None,
            Phase::AwaitBalance => self.flow == Flow::Prepaid && self.debits == 0 && self.price > 0
                && self.outcome is None && self.tx_id is None,
            Phase::AwaitStored => !(self.flow == Flow::Prepaid || self.flow == Flow::Inquiry)
                && self.debits == 0 && self.outcome is None && self.tx_id is None,
            Phase::AwaitDebit => moves_money(self.flow) && self.debits == 1 && self.debited == 0
                && self.price > 0 && self.outcome is None && self.tx_id is None,
            Phase::AwaitSave => if moves_money(self.flow) {
                self.holds_debit() && self.tx_id is None
            } else if self.flow == Flow::Inquiry {
                self.outcome is Some
            } else {
                self.outcome is None
            },
            Phase::AwaitSubmit => if moves_money(self.flow) {
                self.holds_debit() && self.tx_id is Some
            } else {
                self.outcome is None && (self.flow == Flow::StatusCheck ==> self.tx_id is Some)
            },
            Phase::AwaitNote => self.flow == Flow::Pay && self.holds_debit() && self.tx_id is Some,
            Phase::AwaitDelay => self.flow == Flow::Prepaid && self.holds_debit() && self.tx_id is Some,
            Phase::AwaitStatus => self.holds_debit() && self.tx_id is Some,
            Phase::AwaitCredit => moves_money(self.flow) && self.debits == 1 && self.debited
                == self.price && self.price > 0 && self.credits == 1 && self.credited == 0
                && provider_failure(self.outcome),
            Phase::AwaitUpdate => self.settled(),
            Phase::Done => self.settled(),
        }
    }

    /// The fields every new saga starts from.
    pub open spec fn fresh(&self) -> bool {
        &&& self.phase == Phase::Start
        &&& !self.emoney
        &&& self.nominal == 0
        &&& self.price == 0
        &&& !self.reversed_before
        &&& self.debited == 0
        &&& self.credited == 0
        &&& self.debits == 0
        &&& self.credits == 0
        &&& self.tx_id is None
        &&& self.pending.is_blank()
        &&& self.outcome is None
    }

    /// A prepaid purchase of `order` under `ref_id`; the PIN is kept
    /// trimmed.
    pub fn prepaid(cfg: ProviderConfig, order: PrepaidOrder, ref_id: String) -> (r: Saga)
        ensures
            r.fresh(),
            r.inv(),
            r.flow == Flow::Prepaid,
            r.cfg == cfg,
            r.ref_id == ref_id,
            r.pin@ == trim_of(order.pin@),
            r.buyer_sku_code == order.buyer_sku_code,
            r.customer_no == order.customer_no,
            r.product_type@ == Seq::<char>::empty(),
            r.commands == order.commands,
            r.requested_amount is None,
            r.year is None,
            r.testing is None,
    {
        Saga {
            flow: Flow::Prepaid,
            phase: Phase::Start,
            cfg,
            ref_id,
            pin: trim(order.pin.as_str()),
            buyer_sku_code: order.buyer_sku_code,
            customer_no: order.customer_no,
            product_type: String::new(),
            commands: order.commands,
            requested_amount: None,
            year: None,
            testing: None,
            emoney: false,
            nominal: 0,
            price: 0,
            reversed_before: false,
            debited: 0,
            credited: 0,
            debits: 0,
            credits: 0,
            tx_id: None,
            pending: Observation::blank(),
            outcome: None,
        }
    }

    /// A postpaid inquiry; `fresh_ref_id` is used when the request names
    /// none.
    pub fn inquiry(cfg: ProviderConfig, req: DigiflazzPascaInquiryReq, fresh_ref_id: String) -> (r:
        Saga)
        ensures
            r.fresh(),
            r.inv(),
            r.flow == Flow::Inquiry,
            r.cfg == cfg,
            r.ref_id == match req.ref_id {
                Some(x) => x,
                None => fresh_ref_id,
            },
            r.buyer_sku_code == req.buyer_sku_code,
            r.customer_no == req.customer_no,
            r.product_type@ == "pasca"@,
            opt_view(r.commands) == Some("inq-pasca"@),
            r.requested_amount == req.amount,
            r.year == req.year,
            r.testing == req.testing,
    {
        let ref_id = match req.ref_id {
            Some(x) => x,
            None => fresh_ref_id,
        };
        Saga {
            flow: Flow::Inquiry,
            phase: Phase::Start,
            cfg,
            ref_id,
            pin: String::new(),
            buyer_sku_code: req.buyer_sku_code,
            customer_no: req.customer_no,
            product_type: "pasca".to_string(),
            commands: Some("inq-pasca".to_string()),
            requested_amount: req.amount,
            year: req.year,
            testing: req.testing,
            emoney: false,
            nominal: 0,
            price: 0,
            reversed_before: false,
            debited: 0,
            credited: 0,
            debits: 0,
            credits: 0,
            tx_id: None,
            pending: Observation::blank(),
            outcome: None,
        }
    }

    /// A postpaid payment of the inquiry recorded under `order.ref_id`; the
    /// PIN is kept trimmed, and the caller's `amount` is not kept at all.
    pub fn pay(cfg: ProviderConfig, order: PayOrder) -> (r: Saga)
        ensures
            r.fresh(),
            r.inv(),
            r.flow == Flow::Pay,
            r.cfg == cfg,
            r.ref_id@ == or_empty(opt_view(order.ref_id)),
            r.pin@ == trim_of(order.pin@),
            r.buyer_sku_code@ == Seq::<char>::empty(),
            r.customer_no@ == Seq::<char>::empty(),
            r.product_type@ == "pasca"@,
            opt_view(r.commands) == Some("pay-pasca"@),
            r.requested_amount is None,
            r.year == order.year,
            r.testing == order.testing,
    {
        let ref_id = match order.ref_id {
            Some(x) => x,
            None => String::new(),
        };
        Saga {
            flow: Flow::Pay,
            phase: Phase::Start,
            cfg,
            ref_id,
            pin: trim(order.pin.as_str()),
            buyer_sku_code: String::new(),
            customer_no: String::new(),
            product_type: "pasca".to_string(),
            commands: Some("pay-pasca".to_string()),
            requested_amount: None,
            year: order.year,
            testing: order.testing,
            emoney: false,
            nominal: 0,
            price: 0,
            reversed_before: false,
            debited: 0,
            credited: 0,
            debits: 0,
            credits: 0,
            tx_id: None,
            pending: Observation::blank(),
            outcome: None,
        }
    }

    /// A status re-query of the transaction recorded under `ref_id`, with
    /// `status-pasca` for a postpaid one.
    pub fn status_check(cfg: ProviderConfig, ref_id: String, postpaid: bool) -> (r: Saga)
        ensures
            r.fresh(),
            r.inv(),
            r.flow == Flow::StatusCheck,
            r.cfg == cfg,
            r.ref_id == ref_id,
            r.buyer_sku_code@ == Seq::<char>::empty(),
            r.customer_no@ == Seq::<char>::empty(),
            r.product_type@ == Seq::<char>::empty(),
            r.requested_amount is None,
            postpaid ==> opt_view(r.commands) == Some("status-pasca"@),
            !postpaid ==> r.commands is None,
            r.year is None,
            r.testing is None,
    {
        Saga {
            flow: Flow::StatusCheck,
            phase: Phase::Start,
            cfg,
            ref_id,
            pin: String::new(),
            buyer_sku_code: String::new(),
            customer_no: String::new(),
            product_type: String::new(),
            commands: if postpaid {
                Some("status-pasca".to_string())
            } else {
                None
            },
            requested_amount: None,
            year: None,
            testing: None,
            emoney: false,
            nominal: 0,
            price: 0,
            reversed_before: false,
            debited: 0,
            credited: 0,
            debits: 0,
            credits: 0,
            tx_id: None,
            pending: Observation::blank(),
            outcome: None,
        }
    }
}

fn error_for(v: Verdict) -> (r: FlowError)
    ensures
        r == error_of(v),
{
    if v == Verdict::Declined {
        FlowError::BusinessFailure
    } else {
        FlowError::ExternalService
    }
}

fn result_of_body(r: ProviderReply) -> (res: Result<String, FlowError>)
    ensures
        res == body_result(r),
{
    match r {
        ProviderReply::Answered { status, body } => if is_success_code(status) {
            Ok(body)
        } else {
            Err(FlowError::ExternalService)
        },
        ProviderReply::Unreachable => Err(FlowError::ExternalService),
    }
}

fn status_after_acceptance(r: &ProviderReply) -> (st: TxStatus)
    ensures
        st == accepted_status(*r),
{
    let text = match r {
        ProviderReply::Answered { status, body } => status_text(body.as_str()),
        ProviderReply::Unreachable => String::new(),
    };
    let word = trim(text.as_str());
    if is_success_word(word.as_str()) {
        TxStatus::Success
    } else {
        TxStatus::Submitted
    }
}

impl Saga {
    /// Whether `e` answers what the saga waits for.
    pub fn accepts(&self, e: &Event) -> (r: bool)
        ensures
            r == self.expects(*e),
    {
        match (self.phase, e) {
            (Phase::Start, Event::Start) => true,
            (Phase::AwaitPin, Event::PinChecked(_)) => true,
            (Phase::AwaitProduct, Event::Product(_)) => true,
            (Phase::AwaitBalance, Event::Replied(_)) => true,
            (Phase::AwaitStored, Event::Stored(_)) => true,
            (Phase::AwaitDebit, Event::Debited(_)) => true,
            (Phase::AwaitSave, Event::Saved(_)) => true,
            (Phase::AwaitSubmit, Event::Replied(_)) => true,
            (Phase::AwaitNote, Event::Updated) => true,
            (Phase::AwaitDelay, Event::Waited) => true,
            (Phase::AwaitStatus, Event::Replied(_)) => true,
            (Phase::AwaitCredit, Event::Credited(_)) => true,
            (Phase::AwaitUpdate, Event::Updated) => true,
            _ => false,
        }
    }

    /// Whether the saga has ended.
    pub fn is_done(&self) -> (r: bool)
        ensures
            r == (self.phase == Phase::Done),
    {
        self.phase == Phase::Done
    }

    fn sent_amount_now(&self) -> (r: Option<i64>)
        ensures
            r == self.sent_amount(),
    {
        match self.flow {
            Flow::Inquiry => if self.emoney {
                self.requested_amount
            } else {
                None
            },
            Flow::Pay => if self.emoney {
                Some(self.nominal)
            } else {
                None
            },
            _ => None,
        }
    }

    fn record_now(&self) -> (r: TxRecord)
        ensures
            r == self.record(),
    {
        TxRecord {
            ref_id: self.ref_id.clone(),
            buyer_sku_code: self.buyer_sku_code.clone(),
            customer_no: self.customer_no.clone(),
            product_type: self.product_type.clone(),
            amount: if self.flow == Flow::Inquiry {
                self.nominal
            } else {
                self.price
            },
            price: self.price,
            commands: clone_opt(&self.commands),
            request_amount: self.sent_amount_now(),
            year: self.year,
            testing: self.testing,
        }
    }

    fn main_request(&self) -> (req: TransactionRequest)
        ensures
            self.main_call(req),
    {
        transaction_request(
            &self.cfg,
            clone_opt(&self.commands),
            self.buyer_sku_code.as_str(),
            self.customer_no.as_str(),
            self.ref_id.as_str(),
            self.sent_amount_now(),
            self.year,
            self.testing,
        )
    }

    fn status_request(&self) -> (req: TransactionRequest)
        ensures
            self.status_call(req),
    {
        let commands = match self.flow {
            Flow::Pay => Some("status-pasca".to_string()),
            Flow::StatusCheck => clone_opt(&self.commands),
            _ => None,
        };
        transaction_request(
            &self.cfg,
            commands,
            self.buyer_sku_code.as_str(),
            self.customer_no.as_str(),
            self.ref_id.as_str(),
            None,
            None,
            None,
        )
    }

    fn finish(&mut self, r: Result<String, FlowError>) -> (a: Action)
        ensures
            finishes(*old(self), *final(self), a, r),
    {
        self.phase = Phase::Done;
        self.outcome = Some(r);
        Action::Finish
    }

    fn begin_reversal(&mut self, r: Result<String, FlowError>, obs: Observation) -> (a: Action)
        requires
            old(self).credits < 255,
        ensures
            reverses(*old(self), *final(self), a, r),
            final(self).pending == obs,
    {
        self.phase = Phase::AwaitCredit;
        self.credits = self.credits + 1;
        self.outcome = Some(r);
        self.pending = obs;
        Action::Credit { amount: self.debited }
    }

    fn inquiry_gate_now(&mut self) -> (a: Action)
        ensures
            inquiry_gate(*old(self), *final(self), a),
    {
        let amt = match self.requested_amount {
            Some(x) => x,
            None => 0,
        };
        if self.emoney && amt <= 0 {
            return self.finish(Err(FlowError::Validation(Invalid::NonPositiveAmount)));
        }
        if let Err(e) = self.cfg.check() {
            return self.finish(Err(e));
        }
        let req = self.main_request();
        self.phase = Phase::AwaitSubmit;
        Action::Submit(req)
    }

    fn charge_gate_now(&mut self) -> (a: Action)
        requires
            old(self).debits < 255,
        ensures
            charge_gate(*old(self), *final(self), a),
    {
        if self.price <= 0 || (self.emoney && self.nominal <= 0) {
            return self.finish(Err(FlowError::Validation(Invalid::InquiryAmountMissing)));
        }
        if let Err(e) = self.cfg.check() {
            return self.finish(Err(e));
        }
        self.phase = Phase::AwaitDebit;
        self.debits = self.debits + 1;
        Action::Debit { amount: self.price }
    }

    fn on_start(&mut self) -> (a: Action)
        ensures
            step_spec(*old(self), Event::Start, *final(self), a),
    {
        match self.flow {
            Flow::Prepaid | Flow::Pay => {
                if !is_valid_pin(self.pin.as_str()) {
                    return self.finish(Err(FlowError::Validation(Invalid::PinFormat)));
                }
                if self.flow == Flow::Pay && self.ref_id.as_str().unicode_len() == 0 {
                    return self.finish(Err(FlowError::Validation(Invalid::MissingRefId)));
                }
                self.phase = Phase::AwaitPin;
                Action::VerifyPin { pin: self.pin.clone() }
            },
            Flow::Inquiry => {
                if is_emoney_code(self.buyer_sku_code.as_str()) {
                    self.emoney = true;
                    return self.inquiry_gate_now();
                }
                self.phase = Phase::AwaitProduct;
                Action::FindProduct { buyer_sku_code: self.buyer_sku_code.clone() }
            },
            Flow::StatusCheck => {
                self.phase = Phase::AwaitStored;
                Action::LoadTransaction { ref_id: self.ref_id.clone() }
            },
        }
    }

    fn on_pin(&mut self, ok: bool) -> (a: Action)
        ensures
            step_spec(*old(self), Event::PinChecked(ok), *final(self), a),
    {
        if !ok {
            return self.finish(Err(FlowError::Authorization));
        }
        if self.flow == Flow::Prepaid {
            self.phase = Phase::AwaitProduct;
            Action::FindProduct { buyer_sku_code: self.buyer_sku_code.clone() }
        } else {
            self.phase = Phase::AwaitStored;
            Action::LoadTransaction { ref_id: self.ref_id.clone() }
        }
    }

    fn on_product(&mut self, p: Option<ProductEntry>) -> (a: Action)
        requires
            old(self).debits < 255,
        ensures
            step_spec(*old(self), Event::Product(p), *final(self), a),
    {
        let emoney = match &p {
            Some(x) => is_emoney_entry(x),
            None => false,
        };
        match self.flow {
            Flow::Prepaid => match p {
                None => self.finish(Err(FlowError::NotFound(Missing::Product))),
                Some(x) => if x.price <= 0 {
                    self.finish(Err(FlowError::Validation(Invalid::NonPositiveAmount)))
                } else if let Err(e) = self.cfg.check() {
                    self.finish(Err(e))
                } else {
                    let req = balance_request(&self.cfg);
                    self.phase = Phase::AwaitBalance;
                    self.price = x.price;
                    self.product_type = x.product_type;
                    Action::CheckBalance(req)
                },
            },
            Flow::Inquiry => {
                self.emoney = emoney;
                self.inquiry_gate_now()
            },
            _ => {
                self.emoney = emoney;
                self.charge_gate_now()
            },
        }
    }

    fn on_stored(&mut self, o: Option<StoredTx>) -> (a: Action)
        requires
            old(self).debits < 255,
        ensures
            step_spec(*old(self), Event::Stored(o), *final(self), a),
    {
        match o {
            None => self.finish(Err(FlowError::NotFound(Missing::Transaction))),
            Some(x) => if self.flow == Flow::Pay {
                let code = is_emoney_code(x.buyer_sku_code.as_str());
                self.buyer_sku_code = x.buyer_sku_code;
                self.customer_no = x.customer_no;
                self.nominal = x.amount;
                self.price = x.price;
                if code {
                    self.emoney = true;
                    self.charge_gate_now()
                } else {
                    self.phase = Phase::AwaitProduct;
                    Action::FindProduct { buyer_sku_code: self.buyer_sku_code.clone() }
                }
            } else {
                let reversed = same_text(x.status.as_str(), "REVERSED");
                self.buyer_sku_code = x.buyer_sku_code;
                self.customer_no = x.customer_no;
                self.product_type = x.product_type;
                self.nominal = x.amount;
                self.price = x.price;
                self.reversed_before = reversed;
                if let Err(e) = self.cfg.check() {
                    return self.finish(Err(e));
                }
                let rec = self.record_now();
                self.phase = Phase::AwaitSave;
                Action::SaveRecord(rec)
            },
        }
    }

    fn on_debited(&mut self, res: Result<(), LedgerError>) -> (a: Action)
        ensures
            step_spec(*old(self), Event::Debited(res), *final(self), a),
    {
        match res {
            Err(le) => self.finish(Err(FlowError::Ledger(le))),
            Ok(_) => {
                self.debited = self.price;
                let rec = self.record_now();
                self.phase = Phase::AwaitSave;
                Action::SaveRecord(rec)
            },
        }
    }

    fn on_saved(&mut self, o: Option<i64>) -> (a: Action)
        requires
            old(self).credits < 255,
        ensures
            step_spec(*old(self), Event::Saved(o), *final(self), a),
    {
        match o {
            None => if self.flow == Flow::Prepaid || self.flow == Flow::Pay {
                let obs = self.pending.duplicate();
                self.begin_reversal(Err(FlowError::ExternalService), obs)
            } else {
                self.finish(Err(FlowError::ExternalService))
            },
            Some(id) => match self.flow {
                Flow::Inquiry => {
                    self.tx_id = Some(id);
                    self.phase = Phase::AwaitUpdate;
                    Action::UpdateRecord {
                        tx_id: id,
                        ref_id: self.ref_id.clone(),
                        status: TxStatus::Inquiry,
                        obs: self.pending.duplicate(),
                    }
                },
                Flow::StatusCheck => {
                    let req = self.status_request();
                    self.tx_id = Some(id);
                    self.phase = Phase::AwaitSubmit;
                    Action::Submit(req)
                },
                _ => {
                    let req = self.main_request();
                    self.tx_id = Some(id);
                    self.phase = Phase::AwaitSubmit;
                    Action::Submit(req)
                },
            },
        }
    }

    fn on_replied(&mut self, r: ProviderReply) -> (a: Action)
        requires
            old(self).debits < 255,
            old(self).credits < 255,
            old(self).phase == Phase::AwaitSubmit && old(self).flow != Flow::Inquiry
                ==> old(self).tx_id is Some,
            old(self).phase != Phase::AwaitSubmit && old(self).phase != Phase::AwaitBalance
                ==> old(self).tx_id is Some,
        ensures
            step_spec(*old(self), Event::Replied(r), *final(self), a),
    {
        match self.phase {
            Phase::AwaitBalance => {
                let d = match &r {
                    ProviderReply::Answered { status, body } => if is_success_code(*status) {
                        deposit_of(body.as_str())
                    } else {
                        None
                    },
                    ProviderReply::Unreachable => None,
                };
                match d {
                    None => self.finish(Err(FlowError::ExternalService)),
                    Some(d) => if d < self.price {
                        self.finish(Err(FlowError::InsufficientBalance))
                    } else {
                        self.phase = Phase::AwaitDebit;
                        self.debits = self.debits + 1;
                        Action::Debit { amount: self.price }
                    },
                }
            },
            Phase::AwaitSubmit => match self.flow {
                Flow::Prepaid => {
                    let v = classify(&r);
                    if v != Verdict::Accepted {
                        let obs = observe(&r);
                        self.begin_reversal(Err(error_for(v)), obs)
                    } else {
                        self.phase = Phase::AwaitDelay;
                        Action::Wait
                    }
                },
                Flow::Pay => {
                    let obs = observe(&r);
                    let tx = self.tx_id.unwrap();
                    self.pending = obs;
                    self.phase = Phase::AwaitNote;
                    Action::UpdateRecord {
                        tx_id: tx,
                        ref_id: self.ref_id.clone(),
                        status: TxStatus::Submitted,
                        obs: self.pending.duplicate(),
                    }
                },
                Flow::Inquiry => {
                    let bill = match &r {
                        ProviderReply::Answered { status, body } => bill_amount(body.as_str()),
                        ProviderReply::Unreachable => 0,
                    };
                    let obs = observe(&r);
                    let result = result_of_body(r);
                    let amt = match self.requested_amount {
                        Some(x) => x,
                        None => 0,
                    };
                    self.price = bill;
                    self.nominal = if self.emoney {
                        amt
                    } else {
                        bill
                    };
                    self.pending = obs;
                    self.outcome = Some(result);
                    self.phase = Phase::AwaitSave;
                    Action::SaveRecord(self.record_now())
                },
                Flow::StatusCheck => {
                    let v = classify(&r);
                    let status = if self.reversed_before {
                        TxStatus::Reversed
                    } else if v == Verdict::Accepted {
                        status_after_acceptance(&r)
                    } else {
                        TxStatus::Failed
                    };
                    let obs = observe_status_reply(&r);
                    let result = if v == Verdict::Accepted || v == Verdict::Declined {
                        result_of_body(r)
                    } else {
                        Err(FlowError::ExternalService)
                    };
                    let tx = self.tx_id.unwrap();
                    self.pending = obs;
                    self.outcome = Some(result);
                    self.phase = Phase::AwaitUpdate;
                    Action::UpdateRecord {
                        tx_id: tx,
                        ref_id: self.ref_id.clone(),
                        status,
                        obs: self.pending.duplicate(),
                    }
                },
            },
            _ => {
                let v = classify(&r);
                if v != Verdict::Accepted {
                    let obs = observe(&r);
                    self.begin_reversal(Err(error_for(v)), obs)
                } else {
                    let status = status_after_acceptance(&r);
                    let obs = observe(&r);
                    let tx = self.tx_id.unwrap();
                    self.pending = obs;
                    self.outcome = Some(result_of_body(r));
                    self.phase = Phase::AwaitUpdate;
                    Action::UpdateRecord {
                        tx_id: tx,
                        ref_id: self.ref_id.clone(),
                        status,
                        obs: self.pending.duplicate(),
                    }
                }
            },
        }
    }

    fn on_credited(&mut self, ok: bool) -> (a: Action)
        ensures
            step_spec(*old(self), Event::Credited(ok), *final(self), a),
    {
        if ok {
            self.credited = self.debited;
        }
        match self.tx_id {
            Some(id) => {
                self.phase = Phase::AwaitUpdate;
                Action::UpdateRecord {
                    tx_id: id,
                    ref_id: self.ref_id.clone(),
                    status: if ok {
                        TxStatus::Reversed
                    } else {
                        TxStatus::Failed
                    },
                    obs: self.pending.duplicate(),
                }
            },
            None => {
                self.phase = Phase::Done;
                Action::Finish
            },
        }
    }
}

/// The order in which a money-moving flow passes its phases.
pub open spec fn rank(p: Phase) -> int {
    match p {
        Phase::Start => 0,
        Phase::AwaitPin => 1,
        Phase::AwaitStored => 2,
        Phase::AwaitProduct => 3,
        Phase::AwaitBalance => 4,
        Phase::AwaitDebit => 5,
        Phase::AwaitSave => 6,
        Phase::AwaitSubmit => 7,
        Phase::AwaitNote => 8,
        Phase::AwaitDelay => 8,
        Phase::AwaitStatus => 9,
        Phase::AwaitCredit => 10,
        Phase::AwaitUpdate => 11,
        Phase::Done => 12,
    }
}

/// The `ref_id` an action is keyed by, if it is keyed by one.
pub open spec fn action_key(a: Action) -> Option<Seq<char>> {
    match a {
        Action::LoadTransaction { ref_id } => Some(ref_id@),
        Action::SaveRecord(rec) => Some(rec.ref_id@),
        Action::Submit(req) => Some(req.ref_id@),
        Action::UpdateRecord { tx_id, ref_id, status, obs } => Some(ref_id@),
        _ => None,
    }
}

/// Where a new price comes from: the catalog entry of a prepaid product,
/// the recorded bill of a payment, or the bill of an inquiry reply.
pub open spec fn price_source(s: Saga, e: Event, t: Saga) -> bool {
    ||| (s.flow == Flow::Prepaid && s.phase == Phase::AwaitProduct && (e matches Event::Product(
        Some(x),
    ) && t.price == x.price))
    ||| (s.flow != Flow::Prepaid && s.phase == Phase::AwaitStored && (e matches Event::Stored(
        Some(x),
    ) && t.price == x.price))
    ||| (s.flow == Flow::Inquiry && s.phase == Phase::AwaitSubmit)
}

/// One transition keeps the invariant, never changes the flow, the
/// configuration or the `ref_id`, keys every action by that `ref_id`, and
/// moves the ledger counters only together with the matching action.
pub proof fn lemma_step(s: Saga, e: Event, t: Saga, a: Action)
    requires
        s.inv(),
        s.expects(e),
        step_spec(s, e, t, a),
    ensures
        t.inv(),
        t.flow == s.flow,
        t.cfg == s.cfg,
        t.ref_id == s.ref_id,
        action_key(a) is Some ==> action_key(a) == Some(s.ref_id@),
        a is Debit ==> t.debits == s.debits + 1 && a->Debit_amount == t.price && t.price > 0,
        !(a is Debit) ==> t.debits == s.debits,
        a is Credit ==> t.credits == s.credits + 1 && a->Credit_amount == s.debited && s.debited
            > 0,
        !(a is Credit) ==> t.credits == s.credits,
        s.debits == 1 ==> t.price == s.price,
        s.debited != 0 ==> t.debited == s.debited,
        t.price != s.price ==> price_source(s, e, t),
        moves_money(s.flow) ==> rank(t.phase) > rank(s.phase),
        moves_money(s.flow) && s.outcome is Some ==> t.outcome == s.outcome,
{
}

impl Saga {
    /// Feeds the answer to the last action into the saga and returns the
    /// next action to perform.
    pub fn step(&mut self, e: Event) -> (a: Action)
        requires
            old(self).inv(),
            old(self).expects(e),
        ensures
            step_spec(*old(self), e, *final(self), a),
            final(self).inv(),
    {
        let ghost s0 = *self;
        let ghost e0 = e;
        let a = match e {
            Event::Start => self.on_start(),
            Event::PinChecked(ok) => self.on_pin(ok),
            Event::Product(p) => self.on_product(p),
            Event::Stored(o) => self.on_stored(o),
            Event::Debited(res) => self.on_debited(res),
            Event::Saved(o) => self.on_saved(o),
            Event::Replied(r) => self.on_replied(r),
            Event::Waited => {
                let req = self.status_request();
                self.phase = Phase::AwaitStatus;
                Action::Submit(req)
            },
            Event::Credited(ok) => self.on_credited(ok),
            Event::Updated => if self.phase == Phase::AwaitNote {
                let req = self.status_request();
                self.phase = Phase::AwaitStatus;
                Action::Submit(req)
            } else {
                self.phase = Phase::Done;
                Action::Finish
            },
        };
        proof {
            lemma_step(s0, e0, *self, a);
        }
        a
    }
}

/// Relies on `uuid::Uuid::new_v4` and the hyphenated form its `to_string`
/// writes: a random identifier of 36 characters.
#[verifier::external_body]
fn new_ref_id() -> (r: String)
    ensures
        r@.len() == 36,
{
    uuid::Uuid::new_v4().to_string()
}

impl Saga {
    /// A prepaid purchase under a freshly generated `ref_id`.
    pub fn prepaid_fresh(cfg: ProviderConfig, order: PrepaidOrder) -> (r: Saga)
        ensures
            r.fresh(),
            r.inv(),
            r.flow == Flow::Prepaid,
            r.cfg == cfg,
            r.ref_id@.len() == 36,
            r.pin@ == trim_of(order.pin@),
            r.buyer_sku_code == order.buyer_sku_code,
            r.customer_no == order.customer_no,
            r.commands == order.commands,
    {
        let ref_id = new_ref_id();
        Saga::prepaid(cfg, order, ref_id)
    }

    /// A postpaid inquiry under the request's `ref_id`, or a freshly
    /// generated one when it names none.
    pub fn inquiry_fresh(cfg: ProviderConfig, req: DigiflazzPascaInquiryReq) -> (r: Saga)
        ensures
            r.fresh(),
            r.inv(),
            r.flow == Flow::Inquiry,
            r.cfg == cfg,
            match req.ref_id {
                Some(x) => r.ref_id == x,
                None => r.ref_id@.len() == 36,
            },
            r.buyer_sku_code == req.buyer_sku_code,
            r.customer_no == req.customer_no,
            r.requested_amount == req.amount,
    {
        let fresh = match &req.ref_id {
            Some(_) => String::new(),
            None => new_ref_id(),
        };
        Saga::inquiry(cfg, req, fresh)
    }
}

/// The HTTP status and body behind a provider failure, when the saga ended
/// on a provider error and the reply it last kept was a non-2xx response.
pub open spec fn http_failure_detail(s: Saga) -> Option<(u16, Seq<char>)> {
    if s.outcome == Some(Err::<String, FlowError>(FlowError::ExternalService)) && (
    s.pending.http_status matches Some(h) && !success_code(h)) && s.pending.response is Some {
        Some((s.pending.http_status->Some_0, s.pending.response->Some_0@))
    } else {
        None
    }
}

impl Saga {
    /// The error a caller sees for a saga that ended in failure: a provider
    /// failure with a non-2xx response reads `digiflazz status <code>:
    /// <body>`, any other failure reads as `FlowError::to_api_error` says.
    pub fn caller_error(&self) -> (r: Option<ApiError>)
        ensures
            match self.outcome {
                Some(Err(e)) => r is Some && match http_failure_detail(*self) {
                    Some(d) => r->Some_0 is Internal && message_of(r->Some_0) == "digiflazz status "@
                        + decimal(d.0 as nat) + ": "@ + d.1,
                    None => status_of(r->Some_0) == api_class(e) && message_of(r->Some_0)
                        == api_message(e),
                },
                _ => r is None,
            },
    {
        match &self.outcome {
            Some(Err(e)) => {
                if *e == FlowError::ExternalService {
                    match (&self.pending.http_status, &self.pending.response) {
                        (Some(h), Some(body)) => if !is_success_code(*h) {
                            let mut m = "digiflazz status ".to_string();
                            let code = decimal_text(*h);
                            m.append(code.as_str());
                            m.append(": ");
                            m.append(body.as_str());
                            return Some(ApiError::Internal(m));
                        },
                        _ => {},
                    }
                }
                Some(e.to_api_error())
            },
            _ => None,
        }
    }
}

} // verus!
