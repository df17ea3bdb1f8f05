use vstd::prelude::*;

use crate::error::FlowError;
use crate::text::{
    eq_ignore_ascii_case, integer_part, number_i64, same_ignoring_ascii_case, trim, trim_of,
};

verus! {

/// Credentials for the billing provider. Which of the two keys signs
/// requests is fixed by `use_production`.
pub struct ProviderConfig {
    pub username: String,
    pub dev_key: String,
    pub prod_key: String,
    pub use_production: bool,
}

impl ProviderConfig {
    /// The key that signs requests.
    pub open spec fn key(&self) -> Seq<char> {
        if self.use_production {
            self.prod_key@
        } else {
            self.dev_key@
        }
    }

    /// Both the user name and the selected key are present.
    pub open spec fn usable(&self) -> bool {
        self.username@.len() > 0 && self.key().len() > 0
    }

    /// The key selected by the configuration flag.
    pub fn api_key(&self) -> (r: &String)
        ensures
            r@ == self.key(),
    {
        if self.use_production {
            &self.prod_key
        } else {
            &self.dev_key
        }
    }

    /// Refuses a configuration that cannot sign requests.
    pub fn check(&self) -> (r: Result<(), FlowError>)
        ensures
            r is Ok <==> self.usable(),
            r is Err ==> r == Err::<(), FlowError>(FlowError::ExternalService),
    {
        if self.username.as_str().unicode_len() == 0 || self.api_key().as_str().unicode_len() == 0 {
            Err(FlowError::ExternalService)
        } else {
            Ok(())
        }
    }
}

/// The lower-case hexadecimal MD5 digest of the UTF-8 encoding of `text`.
pub uninterp spec fn md5_hex_of(text: Seq<char>) -> Seq<char>;

/// Relies on `md5::compute` and the `{:x}` formatting of its `Digest`, which
/// writes each of the 16 digest bytes as two lower-case hex digits.
#[verifier::external_body]
fn md5_hex(text: &str) -> (r: String)
    ensures
        r@ == md5_hex_of(text@),
        r@.len() == 32,
{
    format!("{:x}", md5::compute(text))
}

/// The request signature: MD5 of user name, selected key and discriminator.
pub open spec fn sign_of(cfg: ProviderConfig, discriminator: Seq<char>) -> Seq<char> {
    md5_hex_of(cfg.username@ + cfg.key() + discriminator)
}

/// Signs a provider request; `discriminator` is `depo` for balance checks
/// and the request's `ref_id` (or customer number) otherwise.
pub fn sign(cfg: &ProviderConfig, discriminator: &str) -> (r: String)
    ensures
        r@ == sign_of(*cfg, discriminator@),
        r@.len() == 32,
{
    let mut raw = String::new();
    raw.append(cfg.username.as_str());
    raw.append(cfg.api_key().as_str());
    raw.append(discriminator);
    proof {
        assert(raw@ == cfg.username@ + cfg.key() + discriminator@);
    }
    md5_hex(raw.as_str())
}

/// Body of a deposit balance check.
pub struct BalanceRequest {
    pub cmd: String,
    pub username: String,
    pub sign: String,
}

/// Builds the deposit balance check, signed with the `depo` discriminator.
pub fn balance_request(cfg: &ProviderConfig) -> (r: BalanceRequest)
    ensures
        r.cmd@ == "deposit"@,
        r.username@ == cfg.username@,
        r.sign@ == sign_of(*cfg, "depo"@),
{
    BalanceRequest {
        cmd: "deposit".to_string(),
        username: cfg.username.clone(),
        sign: sign(cfg, "depo"),
    }
}

/// Body of an electricity meter inquiry.
pub struct PlnInquiryRequest {
    pub username: String,
    pub customer_no: String,
    pub sign: String,
}

/// Builds a meter inquiry for `customer_no`, signed over the customer
/// number; refused when the configuration cannot sign.
pub fn pln_inquiry_request(cfg: &ProviderConfig, customer_no: &str) -> (r: Result<
    PlnInquiryRequest,
    FlowError,
>)
    ensures
        r is Ok <==> cfg.usable(),
        r is Err ==> r->Err_0 == FlowError::ExternalService,
        r is Ok ==> r->Ok_0.username@ == cfg.username@ && r->Ok_0.customer_no@ == customer_no@
            && r->Ok_0.sign@ == sign_of(*cfg, customer_no@),
{
    match cfg.check() {
        Err(e) => Err(e),
        Ok(()) => Ok(
            PlnInquiryRequest {
                username: cfg.username.clone(),
                customer_no: customer_no.to_string(),
                sign: sign(cfg, customer_no),
            },
        ),
    }
}

/// Body of a `/transaction` call. `commands` selects `inq-pasca`,
/// `pay-pasca`, `status-pasca`, or is absent for a direct purchase or its
/// status check.
pub struct TransactionRequest {
    pub commands: Option<String>,
    pub username: String,
    pub buyer_sku_code: String,
    pub customer_no: String,
    pub ref_id: String,
    pub sign: String,
    pub amount: Option<i64>,
    pub year: Option<i32>,
    pub testing: Option<bool>,
}

/// The view of an optional text.
pub open spec fn opt_view(o: Option<String>) -> Option<Seq<char>> {
    match o {
        Some(s) => Some(s@),
        None => None,
    }
}

pub(crate) fn clone_opt(o: &Option<String>) -> (r: Option<String>)
    ensures
        r == *o,
{
    match o {
        Some(s) => Some(s.clone()),
        None => None,
    }
}

impl TransactionRequest {
    /// The request is for `ref_id`, carries the configured user name and is
    /// signed over `ref_id`.
    pub open spec fn signed_for(&self, cfg: ProviderConfig, ref_id: Seq<char>) -> bool {
        &&& self.username@ == cfg.username@
        &&& self.ref_id@ == ref_id
        &&& self.sign@ == sign_of(cfg, ref_id)
    }
}

/// Builds a signed `/transaction` request.
pub fn transaction_request(
    cfg: &ProviderConfig,
    commands: Option<String>,
    buyer_sku_code: &str,
    customer_no: &str,
    ref_id: &str,
    amount: Option<i64>,
    year: Option<i32>,
    testing: Option<bool>,
) -> (r: TransactionRequest)
    ensures
        r.signed_for(*cfg, ref_id@),
        opt_view(r.commands) == opt_view(commands),
        r.buyer_sku_code@ == buyer_sku_code@,
        r.customer_no@ == customer_no@,
        r.amount == amount,
        r.year == year,
        r.testing == testing,
{
    TransactionRequest {
        commands,
        username: cfg.username.clone(),
        buyer_sku_code: buyer_sku_code.to_string(),
        customer_no: customer_no.to_string(),
        ref_id: ref_id.to_string(),
        sign: sign(cfg, ref_id),
        amount,
        year,
        testing,
    }
}

/// Whether `serde_json` accepts `text` as one JSON document (it also
/// refuses documents nested too deeply).
pub uninterp spec fn json_valid(text: Seq<char>) -> bool;

/// Relies on `serde_json::from_str` into a `serde_json::Value`: whether the
/// parser accepts the text, whatever the document holds.
#[verifier::external_body]
fn is_json(text: &str) -> (r: bool)
    ensures
        r == json_valid(text@),
{
    serde_json::from_str::<serde_json::Value>(text).is_ok()
}

/// The string found at JSON pointer `pointer` in the document `text`, if
/// the document parses and a string stands there.
pub uninterp spec fn json_text_at(text: Seq<char>, pointer: Seq<char>) -> Option<Seq<char>>;

/// Relies on `serde_json::from_str`, `Value::pointer` and `Value::as_str`:
/// the string at a JSON pointer, or nothing.
#[verifier::external_body]
fn text_at(text: &str, pointer: &str) -> (r: Option<String>)
    ensures
        opt_view(r) == json_text_at(text@, pointer@),
{
    match serde_json::from_str::<serde_json::Value>(text) {
        Ok(v) => v.pointer(pointer).and_then(serde_json::Value::as_str).map(str::to_string),
        Err(_) => None,
    }
}

/// Whether the document `text` parses and holds a value at JSON pointer
/// `pointer`.
pub uninterp spec fn json_has_at(text: Seq<char>, pointer: Seq<char>) -> bool;

/// Relies on `serde_json::from_str` and `Value::pointer`: whether a value
/// stands at a JSON pointer.
#[verifier::external_body]
fn has_at(text: &str, pointer: &str) -> (r: bool)
    ensures
        r == json_has_at(text@, pointer@),
{
    match serde_json::from_str::<serde_json::Value>(text) {
        Ok(v) => v.pointer(pointer).is_some(),
        Err(_) => false,
    }
}

/// The text of the number found at JSON pointer `pointer` in the document
/// `text`, as `serde_json` writes that number, if the document parses and a
/// number stands there.
pub uninterp spec fn json_number_text_at(text: Seq<char>, pointer: Seq<char>) -> Option<
    Seq<char>,
>;

/// Relies on `serde_json::from_str`, `Value::pointer`, `Value::as_number`
/// and the `Display` of `serde_json::Number`: the number at a JSON pointer,
/// written out, or nothing.
#[verifier::external_body]
fn number_text_at(text: &str, pointer: &str) -> (r: Option<String>)
    ensures
        opt_view(r) == json_number_text_at(text@, pointer@),
{
    match serde_json::from_str::<serde_json::Value>(text) {
        Ok(v) => v.pointer(pointer).and_then(serde_json::Value::as_number).map(ToString::to_string),
        Err(_) => None,
    }
}

/// The integer part of the number at JSON pointer `pointer`, when it is
/// written as `[-]digits[.digits]` and fits `i64`.
pub open spec fn json_number_at(text: Seq<char>, pointer: Seq<char>) -> Option<i64> {
    match json_number_text_at(text, pointer) {
        Some(t) => number_i64(t),
        None => None,
    }
}

fn number_at(text: &str, pointer: &str) -> (r: Option<i64>)
    ensures
        r == json_number_at(text@, pointer@),
{
    match number_text_at(text, pointer) {
        Some(t) => integer_part(t.as_str()),
        None => None,
    }
}

/// A text, or the empty text where there is none.
pub open spec fn or_empty(o: Option<Seq<char>>) -> Seq<char> {
    match o {
        Some(s) => s,
        None => Seq::empty(),
    }
}

fn unwrap_or_empty(o: Option<String>) -> (r: String)
    ensures
        r@ == or_empty(opt_view(o)),
{
    match o {
        Some(s) => s,
        None => String::new(),
    }
}

/// The `data` fields of a provider reply that the records keep.
pub struct Envelope {
    pub rc: String,
    pub message: String,
    pub status: String,
    pub sn: Option<String>,
}

impl Envelope {
    /// The envelope holds what `body` holds under `data`, a missing text
    /// field read as empty and a missing serial number as absent.
    pub open spec fn read_from(&self, body: Seq<char>) -> bool {
        &&& self.rc@ == or_empty(json_text_at(body, "/data/rc"@))
        &&& self.message@ == or_empty(json_text_at(body, "/data/message"@))
        &&& self.status@ == or_empty(json_text_at(body, "/data/status"@))
        &&& opt_view(self.sn) == json_text_at(body, "/data/sn"@)
    }
}

/// Reads the `{ data: { rc, message, status, sn } }` envelope of a reply
/// body; nothing when the body is not JSON.
pub fn read_envelope(body: &str) -> (r: Option<Envelope>)
    ensures
        r is Some <==> json_valid(body@),
        r is Some ==> r->Some_0.read_from(body@),
{
    if !is_json(body) {
        return None;
    }
    Some(
        Envelope {
            rc: unwrap_or_empty(text_at(body, "/data/rc")),
            message: unwrap_or_empty(text_at(body, "/data/message")),
            status: unwrap_or_empty(text_at(body, "/data/status")),
            sn: text_at(body, "/data/sn"),
        },
    )
}

/// The `data.status` text of a reply body, empty when absent.
pub fn status_text(body: &str) -> (r: String)
    ensures
        r@ == or_empty(json_text_at(body@, "/data/status"@)),
{
    unwrap_or_empty(text_at(body, "/data/status"))
}

/// The provider's deposit in a balance reply body, by its integer part.
pub fn deposit_of(body: &str) -> (r: Option<i64>)
    ensures
        r == json_number_at(body@, "/data/deposit"@),
{
    number_at(body, "/data/deposit")
}

/// An integer, or zero where there is none.
pub open spec fn int_or_zero(o: Option<i64>) -> i64 {
    match o {
        Some(p) => p,
        None => 0,
    }
}

/// The bill amount in an inquiry reply: `data.selling_price` when that key
/// is present, else `data.price`, by the integer part of the number there
/// (zero when there is none); a negative amount reads as zero.
pub open spec fn bill_amount_of(body: Seq<char>) -> i64 {
    let v = if json_has_at(body, "/data/selling_price"@) {
        int_or_zero(json_number_at(body, "/data/selling_price"@))
    } else if json_has_at(body, "/data/price"@) {
        int_or_zero(json_number_at(body, "/data/price"@))
    } else {
        0
    };
    if v > 0 {
        v
    } else {
        0
    }
}

/// Reads the bill amount of an inquiry reply body.
pub fn bill_amount(body: &str) -> (r: i64)
    ensures
        r == bill_amount_of(body@),
        r >= 0,
{
    let v = if has_at(body, "/data/selling_price") {
        match number_at(body, "/data/selling_price") {
            Some(p) => p,
            None => 0,
        }
    } else if has_at(body, "/data/price") {
        match number_at(body, "/data/price") {
            Some(p) => p,
            None => 0,
        }
    } else {
        0
    };
    if v > 0 {
        v
    } else {
        0
    }
}

/// What came back from one provider call.
pub enum ProviderReply {
    /// The request could not be sent or no response arrived.
    Unreachable,
    /// A response arrived with HTTP status code `status`.
    Answered { status: u16, body: String },
}

/// A 2xx HTTP status code.
pub open spec fn success_code(status: u16) -> bool {
    200 <= status && status <= 299
}

/// Whether an HTTP status code is a 2xx one.
pub fn is_success_code(status: u16) -> (r: bool)
    ensures
        r == success_code(status),
{
    200 <= status && status <= 299
}

/// A provider status word that reports failure: `failed` or `gagal`, in
/// any ASCII case.
pub open spec fn failure_word(t: Seq<char>) -> bool {
    same_ignoring_ascii_case(t, "failed"@) || same_ignoring_ascii_case(t, "gagal"@)
}

/// A provider status text that reports failure once trimmed.
pub open spec fn failure_status(s: Seq<char>) -> bool {
    failure_word(trim_of(s))
}

/// A provider status word that reports success: `sukses` or `success`, in
/// any ASCII case.
pub open spec fn success_word(t: Seq<char>) -> bool {
    same_ignoring_ascii_case(t, "sukses"@) || same_ignoring_ascii_case(t, "success"@)
}

/// Whether a trimmed status word reports failure.
pub fn is_failure_word(t: &str) -> (r: bool)
    ensures
        r == failure_word(t@),
{
    eq_ignore_ascii_case(t, "failed") || eq_ignore_ascii_case(t, "gagal")
}

/// Whether a trimmed status word reports success.
pub fn is_success_word(t: &str) -> (r: bool)
    ensures
        r == success_word(t@),
{
    eq_ignore_ascii_case(t, "sukses") || eq_ignore_ascii_case(t, "success")
}

/// Whether a provider status text reports failure.
pub fn is_failed_status(s: &str) -> (r: bool)
    ensures
        r == failure_status(s@),
{
    let t = trim(s);
    is_failure_word(t.as_str())
}

/// How a provider reply is classified.
#[derive(PartialEq, Eq, Structural, Clone, Copy, Debug)]
pub enum Verdict {
    /// A 2xx JSON reply whose status does not report failure: success or
    /// still pending, and never compensated.
    Accepted,
    /// No response.
    Unreachable,
    /// A non-2xx response.
    HttpFailure,
    /// A 2xx response that is not JSON.
    Malformed,
    /// A 2xx reply whose `data.status` is `failed` or `gagal`.
    Declined,
}

impl Verdict {
    pub open spec fn failed(self) -> bool {
        self != Verdict::Accepted
    }
}

/// The classification shared by every call site: any transport, HTTP or
/// format failure is a failure, and on a 2xx JSON reply only an explicit
/// failure word is.
pub open spec fn verdict_of(reply: ProviderReply) -> Verdict {
    match reply {
        ProviderReply::Unreachable => Verdict::Unreachable,
        ProviderReply::Answered { status, body } => if !success_code(status) {
            Verdict::HttpFailure
        } else if !json_valid(body@) {
            Verdict::Malformed
        } else if failure_status(or_empty(json_text_at(body@, "/data/status"@))) {
            Verdict::Declined
        } else {
            Verdict::Accepted
        },
    }
}

/// Classifies a provider reply.
pub fn classify(reply: &ProviderReply) -> (r: Verdict)
    ensures
        r == verdict_of(*reply),
{
    match reply {
        ProviderReply::Unreachable => Verdict::Unreachable,
        ProviderReply::Answered { status, body } => {
            if !is_success_code(*status) {
                return Verdict::HttpFailure;
            }
            match read_envelope(body.as_str()) {
                None => Verdict::Malformed,
                Some(env) => if is_failed_status(env.status.as_str()) {
                    Verdict::Declined
                } else {
                    Verdict::Accepted
                },
            }
        },
    }
}

} // verus!
