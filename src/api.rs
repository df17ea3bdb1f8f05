use vstd::prelude::*;

use crate::error::{FlowError, Invalid};
use crate::models::{role_of, Role};
use crate::pin::{is_valid_pin, valid_pin};
use crate::text::{
    eq_ignore_ascii_case, same_ignoring_ascii_case, same_text, starts_with, trim, trim_of, views,
    words, words_of,
};

verus! {

/// A new user's registration; `role` defaults to `user`.
pub struct RegisterReq {
    pub email: String,
    pub password: String,
    pub role: Option<String>,
}

impl RegisterReq {
    /// The role the new user gets: `user` when none is named, the named one
    /// when it is `admin` or `user`, a validation error otherwise.
    pub fn role(&self) -> (r: Result<Role, FlowError>)
        ensures
            match self.role {
                None => r == Ok::<Role, FlowError>(Role::User),
                Some(n) => match role_of(n@) {
                    Some(x) => r == Ok::<Role, FlowError>(x),
                    None => r == Err::<Role, FlowError>(FlowError::Validation(Invalid::UnknownRole)),
                },
            },
    {
        match &self.role {
            None => Ok(Role::User),
            Some(n) => match Role::from_str(n.as_str()) {
                Some(x) => Ok(x),
                None => Err(FlowError::Validation(Invalid::UnknownRole)),
            },
        }
    }
}

pub struct LoginReq {
    pub email: String,
    pub password: String,
}

pub struct PasswordResetReq {
    pub email: String,
    pub new_password: String,
}

pub struct CheckEmailReq {
    pub email: String,
}

pub struct CheckEmailRes {
    pub exists: bool,
}

/// A PIN change for one account.
pub struct UpdatePinReq {
    pub new_pin: String,
}

impl UpdatePinReq {
    /// Accepts the change only when the new PIN is six ASCII digits.
    pub fn check(&self) -> (r: Result<(), FlowError>)
        ensures
            r is Ok <==> valid_pin(self.new_pin@),
            r is Err ==> r == Err::<(), FlowError>(FlowError::Validation(Invalid::PinFormat)),
    {
        if is_valid_pin(self.new_pin.as_str()) {
            Ok(())
        } else {
            Err(FlowError::Validation(Invalid::PinFormat))
        }
    }
}

/// Accepts a PIN for checking only when it is six ASCII digits.
pub fn check_pin_format(pin: &str) -> (r: Result<(), FlowError>)
    ensures
        r is Ok <==> valid_pin(pin@),
        r is Err ==> r == Err::<(), FlowError>(FlowError::Validation(Invalid::PinFormat)),
{
    if is_valid_pin(pin) {
        Ok(())
    } else {
        Err(FlowError::Validation(Invalid::PinFormat))
    }
}

pub struct VerifyAccountReq {
    pub account_no: String,
}

/// Public facts about an account number.
pub struct VerifyAccountRes {
    pub account_no: String,
    pub owner_name: Option<String>,
    pub status: String,
    pub email: Option<String>,
}

impl VerifyAccountRes {
    /// The answer for an account number that the ledger does not know.
    pub fn not_found(account_no: String) -> (r: VerifyAccountRes)
        ensures
            r.account_no == account_no,
            r.owner_name is None,
            r.status@ == "not_found"@,
            r.email is None,
    {
        VerifyAccountRes {
            account_no,
            owner_name: None,
            status: "not_found".to_string(),
            email: None,
        }
    }
}

pub struct CheckPinRes {
    pub valid: bool,
}

pub struct FcmTokenUpdateReq {
    pub fcm_token: String,
}

pub struct InquiryPlnReq {
    pub customer_no: String,
}

pub struct InquiryPlnData {
    pub message: String,
    pub status: String,
    pub rc: String,
    pub customer_no: String,
    pub meter_no: String,
    pub subscriber_id: String,
    pub name: String,
    pub segment_power: String,
}

pub struct InquiryPlnResponse {
    pub data: InquiryPlnData,
}

pub struct MasterSahamQuery {
    pub nik: String,
}

pub struct DevidenDetailQuery {
    pub id_store: i32,
    pub nik: String,
}

pub struct DashboardDevidenQuery {
    pub nik: String,
    pub tahun: String,
    pub bulan: Option<String>,
    pub bulan_awal: Option<String>,
    pub bulan_akhir: Option<String>,
}

pub struct CheckGradeSahamQuery {
    pub nik: i64,
    pub id_store: i32,
}

pub struct CheckGradeSahamRes {
    pub status: bool,
    pub message: String,
}

pub struct InsertSahamTfReq {
    pub nik: i64,
    pub id_store: i32,
    pub amount_tf: String,
}

pub struct InsertSahamTfRes {
    pub status: bool,
    pub message: String,
    pub new_id: Option<i32>,
}

pub struct NeracaQuery {
    pub id_store: i32,
}

pub struct NeracaRes {
    pub pdf: String,
}

/// The page a journal listing reads: at least one row (fifty by default),
/// from a non-negative offset (zero by default).
pub fn page_window(limit: Option<i32>, offset: Option<i32>) -> (r: (i32, i32))
    ensures
        r.0 == match limit {
            Some(l) => if l >= 1 {
                l
            } else {
                1
            },
            None => 50,
        },
        r.1 == match offset {
            Some(o) => if o >= 0 {
                o
            } else {
                0
            },
            None => 0,
        },
{
    let l = match limit {
        Some(l) => if l >= 1 {
            l
        } else {
            1
        },
        None => 50,
    };
    let o = match offset {
        Some(o) => if o >= 0 {
            o
        } else {
            0
        },
        None => 0,
    };
    (l, o)
}

/// A path prefix reachable without an access token.
pub open spec fn has_prefix(path: Seq<char>, p: Seq<char>) -> bool {
    p.len() <= path.len() && path.subrange(0, p.len() as int) == p
}

/// Paths that skip token authentication: registration, login, refresh,
/// password reset, e-mail check and the health probe.
pub open spec fn public_path(path: Seq<char>) -> bool {
    has_prefix(path, "/auth/register"@) || has_prefix(path, "/auth/login"@) || has_prefix(
        path,
        "/auth/refresh"@,
    ) || has_prefix(path, "/health"@) || has_prefix(path, "/auth/password_reset"@) || has_prefix(
        path,
        "/auth/check_email"@,
    )
}

/// Whether a request path skips token authentication.
pub fn is_public_path(path: &str) -> (r: bool)
    ensures
        r == public_path(path@),
{
    starts_with(path, "/auth/register") || starts_with(path, "/auth/login") || starts_with(
        path,
        "/auth/refresh",
    ) || starts_with(path, "/health") || starts_with(path, "/auth/password_reset") || starts_with(
        path,
        "/auth/check_email",
    )
}

/// Accepts a transfer only between two different account numbers, compared
/// once trimmed.
pub fn check_transfer_accounts(from_no: &str, to_no: &str) -> (r: Result<(), FlowError>)
    ensures
        r is Ok <==> trim_of(from_no@) != trim_of(to_no@),
        r is Err ==> r == Err::<(), FlowError>(FlowError::Validation(Invalid::SameAccounts)),
{
    let a = trim(from_no);
    let b = trim(to_no);
    if same_text(a.as_str(), b.as_str()) {
        Err(FlowError::Validation(Invalid::SameAccounts))
    } else {
        Ok(())
    }
}

/// The token of an `Authorization` header: its first word must be `Bearer`
/// in any ASCII case, and its second word is the token.
pub open spec fn bearer_of(header: Seq<char>) -> Option<Seq<char>> {
    let w = words_of(header);
    if w.len() >= 2 && same_ignoring_ascii_case(w[0], "Bearer"@) && w[1].len() > 0 {
        Some(w[1])
    } else {
        None
    }
}

/// Reads the bearer token of an `Authorization` header, if it has one.
pub fn bearer_token(header: &str) -> (r: Option<String>)
    ensures
        match r {
            Some(t) => bearer_of(header@) == Some(t@),
            None => bearer_of(header@) is None,
        },
{
    let w = words(header);
    proof {
        assert(views(w@).len() == w@.len());
    }
    if w.len() < 2 {
        return None;
    }
    proof {
        assert(views(w@)[0] == w@[0]@);
        assert(views(w@)[1] == w@[1]@);
    }
    if !eq_ignore_ascii_case(w[0].as_str(), "Bearer") || w[1].as_str().unicode_len() == 0 {
        return None;
    }
    Some(w[1].clone())
}

} // verus!
