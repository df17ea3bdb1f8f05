use vstd::prelude::*;

use std::collections::HashMap;

use crate::error::{FlowError, Invalid, Missing};
use crate::provider::{opt_view, or_empty};
use crate::text::{contains, seq_contains, trim, trim_of, views};

verus! {

/// How many pushes may be in flight at once during one dispatch.
pub const SEND_CONCURRENCY: usize = 8;

/// A push to one device token.
pub struct SendNotificationReq {
    pub token: String,
    pub title: String,
    pub body: String,
    pub data: Option<HashMap<String, String>>,
}

/// An announcement to every investor of a store, for one company.
pub struct SendNotificationStoreReq {
    pub id_store: i32,
    pub id_cmp: i32,
}

/// The message id the push backend gave one delivered push.
pub struct SendNotificationRes {
    pub name: String,
}

/// What a dispatch delivered.
pub struct SendNotificationStoreRes {
    pub sent: usize,
    pub names: Vec<String>,
}

/// Accepts a store announcement only with positive identifiers.
pub fn check_store_request(req: &SendNotificationStoreReq) -> (r: Result<(), FlowError>)
    ensures
        req.id_store <= 0 ==> r == Err::<(), FlowError>(
            FlowError::Validation(Invalid::MissingStoreId),
        ),
        req.id_store > 0 && req.id_cmp <= 0 ==> r == Err::<(), FlowError>(
            FlowError::Validation(Invalid::MissingCompanyId),
        ),
        req.id_store > 0 && req.id_cmp > 0 ==> r is Ok,
{
    if req.id_store <= 0 {
        Err(FlowError::Validation(Invalid::MissingStoreId))
    } else if req.id_cmp <= 0 {
        Err(FlowError::Validation(Invalid::MissingCompanyId))
    } else {
        Ok(())
    }
}

fn blank(s: &String) -> (r: bool)
    ensures
        r == (trim_of(s@).len() == 0),
{
    let t = trim(s.as_str());
    t.as_str().unicode_len() == 0
}

/// Accepts a single push only with a token, a title and a body that are
/// not blank.
pub fn check_single_request(req: &SendNotificationReq) -> (r: Result<(), FlowError>)
    ensures
        trim_of(req.token@).len() == 0 ==> r == Err::<(), FlowError>(
            FlowError::Validation(Invalid::MissingToken),
        ),
        trim_of(req.token@).len() > 0 && (trim_of(req.title@).len() == 0 || trim_of(req.body@).len()
            == 0) ==> r == Err::<(), FlowError>(FlowError::Validation(Invalid::MissingTitleOrBody)),
        r is Ok <==> trim_of(req.token@).len() > 0 && trim_of(req.title@).len() > 0 && trim_of(
            req.body@,
        ).len() > 0,
{
    if blank(&req.token) {
        Err(FlowError::Validation(Invalid::MissingToken))
    } else if blank(&req.title) || blank(&req.body) {
        Err(FlowError::Validation(Invalid::MissingTitleOrBody))
    } else {
        Ok(())
    }
}

/// One row of an announcement query: the store name, the message and one
/// investor's identity number.
pub struct NotifRow {
    pub name_store: Option<String>,
    pub pesan: Option<String>,
    pub nik: Option<i64>,
}

/// An announcement ready to send: its title, body and distinct recipients.
pub struct NotifPayload {
    pub title: String,
    pub body: String,
    pub niks: Vec<i64>,
}

/// The first store name among the rows.
pub open spec fn first_title(rows: Seq<NotifRow>) -> Option<Seq<char>>
    decreases rows.len(),
{
    if rows.len() == 0 {
        None
    } else {
        match rows[0].name_store {
            Some(s) => Some(s@),
            None => first_title(rows.drop_first()),
        }
    }
}

/// The first message among the rows.
pub open spec fn first_body(rows: Seq<NotifRow>) -> Option<Seq<char>>
    decreases rows.len(),
{
    if rows.len() == 0 {
        None
    } else {
        match rows[0].pesan {
            Some(s) => Some(s@),
            None => first_body(rows.drop_first()),
        }
    }
}

/// No value occurs twice.
pub open spec fn distinct<T>(s: Seq<T>) -> bool {
    forall|i: int, j: int| 0 <= i < j < s.len() ==> s[i] != s[j]
}

/// Row `i` names investor `x`.
pub open spec fn nik_at(rows: Seq<NotifRow>, i: int, x: i64) -> bool {
    rows[i].nik == Some(x)
}

/// Some row names investor `x`.
pub open spec fn names_nik(rows: Seq<NotifRow>, x: i64) -> bool {
    exists|i: int| 0 <= i < rows.len() && #[trigger] nik_at(rows, i, x)
}

fn first_title_of(rows: &Vec<NotifRow>) -> (r: Option<String>)
    ensures
        match r {
            Some(s) => first_title(rows@) == Some(s@),
            None => first_title(rows@) is None,
        },
{
    let mut i: usize = rows.len();
    let mut found: Option<String> = None;
    while i > 0
        invariant
            i <= rows@.len(),
            match found {
                Some(s) => first_title(rows@.subrange(i as int, rows@.len() as int)) == Some(s@),
                None => first_title(rows@.subrange(i as int, rows@.len() as int)) is None,
            },
        decreases i,
    {
        i = i - 1;
        proof {
            assert(rows@.subrange(i as int, rows@.len() as int).drop_first() =~= rows@.subrange(
                i + 1,
                rows@.len() as int,
            ));
        }
        match &rows[i].name_store {
            Some(s) => {
                found = Some(s.clone());
            },
            None => {},
        }
    }
    proof {
        assert(rows@.subrange(0, rows@.len() as int) =~= rows@);
    }
    found
}

fn first_body_of(rows: &Vec<NotifRow>) -> (r: Option<String>)
    ensures
        match r {
            Some(s) => first_body(rows@) == Some(s@),
            None => first_body(rows@) is None,
        },
{
    let mut i: usize = rows.len();
    let mut found: Option<String> = None;
    while i > 0
        invariant
            i <= rows@.len(),
            match found {
                Some(s) => first_body(rows@.subrange(i as int, rows@.len() as int)) == Some(s@),
                None => first_body(rows@.subrange(i as int, rows@.len() as int)) is None,
            },
        decreases i,
    {
        i = i - 1;
        proof {
            assert(rows@.subrange(i as int, rows@.len() as int).drop_first() =~= rows@.subrange(
                i + 1,
                rows@.len() as int,
            ));
        }
        match &rows[i].pesan {
            Some(s) => {
                found = Some(s.clone());
            },
            None => {},
        }
    }
    proof {
        assert(rows@.subrange(0, rows@.len() as int) =~= rows@);
    }
    found
}

fn has_nik(v: &Vec<i64>, x: i64) -> (r: bool)
    ensures
        r == v@.contains(x),
{
    let mut i: usize = 0;
    while i < v.len()
        invariant
            i <= v@.len(),
            forall|j: int| 0 <= j < i ==> v@[j] != x,
        decreases v@.len() - i,
    {
        if v[i] == x {
            return true;
        }
        i = i + 1;
    }
    false
}

/// The distinct investors named by the rows, in order of first mention.
pub fn distinct_niks(rows: &Vec<NotifRow>) -> (r: Vec<i64>)
    ensures
        distinct(r@),
        forall|x: i64| r@.contains(x) <==> names_nik(rows@, x),
{
    let mut out: Vec<i64> = Vec::new();
    let mut i: usize = 0;
    while i < rows.len()
        invariant
            i <= rows@.len(),
            distinct(out@),
            forall|x: i64| out@.contains(x) <==> names_nik(rows@.take(i as int), x),
        decreases rows@.len() - i,
    {
        let ghost old_out = out@;
        proof {
            assert forall|x: i64| names_nik(rows@.take(i + 1), x) <==> (names_nik(
                rows@.take(i as int),
                x,
            ) || rows@[i as int].nik == Some(x)) by {
                if names_nik(rows@.take(i + 1), x) {
                    let k = choose|k: int| 0 <= k < i + 1 && #[trigger] nik_at(rows@.take(i + 1), k, x);
                    if k < i {
                        assert(rows@.take(i as int)[k] == rows@.take(i + 1)[k]);
                        assert(nik_at(rows@.take(i as int), k, x));
                    }
                }
                if names_nik(rows@.take(i as int), x) {
                    let k = choose|k: int| 0 <= k < i && #[trigger] nik_at(rows@.take(i as int), k, x);
                    assert(rows@.take(i + 1)[k] == rows@.take(i as int)[k]);
                    assert(nik_at(rows@.take(i + 1), k, x));
                }
                if rows@[i as int].nik == Some(x) {
                    assert(rows@.take(i + 1)[i as int] == rows@[i as int]);
                    assert(nik_at(rows@.take(i + 1), i as int, x));
                }
            }
        }
        match rows[i].nik {
            Some(x) => {
                if !has_nik(&out, x) {
                    let ghost before = out@;
                    out.push(x);
                    proof {
                        assert forall|y: i64| out@.contains(y) <==> (before.contains(y) || y == x) by {
                            if out@.contains(y) {
                                let k = choose|k: int| 0 <= k < out@.len() && out@[k] == y;
                                if k < before.len() {
                                    assert(before[k] == y);
                                }
                            }
                            if before.contains(y) {
                                let k = choose|k: int| 0 <= k < before.len() && before[k] == y;
                                assert(out@[k] == y);
                            }
                            if y == x {
                                assert(out@[before.len() as int] == y);
                            }
                        }
                    }
                }
            },
            None => {},
        }
        proof {
            assert forall|y: i64| out@.contains(y) <==> names_nik(rows@.take(i + 1), y) by {
                assert(old_out.contains(y) <==> names_nik(rows@.take(i as int), y));
            }
        }
        i = i + 1;
    }
    proof {
        assert(rows@.take(rows@.len() as int) =~= rows@);
    }
    out
}

/// Builds an announcement from its query rows: no rows means no such
/// store; the title and body are the first ones given, trimmed, and must not
/// be blank; the recipients are the distinct investors named.
pub fn assemble_payload(rows: &Vec<NotifRow>) -> (r: Result<NotifPayload, FlowError>)
    ensures
        rows@.len() == 0 ==> r == Err::<NotifPayload, FlowError>(
            FlowError::NotFound(Missing::Store),
        ),
        rows@.len() > 0 ==> (r is Ok <==> trim_of(or_empty(first_title(rows@))).len() > 0
            && trim_of(or_empty(first_body(rows@))).len() > 0),
        rows@.len() > 0 && r is Err ==> r == Err::<NotifPayload, FlowError>(
            FlowError::NotFound(Missing::Template),
        ),
        r is Ok ==> r->Ok_0.title@ == trim_of(or_empty(first_title(rows@))) && r->Ok_0.body@
            == trim_of(or_empty(first_body(rows@))) && distinct(r->Ok_0.niks@) && forall|x: i64|
            r->Ok_0.niks@.contains(x) <==> names_nik(rows@, x),
{
    if rows.len() == 0 {
        return Err(FlowError::NotFound(Missing::Store));
    }
    let title_raw = match first_title_of(rows) {
        Some(s) => s,
        None => String::new(),
    };
    let body_raw = match first_body_of(rows) {
        Some(s) => s,
        None => String::new(),
    };
    let title = trim(title_raw.as_str());
    let body = trim(body_raw.as_str());
    if title.as_str().unicode_len() == 0 || body.as_str().unicode_len() == 0 {
        return Err(FlowError::NotFound(Missing::Template));
    }
    Ok(NotifPayload { title, body, niks: distinct_niks(rows) })
}

/// Raw token `i`, once trimmed, is `t`.
pub open spec fn token_at(raw: Seq<Option<String>>, i: int, t: Seq<char>) -> bool {
    raw[i] matches Some(s) && trim_of(s@) == t
}

/// Some raw token, once trimmed, is `t`.
pub open spec fn offers_token(raw: Seq<Option<String>>, t: Seq<char>) -> bool {
    exists|i: int| 0 <= i < raw.len() && #[trigger] token_at(raw, i, t)
}

fn has_token(v: &Vec<String>, t: &String) -> (r: bool)
    ensures
        r == views(v@).contains(t@),
{
    let mut i: usize = 0;
    while i < v.len()
        invariant
            i <= v@.len(),
            forall|j: int| 0 <= j < i ==> v@[j]@ != t@,
        decreases v@.len() - i,
    {
        if v[i] == *t {
            proof {
                assert(views(v@)[i as int] == t@);
            }
            return true;
        }
        i = i + 1;
    }
    proof {
        if views(v@).contains(t@) {
            let k = choose|k: int| 0 <= k < views(v@).len() && views(v@)[k] == t@;
            assert(v@[k]@ == t@);
        }
    }
    false
}

/// The distinct non-blank device tokens among `raw`, each trimmed, in order
/// of first mention: one identity may have several sessions.
pub fn distinct_tokens(raw: &Vec<Option<String>>) -> (r: Vec<String>)
    ensures
        distinct(views(r@)),
        forall|t: Seq<char>| views(r@).contains(t) <==> (t.len() > 0 && offers_token(raw@, t)),
{
    let mut out: Vec<String> = Vec::new();
    let mut i: usize = 0;
    while i < raw.len()
        invariant
            i <= raw@.len(),
            distinct(views(out@)),
            forall|t: Seq<char>| views(out@).contains(t) <==> (t.len() > 0 && offers_token(
                raw@.take(i as int),
                t,
            )),
        decreases raw@.len() - i,
    {
        let ghost old_out = out@;
        proof {
            assert forall|t: Seq<char>| offers_token(raw@.take(i + 1), t) <==> (offers_token(
                raw@.take(i as int),
                t,
            ) || token_at(raw@, i as int, t)) by {
                if offers_token(raw@.take(i + 1), t) {
                    let k = choose|k: int| 0 <= k < i + 1 && #[trigger] token_at(raw@.take(i + 1), k, t);
                    if k < i {
                        assert(raw@.take(i as int)[k] == raw@.take(i + 1)[k]);
                        assert(token_at(raw@.take(i as int), k, t));
                    }
                }
                if offers_token(raw@.take(i as int), t) {
                    let k = choose|k: int| 0 <= k < i && #[trigger] token_at(raw@.take(i as int), k, t);
                    assert(raw@.take(i + 1)[k] == raw@.take(i as int)[k]);
                    assert(token_at(raw@.take(i + 1), k, t));
                }
                if token_at(raw@, i as int, t) {
                    assert(raw@.take(i + 1)[i as int] == raw@[i as int]);
                    assert(token_at(raw@.take(i + 1), i as int, t));
                }
            }
        }
        match &raw[i] {
            Some(s) => {
                let t = trim(s.as_str());
                proof {
                    assert(token_at(raw@, i as int, t@));
                }
                if t.as_str().unicode_len() > 0 && !has_token(&out, &t) {
                    let ghost before = out@;
                    out.push(t);
                    proof {
                        assert(views(out@) =~= views(before).push(t@));
                        assert forall|a: int, b: int|
                            0 <= a < b < views(out@).len() implies views(out@)[a] != views(
                            out@,
                        )[b] by {
                            if b < views(before).len() {
                                assert(views(out@)[a] == views(before)[a]);
                                assert(views(out@)[b] == views(before)[b]);
                            } else {
                                assert(views(out@)[a] == views(before)[a]);
                                assert(views(before).contains(views(before)[a]));
                            }
                        }
                        assert forall|u: Seq<char>| views(out@).contains(u) <==> (views(
                            before,
                        ).contains(u) || u == t@) by {
                            if views(out@).contains(u) {
                                let k = choose|k: int|
                                    0 <= k < views(out@).len() && views(out@)[k] == u;
                                if k < views(before).len() {
                                    assert(views(before)[k] == u);
                                }
                            }
                            if views(before).contains(u) {
                                let k = choose|k: int|
                                    0 <= k < views(before).len() && views(before)[k] == u;
                                assert(views(out@)[k] == u);
                            }
                            if u == t@ {
                                assert(views(out@)[views(before).len() as int] == u);
                            }
                        }
                    }
                }
            },
            None => {},
        }
        proof {
            assert forall|u: Seq<char>| views(out@).contains(u) <==> (u.len() > 0 && offers_token(
                raw@.take(i + 1),
                u,
            )) by {
                assert(views(old_out).contains(u) <==> (u.len() > 0 && offers_token(
                    raw@.take(i as int),
                    u,
                )));
                if token_at(raw@, i as int, u) {
                    assert(raw@[i as int] is Some);
                }
            }
        }
        i = i + 1;
    }
    proof {
        assert(raw@.take(raw@.len() as int) =~= raw@);
    }
    out
}

/// A push backend error body that marks the token as no longer registered.
pub open spec fn unregistered(body: Seq<char>) -> bool {
    seq_contains(body, "UNREGISTERED"@) || seq_contains(body, "Unregistered"@)
}

/// Whether a push backend error body reports an unregistered token.
pub fn is_unregistered(body: &str) -> (r: bool)
    ensures
        r == unregistered(body@),
{
    contains(body, "UNREGISTERED") || contains(body, "Unregistered")
}

/// How one push ended.
pub enum SendOutcome {
    /// Delivered, with the backend's message id.
    Delivered(String),
    /// Refused by the backend, with its error body.
    Rejected(String),
    /// The sending task itself failed.
    Lost,
}

/// The message ids collected from `rs`, taken in order: an unregistered
/// token is skipped, and any other failure stops the collection (`None`).
pub open spec fn collected(rs: Seq<SendOutcome>) -> Option<Seq<Seq<char>>>
    decreases rs.len(),
{
    if rs.len() == 0 {
        Some(Seq::empty())
    } else {
        match collected(rs.drop_last()) {
            None => None,
            Some(ns) => match rs.last() {
                SendOutcome::Delivered(n) => Some(ns.push(n@)),
                SendOutcome::Rejected(b) => if unregistered(b@) {
                    Some(ns)
                } else {
                    None
                },
                SendOutcome::Lost => None,
            },
        }
    }
}

/// Collects the outcomes of a fan-out, in the order they were joined.
pub fn collect_sends(rs: Vec<SendOutcome>) -> (r: Result<SendNotificationStoreRes, FlowError>)
    ensures
        match collected(rs@) {
            Some(ns) => r is Ok && views(r->Ok_0.names@) == ns && r->Ok_0.sent == ns.len(),
            None => r == Err::<SendNotificationStoreRes, FlowError>(FlowError::ExternalService),
        },
{
    let ghost all = rs@;
    let mut names: Vec<String> = Vec::new();
    let mut i: usize = 0;
    proof {
        assert(all.take(0) =~= Seq::<SendOutcome>::empty());
    }
    while i < rs.len()
        invariant
            rs@ == all,
            i <= all.len(),
            collected(all.take(i as int)) == Some(views(names@)),
        decreases all.len() - i,
    {
        proof {
            assert(all.take(i + 1).drop_last() =~= all.take(i as int));
            assert(all.take(i + 1).last() == all[i as int]);
        }
        match &rs[i] {
            SendOutcome::Delivered(n) => {
                let ghost before = names@;
                names.push(n.clone());
                proof {
                    assert(views(names@) =~= views(before).push(n@));
                }
            },
            SendOutcome::Rejected(b) => {
                if !is_unregistered(b.as_str()) {
                    proof {
                        assert(collected(all.take(i + 1)) is None);
                        lemma_collection_stops(all, i as int);
                    }
                    return Err(FlowError::ExternalService);
                }
            },
            SendOutcome::Lost => {
                proof {
                    assert(collected(all.take(i + 1)) is None);
                    lemma_collection_stops(all, i as int);
                }
                return Err(FlowError::ExternalService);
            },
        }
        i = i + 1;
    }
    proof {
        assert(all.take(all.len() as int) =~= all);
    }
    let sent = names.len();
    proof {
        assert(views(names@).len() == names@.len());
    }
    Ok(SendNotificationStoreRes { sent, names })
}

/// Once the collection stops, it stays stopped.
proof fn lemma_collection_stops(rs: Seq<SendOutcome>, i: int)
    requires
        0 <= i < rs.len(),
        collected(rs.take(i + 1)) is None,
    ensures
        collected(rs) is None,
    decreases rs.len() - i,
{
    if i + 1 < rs.len() {
        assert(rs.take(i + 2).drop_last() =~= rs.take(i + 1));
        lemma_collection_stops(rs, i + 1);
    } else {
        assert(rs.take(i + 1) =~= rs);
    }
}

/// The number of outcomes that were unregistered-token rejections.
pub open spec fn unregistered_count(rs: Seq<SendOutcome>) -> nat
    decreases rs.len(),
{
    if rs.len() == 0 {
        0
    } else {
        unregistered_count(rs.drop_last()) + match rs.last() {
            SendOutcome::Rejected(b) => if unregistered(b@) {
                1nat
            } else {
                0nat
            },
            _ => 0nat,
        }
    }
}

/// A fan-out in which every push was delivered or refused only because its
/// token is unregistered reports success, with one message id per delivered
/// push: N tokens of which k are unregistered give `sent = N - k`.
pub proof fn law_unregistered_tokens_are_skipped(rs: Seq<SendOutcome>)
    requires
        forall|i: int|
            0 <= i < rs.len() ==> (#[trigger] rs[i] is Delivered || (rs[i] matches SendOutcome::Rejected(
                b,
            ) && unregistered(b@))),
    ensures
        collected(rs) is Some,
        collected(rs)->Some_0.len() == rs.len() - unregistered_count(rs),
    decreases rs.len(),
{
    if rs.len() > 0 {
        let init = rs.drop_last();
        assert forall|i: int| 0 <= i < init.len() implies (#[trigger] init[i] is Delivered || (
        init[i] matches SendOutcome::Rejected(b) && unregistered(b@))) by {
            assert(init[i] == rs[i]);
        }
        law_unregistered_tokens_are_skipped(init);
        assert(rs[rs.len() - 1] == rs.last());
    }
}

/// How long an access token for the push backend is asked to live, in
/// seconds.
pub const ACCESS_TOKEN_LIFETIME: i64 = 3600;

/// The claims of the signed assertion exchanged for one push access token.
pub struct AccessClaims {
    pub iss: String,
    pub scope: String,
    pub aud: String,
    pub iat: i64,
    pub exp: i64,
}

/// The audience an assertion is addressed to: the account's token endpoint,
/// or Google's default one.
pub open spec fn audience_of(token_uri: Option<Seq<char>>) -> Seq<char> {
    match token_uri {
        Some(u) => u,
        None => "https://oauth2.googleapis.com/token"@,
    }
}

/// The assertion claims for a service account issued at time `now`
/// (seconds): the messaging scope, valid for one hour.
pub fn access_claims(client_email: &str, token_uri: &Option<String>, now: i64) -> (r: AccessClaims)
    requires
        now <= i64::MAX - ACCESS_TOKEN_LIFETIME,
    ensures
        r.iss@ == client_email@,
        r.scope@ == "https://www.googleapis.com/auth/firebase.messaging"@,
        r.aud@ == audience_of(opt_view(*token_uri)),
        r.iat == now,
        r.exp == now + ACCESS_TOKEN_LIFETIME,
{
    let aud = match token_uri {
        Some(u) => u.clone(),
        None => "https://oauth2.googleapis.com/token".to_string(),
    };
    AccessClaims {
        iss: client_email.to_string(),
        scope: "https://www.googleapis.com/auth/firebase.messaging".to_string(),
        aud,
        iat: now,
        exp: now + ACCESS_TOKEN_LIFETIME,
    }
}

} // verus!
