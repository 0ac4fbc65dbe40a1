use vstd::prelude::*;
use hmac::Mac;
use jwt::SignWithKey;
use jsonwebtoken::{EncodingKey, Header};
use serde_json::Value;
use jsonwebtoken::{DecodingKey, Validation};
use std::collections::BTreeMap;
use crate::error::Error;
use crate::text::str_equal;

verus! {

/// Seconds in the 24 hours for which a token stays valid.
pub const TOKEN_LIFETIME_SECS: i64 = 86400;

/// What a signed token says about its holder: e-mail (`sub`), expiry and
/// issue times in seconds since the Unix epoch, user id and role.
#[derive(Debug, Clone)]
pub struct Claims {
    pub sub: String,
    pub exp: i64,
    pub iat: i64,
    pub user_id: i32,
    pub role: String,
}

/// Calls `SystemTime::now().duration_since(UNIX_EPOCH)`. Trusted: the time
/// is whatever the clock says, `None` when it reads before the Unix epoch;
/// the documentation of `Duration::subsec_nanos` bounds the nanoseconds below
/// one billion.
#[verifier::external_body]
fn time_since_epoch() -> (res: Option<(u64, u32)>)
    ensures
        res matches Some(t) ==> t.1 < 1_000_000_000,
{
    std::time::SystemTime::now().duration_since(std::time::UNIX_EPOCH).ok().map(|d| (d.as_secs(), d.subsec_nanos()))
}

/// The last second of chrono's dates: the end of December 31 of the year
/// 262142, in seconds since the Unix epoch.
pub const MAX_CHRONO_SECS: u64 = 8_210_266_876_799;

/// Calls `chrono::DateTime::from_timestamp` and `timestamp` on the result.
/// Trusted: the crate documents that the two round-trip, and its source
/// gives a date for every second from the epoch to `MAX_CHRONO_SECS` with
/// nanoseconds below one billion, and `None` for any later second.
#[verifier::external_body]
fn utc_timestamp(secs: i64, nanos: u32) -> (res: Option<i64>)
    ensures
        0 <= secs <= MAX_CHRONO_SECS && nanos < 1_000_000_000 ==> res == Some(secs),
        res matches Some(t) ==> t == secs && secs <= MAX_CHRONO_SECS,
{
    chrono::DateTime::from_timestamp(secs, nanos).map(|dt| dt.timestamp())
}

/// The whole seconds of a clock reading (seconds and nanoseconds since the
/// epoch), as `chrono::Utc::now().timestamp()` makes them: the seconds while
/// they are within chrono's dates, `None` after them.
pub fn timestamp_of(secs: u64, nanos: u32) -> (res: Option<i64>)
    ensures
        secs <= MAX_CHRONO_SECS && nanos < 1_000_000_000 ==> res == Some(secs as i64),
        secs > MAX_CHRONO_SECS ==> res is None,
        res matches Some(t) ==> t == secs,
{
    if secs > MAX_CHRONO_SECS {
        None
    } else {
        utc_timestamp(secs as i64, nanos)
    }
}

/// A clock reading within chrono's dates.
pub open spec fn reading_in_range(reading: Option<(u64, u32)>) -> bool {
    match reading {
        Some((secs, nanos)) => secs <= MAX_CHRONO_SECS && nanos < 1_000_000_000,
        None => false,
    }
}

/// A clock reading that gives no time: none, or after chrono's dates.
pub open spec fn reading_out_of_range(reading: Option<(u64, u32)>) -> bool {
    match reading {
        Some((secs, _)) => secs > MAX_CHRONO_SECS,
        None => true,
    }
}

impl Claims {
    /// The claims of a token issued at `iat` (seconds since the epoch):
    /// it expires 24 hours later.
    pub fn issued_at(email: String, user_id: i32, role: String, iat: i64) -> (claims: Claims)
        requires
            iat <= i64::MAX - TOKEN_LIFETIME_SECS,
        ensures
            claims.sub@ == email@,
            claims.user_id == user_id,
            claims.role@ == role@,
            claims.iat == iat,
            claims.exp == iat + TOKEN_LIFETIME_SECS,
    {
        Claims { sub: email, iat, exp: iat + TOKEN_LIFETIME_SECS, user_id, role }
    }

    /// The claims of a token issued at the time a clock reading gives (see
    /// [`timestamp_of`]); `None` when the reading gives no time.
    pub fn from_reading(email: String, user_id: i32, role: String, reading: Option<(u64, u32)>) -> (res: Option<Claims>)
        ensures
            reading_in_range(reading) ==> (res matches Some(c) && c.sub@ == email@ && c.user_id == user_id
                && c.role@ == role@ && c.iat == reading.unwrap().0 && c.exp == c.iat + TOKEN_LIFETIME_SECS),
            reading_out_of_range(reading) ==> res is None,
            res matches Some(c) ==> {
                &&& (reading matches Some(r) && c.iat == r.0)
                &&& c.sub@ == email@
                &&& c.user_id == user_id
                &&& c.role@ == role@
                &&& c.exp == c.iat + TOKEN_LIFETIME_SECS
            },
    {
        match reading {
            None => None,
            Some((secs, nanos)) => match timestamp_of(secs, nanos) {
                Some(iat) => Some(Claims::issued_at(email, user_id, role, iat)),
                None => None,
            },
        }
    }

    /// The claims of a token issued now; it expires 24 hours later. `None`
    /// when the clock reads before the epoch or after chrono's dates.
    pub fn new(email: String, user_id: i32, role: String) -> (res: Option<Claims>)
        ensures
            res matches Some(claims) ==> {
                &&& claims.sub@ == email@
                &&& claims.user_id == user_id
                &&& claims.role@ == role@
                &&& claims.iat >= 0
                &&& claims.exp == claims.iat + TOKEN_LIFETIME_SECS
            },
    {
        Claims::from_reading(email, user_id, role, time_since_epoch())
    }
}

/// The HS256 JSON Web Token that `jsonwebtoken::encode` makes from the default
/// header and the claims object `{"sub","exp","iat","user_id","role"}`
/// (in that order) with the given secret.
pub uninterp spec fn hs256_token(
    sub: Seq<char>,
    exp: int,
    iat: int,
    user_id: i32,
    role: Seq<char>,
    secret: Seq<char>,
) -> Seq<char>;

/// The first segment of every token made with the default header: the
/// base64url text of `{"typ":"JWT","alg":"HS256"}`.
pub open spec fn default_header_segment() -> Seq<char> {
    "eyJ0eXAiOiJKV1QiLCJhbGciOiJIUzI1NiJ9."@
}

/// Calls `jsonwebtoken::encode` with `Header::default()`, the claims as a JSON
/// object and `EncodingKey::from_secret`. Trusted: the result is
/// `hs256_token` of the claims' fields and the secret, and, as the crate's
/// source builds it, starts with the base64url text of the default header and
/// a dot. The source shows no failure for an HMAC key with the default
/// header and a JSON object, so the call is unwrapped.
#[verifier::external_body]
fn encode_claims(claims: &Claims, secret: &str) -> (token: String)
    ensures
        token@ == hs256_token(
            claims.sub@,
            claims.exp as int,
            claims.iat as int,
            claims.user_id,
            claims.role@,
            secret@,
        ),
        default_header_segment().is_prefix_of(token@),
{
    let mut object = serde_json::Map::new();
    object.insert("sub".to_string(), Value::from(claims.sub.clone()));
    object.insert("exp".to_string(), Value::from(claims.exp));
    object.insert("iat".to_string(), Value::from(claims.iat));
    object.insert("user_id".to_string(), Value::from(claims.user_id));
    object.insert("role".to_string(), Value::from(claims.role.clone()));
    let key = EncodingKey::from_secret(secret.as_bytes());
    jsonwebtoken::encode(&Header::default(), &Value::Object(object), &key).unwrap()
}

/// The token of a holder issued at `iat`.
pub open spec fn token_issued_at(email: Seq<char>, user_id: i32, role: Seq<char>, iat: i64, secret: Seq<char>) -> Seq<char> {
    hs256_token(email, iat + TOKEN_LIFETIME_SECS, iat as int, user_id, role, secret)
}

/// Signs the claims of a token issued at `iat` with `secret`.
pub fn sign_at(email: String, user_id: i32, role: String, iat: i64, secret: &str) -> (token: String)
    requires
        iat <= i64::MAX - TOKEN_LIFETIME_SECS,
    ensures
        token@ == token_issued_at(email@, user_id, role@, iat, secret@),
        default_header_segment().is_prefix_of(token@),
{
    let claims = Claims::issued_at(email, user_id, role, iat);
    encode_claims(&claims, secret)
}

/// Signs a token for the holder, issued at the time a clock reading gives
/// and valid for 24 hours; the clock failure when the reading gives no time.
pub fn sign_with_reading(
    email: String,
    user_id: i32,
    role: String,
    secret: &str,
    reading: Option<(u64, u32)>,
) -> (res: Result<String, crate::error::Error>)
    ensures
        reading_in_range(reading) ==> (res matches Ok(token)
            && token@ == token_issued_at(email@, user_id, role@, reading.unwrap().0 as i64, secret@)),
        reading_out_of_range(reading) ==> (res matches Err(e) && e is ClockError),
        match res {
            Ok(token) => default_header_segment().is_prefix_of(token@) && exists|iat: i64|
                0 <= iat && #[trigger] token_issued_at(email@, user_id, role@, iat, secret@) == token@,
            Err(e) => e is ClockError,
        },
{
    let ghost (e, r) = (email@, role@);
    match Claims::from_reading(email, user_id, role, reading) {
        Some(claims) => {
            let token = encode_claims(&claims, secret);
            assert(token_issued_at(e, user_id, r, claims.iat, secret@) == token@);
            Ok(token)
        },
        None => Err(crate::error::Error::ClockError),
    }
}

/// Signs a token for the holder, issued now and valid for 24 hours; the
/// clock failure when the clock reads before the epoch or after chrono's
/// dates (see [`sign_with_reading`]).
pub fn sign(email: String, user_id: i32, role: String, secret: &str) -> (res: Result<String, crate::error::Error>)
    ensures
        match res {
            Ok(token) => default_header_segment().is_prefix_of(token@) && exists|iat: i64|
                0 <= iat && #[trigger] token_issued_at(email@, user_id, role@, iat, secret@) == token@,
            Err(e) => e is ClockError,
        },
{
    sign_with_reading(email, user_id, role, secret, time_since_epoch())
}

/// How jsonwebtoken displays its refusal of an expired token.
pub open spec fn expired_signature_text() -> Seq<char> {
    "ExpiredSignature"@
}

/// The outcome of checking a token made from the given claims with the same
/// secret: the claims it was signed with, a refusal as expired, or a clock
/// failure; never any other refusal.
pub open spec fn signed_token_outcome(
    res: Result<Claims, Error>,
    sub: Seq<char>,
    exp: int,
    iat: int,
    user_id: i32,
    role: Seq<char>,
) -> bool {
    ||| res matches Ok(c) && c.sub@ == sub && c.exp == exp && c.iat == iat && c.user_id == user_id && c.role@ == role
    ||| res matches Err(Error::JwtError(m)) && m@ == expired_signature_text()
    ||| res matches Err(Error::ClockError)
}

/// A claim of a decoded token, as its JSON value gives it: a text, a number
/// (with its value when it is an `i64`), or anything else.
#[derive(Debug, Clone)]
pub enum ClaimValue {
    Text(String),
    Number(Option<i64>),
    Other,
}

/// The abstract form of a [`ClaimValue`].
pub enum ClaimValueView {
    Text(Seq<char>),
    Number(Option<int>),
    Other,
}

impl View for ClaimValue {
    type V = ClaimValueView;

    open spec fn view(&self) -> ClaimValueView {
        match self {
            ClaimValue::Text(s) => ClaimValueView::Text(s@),
            ClaimValue::Number(Some(n)) => ClaimValueView::Number(Some(*n as int)),
            ClaimValue::Number(None) => ClaimValueView::Number(None),
            ClaimValue::Other => ClaimValueView::Other,
        }
    }
}

/// The abstract form of a token's claims by name.
pub open spec fn entries_view(entries: Seq<(String, ClaimValue)>) -> Seq<(Seq<char>, ClaimValueView)> {
    entries.map_values(|e: (String, ClaimValue)| (e.0@, e.1@))
}

/// The claims of a token made from the given claim values, by name in
/// sorted order, as the decoder gives them back.
pub open spec fn signed_entries(sub: Seq<char>, exp: int, iat: int, user_id: i32, role: Seq<char>) -> Seq<(Seq<char>, ClaimValueView)> {
    seq![
        ("exp"@, ClaimValueView::Number(Some(exp))),
        ("iat"@, ClaimValueView::Number(Some(iat))),
        ("role"@, ClaimValueView::Text(role)),
        ("sub"@, ClaimValueView::Text(sub)),
        ("user_id"@, ClaimValueView::Number(Some(user_id as int))),
    ]
}

/// Calls `jsonwebtoken::decode` into a `BTreeMap` of JSON values with
/// `DecodingKey::from_secret` and `Validation::default()` (HS256, the
/// signature checked, `exp` required and not past, with a minute's leeway),
/// and turns each value into a [`ClaimValue`]. Trusted: for a token that
/// `encode_claims` made with the same secret, a decoded token gives back the
/// claims it was made from, in key order; and when its `exp` is not
/// negative, the crate's source refuses it only as expired (the signature
/// checks, the claims parse, and `exp` parses as the required `u64`), whose
/// display is `ExpiredSignature`. Whether it is expired rests on the clock
/// the crate reads, so nothing more is stated of an `Err`. The crate reads the clock
/// itself and panics when it reads before the epoch (and, with overflow
/// checks, in its first minute); `verify` reads it first.
#[verifier::external_body]
fn decode_claims(token: &str, secret: &str) -> (res: Result<Vec<(String, ClaimValue)>, String>)
    ensures
        res matches Ok(list) ==> forall|sub: Seq<char>, exp: int, iat: int, user_id: i32, role: Seq<char>|
            i64::MIN <= exp <= i64::MAX && i64::MIN <= iat <= i64::MAX
                && #[trigger] hs256_token(sub, exp, iat, user_id, role, secret@) == token@
                ==> entries_view(list@) == signed_entries(sub, exp, iat, user_id, role),
        forall|sub: Seq<char>, exp: int, iat: int, user_id: i32, role: Seq<char>|
            0 <= exp <= i64::MAX && i64::MIN <= iat <= i64::MAX
                && #[trigger] hs256_token(sub, exp, iat, user_id, role, secret@) == token@
                ==> (res matches Err(m) ==> m@ == expired_signature_text()),
{
    let key = DecodingKey::from_secret(secret.as_bytes());
    let decoded = jsonwebtoken::decode::<BTreeMap<String, Value>>(token, &key, &Validation::default());
    decoded.map_err(|e| e.to_string()).map(|data| {
        data.claims.into_iter().map(|(name, value)| match value {
            Value::String(s) => (name, ClaimValue::Text(s)),
            Value::Number(n) => (name, ClaimValue::Number(n.as_i64())),
            _ => (name, ClaimValue::Other),
        }).collect()
    })
}

/// The first value under `key`.
pub open spec fn lookup(entries: Seq<(Seq<char>, ClaimValueView)>, key: Seq<char>) -> Option<ClaimValueView>
    decreases entries.len(),
{
    if entries.len() == 0 {
        None
    } else if entries[0].0 == key {
        Some(entries[0].1)
    } else {
        lookup(entries.drop_first(), key)
    }
}

/// The fields of [`Claims`] in abstract form.
pub struct ClaimFields {
    pub sub: Seq<char>,
    pub exp: int,
    pub iat: int,
    pub user_id: int,
    pub role: Seq<char>,
}

/// The claims a token's values make: `sub` and `role` texts, `exp`, `iat`
/// and a `user_id` that fits an `i32` as integers; `None` when one is
/// missing or of another kind.
pub open spec fn claim_fields(e: Seq<(Seq<char>, ClaimValueView)>) -> Option<ClaimFields> {
    match (lookup(e, "sub"@), lookup(e, "exp"@), lookup(e, "iat"@), lookup(e, "user_id"@), lookup(e, "role"@)) {
        (
            Some(ClaimValueView::Text(sub)),
            Some(ClaimValueView::Number(Some(exp))),
            Some(ClaimValueView::Number(Some(iat))),
            Some(ClaimValueView::Number(Some(user_id))),
            Some(ClaimValueView::Text(role)),
        ) => if i32::MIN <= user_id <= i32::MAX {
            Some(ClaimFields { sub, exp, iat, user_id, role })
        } else {
            None
        },
        _ => None,
    }
}

/// The text of the failure when a token's claims do not make [`Claims`].
pub open spec fn malformed_claims_detail() -> Seq<char> {
    "the token's claims are not the expected claims"@
}

fn find_claim(entries: &Vec<(String, ClaimValue)>, key: &str) -> (res: Option<usize>)
    ensures
        match res {
            Some(i) => i < entries@.len() && lookup(entries_view(entries@), key@) == Some(entries@[i as int].1@),
            None => lookup(entries_view(entries@), key@) is None,
        },
{
    let ghost v = entries_view(entries@);
    let n = entries.len();
    let mut i: usize = 0;
    assert(v.skip(0) =~= v);
    while i < n
        invariant
            n == entries@.len(),
            v == entries_view(entries@),
            i <= n,
            lookup(v, key@) == lookup(v.skip(i as int), key@),
        decreases n - i,
    {
        let ghost rest = v.skip(i as int);
        assert(rest[0] == v[i as int]);
        if str_equal(entries[i].0.as_str(), key) {
            return Some(i);
        }
        assert(rest.drop_first() =~= v.skip(i + 1));
        i = i + 1;
    }
    assert(v.skip(n as int).len() == 0);
    None
}

fn malformed_claims() -> (res: Result<Claims, Error>)
    ensures
        res matches Err(Error::JwtError(m)) && m@ == malformed_claims_detail(),
{
    Err(Error::JwtError(String::from_str("the token's claims are not the expected claims")))
}

/// The claims of a decoded token: each field read from its value, the
/// failure when one is missing or of another kind.
pub fn claims_from_entries(entries: Vec<(String, ClaimValue)>) -> (res: Result<Claims, Error>)
    ensures
        match claim_fields(entries_view(entries@)) {
            Some(f) => res matches Ok(c) && c.sub@ == f.sub && c.exp == f.exp && c.iat == f.iat
                && c.user_id == f.user_id && c.role@ == f.role,
            None => res matches Err(Error::JwtError(m)) && m@ == malformed_claims_detail(),
        },
{
    let sub = match find_claim(&entries, "sub") {
        Some(i) => match &entries[i].1 {
            ClaimValue::Text(s) => s.clone(),
            _ => return malformed_claims(),
        },
        None => return malformed_claims(),
    };
    let exp = match find_claim(&entries, "exp") {
        Some(i) => match &entries[i].1 {
            ClaimValue::Number(Some(x)) => *x,
            _ => return malformed_claims(),
        },
        None => return malformed_claims(),
    };
    let iat = match find_claim(&entries, "iat") {
        Some(i) => match &entries[i].1 {
            ClaimValue::Number(Some(x)) => *x,
            _ => return malformed_claims(),
        },
        None => return malformed_claims(),
    };
    let user_id = match find_claim(&entries, "user_id") {
        Some(i) => match &entries[i].1 {
            ClaimValue::Number(Some(x)) => *x,
            _ => return malformed_claims(),
        },
        None => return malformed_claims(),
    };
    let role = match find_claim(&entries, "role") {
        Some(i) => match &entries[i].1 {
            ClaimValue::Text(s) => s.clone(),
            _ => return malformed_claims(),
        },
        None => return malformed_claims(),
    };
    if user_id < -2147483648 || user_id > 2147483647 {
        return malformed_claims();
    }
    Ok(Claims { sub, exp, iat, user_id: user_id as i32, role })
}

/// The claims a token made from given values gives back are those values.
pub proof fn lemma_signed_entries_give_claims(sub: Seq<char>, exp: int, iat: int, user_id: i32, role: Seq<char>)
    ensures
        claim_fields(signed_entries(sub, exp, iat, user_id, role)) == Some(
            ClaimFields { sub, exp, iat, user_id: user_id as int, role },
        ),
{
    reveal_strlit("exp");
    reveal_strlit("iat");
    reveal_strlit("role");
    reveal_strlit("sub");
    reveal_strlit("user_id");
    let e = signed_entries(sub, exp, iat, user_id, role);
    assert("exp"@ != "sub"@ && "iat"@ != "sub"@ && "exp"@ != "iat"@) by {
        assert("exp"@[0] != "sub"@[0] && "iat"@[0] != "sub"@[0] && "exp"@[0] != "iat"@[0]);
    }
    assert("role"@ != "sub"@ && "role"@ != "user_id"@ && "role"@ != "exp"@ && "role"@ != "iat"@) by {
        assert("role"@.len() != "sub"@.len() && "role"@.len() != "user_id"@.len());
        assert("role"@[0] != "exp"@[0] && "role"@[0] != "iat"@[0]);
    }
    assert("user_id"@ != "sub"@ && "user_id"@ != "exp"@ && "user_id"@ != "iat"@) by {
        assert("user_id"@.len() != "sub"@.len() && "user_id"@.len() != "exp"@.len() && "user_id"@.len() != "iat"@.len());
    }
    reveal_with_fuel(lookup, 6);
    assert(e.drop_first() =~= seq![e[1], e[2], e[3], e[4]]);
    assert(e.drop_first().drop_first() =~= seq![e[2], e[3], e[4]]);
    assert(e.drop_first().drop_first().drop_first() =~= seq![e[3], e[4]]);
    assert(e.drop_first().drop_first().drop_first().drop_first() =~= seq![e[4]]);
}

/// Checks a token signed with `secret` (its signature and expiry) and reads
/// its claims. A token that [`sign`] or [`sign_at`] made with the same
/// secret, once accepted, gives back exactly the claims it was signed with.
/// Failures are the decoder's (a bad signature, an expired or malformed
/// token), claims of another shape, or a clock that reads before the epoch's
/// first minute.
pub fn verify(token: &str, secret: &str) -> (res: Result<Claims, Error>)
    ensures
        res matches Err(e) ==> (e is JwtError || e is ClockError),
        res matches Ok(c) ==> forall|sub: Seq<char>, exp: int, iat: int, user_id: i32, role: Seq<char>|
            i64::MIN <= exp <= i64::MAX && i64::MIN <= iat <= i64::MAX
                && #[trigger] hs256_token(sub, exp, iat, user_id, role, secret@) == token@
                ==> c.sub@ == sub && c.exp == exp && c.iat == iat && c.user_id == user_id && c.role@ == role,
        forall|sub: Seq<char>, exp: int, iat: int, user_id: i32, role: Seq<char>|
            0 <= exp <= i64::MAX && i64::MIN <= iat <= i64::MAX
                && #[trigger] hs256_token(sub, exp, iat, user_id, role, secret@) == token@
                ==> signed_token_outcome(res, sub, exp, iat, user_id, role),
{
    match time_since_epoch() {
        Some((secs, _)) => {
            if secs < 60 {
                return Err(Error::ClockError);
            }
        },
        None => {
            return Err(Error::ClockError);
        },
    }
    match decode_claims(token, secret) {
        Err(message) => {
            let res = Err(Error::JwtError(message));
            proof {
                assert forall|sub: Seq<char>, exp: int, iat: int, user_id: i32, role: Seq<char>|
                    0 <= exp <= i64::MAX && i64::MIN <= iat <= i64::MAX
                        && #[trigger] hs256_token(sub, exp, iat, user_id, role, secret@) == token@
                    implies signed_token_outcome(res, sub, exp, iat, user_id, role) by {
                }
            }
            res
        },
        Ok(entries) => {
            let ghost v = entries_view(entries@);
            let res = claims_from_entries(entries);
            proof {
                assert forall|sub: Seq<char>, exp: int, iat: int, user_id: i32, role: Seq<char>|
                    i64::MIN <= exp <= i64::MAX && i64::MIN <= iat <= i64::MAX
                        && #[trigger] hs256_token(sub, exp, iat, user_id, role, secret@) == token@
                    implies (res matches Ok(c) ==> c.sub@ == sub && c.exp == exp && c.iat == iat
                        && c.user_id == user_id && c.role@ == role) by {
                    lemma_signed_entries_give_claims(sub, exp, iat, user_id, role);
                }
                assert forall|sub: Seq<char>, exp: int, iat: int, user_id: i32, role: Seq<char>|
                    0 <= exp <= i64::MAX && i64::MIN <= iat <= i64::MAX
                        && #[trigger] hs256_token(sub, exp, iat, user_id, role, secret@) == token@
                    implies signed_token_outcome(res, sub, exp, iat, user_id, role) by {
                    lemma_signed_entries_give_claims(sub, exp, iat, user_id, role);
                }
            }
            res
        },
    }
}

/// Why a request's credentials are refused.
#[derive(Debug, Clone, Copy, PartialEq, Eq)]
pub enum AuthError {
    WrongCredentials,
    MissingCredentials,
    TokenCreation,
    InvalidToken,
}

/// The HTTP status a refusal is answered with.
pub open spec fn auth_error_status(e: AuthError) -> u16 {
    match e {
        AuthError::WrongCredentials => 401,
        AuthError::MissingCredentials => 400,
        AuthError::TokenCreation => 500,
        AuthError::InvalidToken => 400,
    }
}

/// The `error` text of a refusal's answer.
pub open spec fn auth_error_message(e: AuthError) -> Seq<char> {
    match e {
        AuthError::WrongCredentials => "Wrong credentials"@,
        AuthError::MissingCredentials => "Missing credentials"@,
        AuthError::TokenCreation => "Token creation error"@,
        AuthError::InvalidToken => "Invalid token"@,
    }
}

impl AuthError {
    /// The answer to a refusal: an HTTP status and the text of the body's
    /// `error` field.
    pub fn into_response(self) -> (res: (u16, String))
        ensures
            res.0 == auth_error_status(self),
            res.1@ == auth_error_message(self),
    {
        match self {
            AuthError::WrongCredentials => (401, String::from_str("Wrong credentials")),
            AuthError::MissingCredentials => (400, String::from_str("Missing credentials")),
            AuthError::TokenCreation => (500, String::from_str("Token creation error")),
            AuthError::InvalidToken => (400, String::from_str("Invalid token")),
        }
    }
}

/// The claims of a request with a bearer token, given what [`verify`] made
/// of it: refused as an invalid token when the header is missing or the
/// token is not accepted.
pub fn claims_from_bearer(decoded: Option<Result<Claims, Error>>) -> (res: Result<Claims, AuthError>)
    ensures
        match decoded {
            Some(Ok(c)) => res == Ok::<Claims, AuthError>(c),
            _ => res == Err::<Claims, AuthError>(AuthError::InvalidToken),
        },
{
    match decoded {
        Some(Ok(c)) => Ok(c),
        _ => Err(AuthError::InvalidToken),
    }
}

/// What the auth service puts into a token.
#[derive(Debug, Clone)]
pub struct TokenData {
    pub email: String,
    pub user_id: String,
    pub role: String,
    pub token: Option<String>,
}

/// The HS256 token that the `jwt` crate's `sign_with_key` makes with an
/// HMAC-SHA256 key from a `BTreeMap` of the given key-value pairs (so the
/// keys in sorted order, a later pair winning over an earlier one with the
/// same key).
pub uninterp spec fn hmac_map_token(claims: Seq<(Seq<char>, Seq<char>)>, secret: Seq<char>) -> Seq<char>;

/// The abstract form of a list of text claims.
pub open spec fn claim_list_view(claims: Seq<(String, String)>) -> Seq<(Seq<char>, Seq<char>)> {
    claims.map_values(|c: (String, String)| (c.0@, c.1@))
}

/// Calls `jwt::SignWithKey::sign_with_key` on a `BTreeMap` of the claims
/// with `Hmac::<Sha256>::new_from_slice`. Trusted: the result is
/// `hmac_map_token` of the claims and the secret. The sources of `hmac` and
/// `jwt` show no failure for any key or for a map of strings, so both calls
/// are unwrapped.
#[verifier::external_body]
fn sign_claim_list(claims: &Vec<(String, String)>, secret: &str) -> (token: String)
    ensures
        token@ == hmac_map_token(claim_list_view(claims@), secret@),
{
    let key: hmac::Hmac<sha2::Sha256> = hmac::Hmac::new_from_slice(secret.as_bytes()).unwrap();
    let map: std::collections::BTreeMap<&str, &str> =
        claims.iter().map(|c| (c.0.as_str(), c.1.as_str())).collect();
    map.sign_with_key(&key).unwrap()
}

/// The claims of a service token: the e-mail under `sub`, then the user id
/// and the role.
pub open spec fn service_claim_list(email: Seq<char>, user_id: Seq<char>, role: Seq<char>) -> Seq<(Seq<char>, Seq<char>)> {
    seq![("sub"@, email), ("user_id"@, user_id), ("role"@, role)]
}

/// The claims the token data is signed with; its `token` is left out.
pub fn service_claims(token_data: &TokenData) -> (claims: Vec<(String, String)>)
    ensures
        claim_list_view(claims@) == service_claim_list(token_data.email@, token_data.user_id@, token_data.role@),
{
    let claims: Vec<(String, String)> = vec![
        (String::from_str("sub"), token_data.email.clone()),
        (String::from_str("user_id"), token_data.user_id.clone()),
        (String::from_str("role"), token_data.role.clone()),
    ];
    assert(claim_list_view(claims@) =~= service_claim_list(token_data.email@, token_data.user_id@, token_data.role@));
    claims
}

/// Signs the token data with the service's secret.
pub fn generate_jwt(token_data: TokenData, secret: &str) -> (token: String)
    ensures
        token@ == hmac_map_token(
            service_claim_list(token_data.email@, token_data.user_id@, token_data.role@),
            secret@,
        ),
{
    let claims = service_claims(&token_data);
    sign_claim_list(&claims, secret)
}

} // verus!
