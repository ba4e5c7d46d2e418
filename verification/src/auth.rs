//! Bearer-token authentication: which header carries a token, how the token's
//! claims are read and checked (with `jsonwebtoken`), and what a rejected
//! request is answered.
use vstd::prelude::*;
use vstd::string::*;
use crate::json::{from_serde, json_get, json_get_str, json_string, push_json_string, JsonValue};
use crate::text::{chars_of, copy_str, decimal_value, is_decimal, parse_decimal_usize, starts_with, starts_with_exec, string_of, trim, trim_vec, sub_vec};

verus! {

broadcast use vstd::string::group_string_axioms;

/// The claims a valid token carries.
#[derive(Debug, Clone)]
pub struct Claims {
    pub sub: String,
    pub exp: usize,
}

/// Authenticates requests against a shared secret.
#[derive(Clone)]
pub struct JwtAuthLayer {
    secret: String,
}

/// Why a token was refused.
#[derive(Debug, Clone, Copy, PartialEq, Eq, Structural)]
pub enum TokenFailure {
    /// The token's `exp` is past.
    Expired,
    /// Anything else: bad signature, bad format, bad claims.
    Invalid,
}

/// The token in an `Authorization` header value: the text after `Bearer `,
/// trimmed; there is none when the prefix is missing or nothing follows it.
pub open spec fn bearer_token(header: Option<Seq<char>>) -> Option<Seq<char>> {
    match header {
        Some(h) => if starts_with(h, "Bearer "@) {
            let t = trim(h.subrange("Bearer "@.len() as int, h.len() as int));
            if t.len() > 0 {
                Some(t)
            } else {
                None
            }
        } else {
            None
        },
        None => None,
    }
}

/// The message of a rejection: a missing token, or why the token was refused.
pub open spec fn rejection_message(failure: Option<TokenFailure>) -> Seq<char> {
    match failure {
        None => "Missing or invalid Authorization header"@,
        Some(TokenFailure::Expired) => "Token expired"@,
        Some(TokenFailure::Invalid) => "Invalid token"@,
    }
}

/// The claims of `token` when its HS256 signature under `secret` checks out
/// and its claims part reads as JSON (jsonwebtoken's `decode` with no time,
/// audience or required-claim checks).
pub uninterp spec fn jwt_claims(token: Seq<char>, secret: Seq<char>) -> Option<JsonValue>;

/// Reads the claims of `token` (`jsonwebtoken::decode` into a
/// `serde_json::Value`, with `exp`, `aud` and required-claim checks switched
/// off, so that nothing depends on the clock): the HS256 signature under
/// `secret` must check out and the claims must be JSON.
#[verifier::external_body]
fn jwt_read_claims(token: &str, secret: &str) -> (r: Option<JsonValue>)
    ensures
        r == jwt_claims(token@, secret@),
{
    let mut validation = jsonwebtoken::Validation::default();
    validation.validate_exp = false;
    validation.validate_aud = false;
    validation.required_spec_claims.clear();
    let key = jsonwebtoken::DecodingKey::from_secret(secret.as_bytes());
    jsonwebtoken::decode::<serde_json::Value>(token, &key, &validation).ok().map(|d| from_serde(d.claims))
}

/// Checks `token` as a request's token is checked (`jsonwebtoken::decode`
/// with the default validation: HS256 under `secret`, an `exp` claim, not past
/// with a minute's leeway, no unexpected audience): an expired token is told
/// apart from any other failure. The answer rests on the clock, so nothing is
/// promised of it.
#[verifier::external_body]
fn jwt_validate(token: &str, secret: &str) -> (r: Result<(), TokenFailure>)
{
    let key = jsonwebtoken::DecodingKey::from_secret(secret.as_bytes());
    match jsonwebtoken::decode::<serde_json::Value>(token, &key, &jsonwebtoken::Validation::default()) {
        Ok(_) => Ok(()),
        Err(e) => match e.kind() {
            jsonwebtoken::errors::ErrorKind::ExpiredSignature => Err(TokenFailure::Expired),
            _ => Err(TokenFailure::Invalid),
        },
    }
}

/// The claims a token's JSON claims hold, as they are read into `Claims`: a
/// string `sub` and an `exp` that is a whole number fitting a `usize`.
pub open spec fn token_claims(doc: JsonValue) -> Option<(Seq<char>, nat)> {
    match (json_get_str(doc, "sub"@), json_get(doc, "exp"@)) {
        (Some(sub), Some(JsonValue::Number(t))) => if is_decimal(t@) && decimal_value(t@) <= usize::MAX {
            Some((sub, decimal_value(t@)))
        } else {
            None
        },
        _ => None,
    }
}

/// What a request comes to, given its bearer token (if it has one), the claims
/// read from the token, and the token's check.
pub open spec fn auth_result(
    token: Option<Seq<char>>,
    claims: Option<JsonValue>,
    checked: Result<(), TokenFailure>,
) -> Result<(Seq<char>, nat), Seq<char>> {
    match token {
        None => Err(rejection_message(None)),
        Some(_) => match claims {
            None => Err(rejection_message(Some(TokenFailure::Invalid))),
            Some(doc) => match token_claims(doc) {
                None => Err(rejection_message(Some(TokenFailure::Invalid))),
                Some(c) => match checked {
                    Ok(()) => Ok(c),
                    Err(f) => Err(rejection_message(Some(f))),
                },
            },
        },
    }
}

impl Claims {
    /// The claims `doc` holds, read as `Claims`.
    pub fn from_document(doc: &JsonValue) -> (r: Option<Claims>)
        ensures
            match token_claims(*doc) {
                Some((sub, exp)) => r matches Some(c) && c.sub@ == sub && c.exp == exp,
                None => r is None,
            },
    {
        let sub = match doc.get_str("sub") {
            Some(s) => s.clone(),
            None => return None,
        };
        let exp = match doc.get("exp") {
            Some(JsonValue::Number(t)) => match parse_decimal_usize(t.as_str()) {
                Some(n) => n,
                None => return None,
            },
            _ => return None,
        };
        Some(Claims { sub, exp })
    }
}

impl JwtAuthLayer {
    /// What a request comes to, given its token (if any), the claims read
    /// from it (if they were), and the token's check: the claims, or the
    /// rejection message.
    pub fn auth_outcome(
        token: Option<String>,
        claims: Option<JsonValue>,
        checked: Result<(), TokenFailure>,
    ) -> (r: Result<Claims, String>)
        ensures
            match auth_result(
                match token {
                    Some(t) => Some(t@),
                    None => None,
                },
                claims,
                checked,
            ) {
                Ok((sub, exp)) => r matches Ok(c) && c.sub@ == sub && c.exp == exp,
                Err(m) => r matches Err(x) && x@ == m,
            },
    {
        if token.is_none() {
            return Err(copy_str(Self::rejection_message(None)));
        }
        let c = match claims {
            Some(doc) => Claims::from_document(&doc),
            None => None,
        };
        match c {
            None => Err(copy_str(Self::rejection_message(Some(TokenFailure::Invalid)))),
            Some(c) => match checked {
                Ok(()) => Ok(c),
                Err(f) => Err(copy_str(Self::rejection_message(Some(f)))),
            },
        }
    }

    /// Authenticates a request by its `Authorization` header value: the
    /// bearer token's signature and claims are read, then the token is checked
    /// against the clock. Without a token, or with one whose signature or
    /// claims do not hold, the answer is fixed; otherwise it is the claims, or
    /// the expired or invalid rejection, as the check says.
    pub fn authenticate(&self, header: Option<&str>) -> (r: Result<Claims, String>)
        ensures
            match bearer_token(
                match header {
                    Some(h) => Some(h@),
                    None => None,
                },
            ) {
                None => r matches Err(m) && m@ == rejection_message(None),
                Some(t) => match jwt_claims(t, self.spec_secret()) {
                    Some(doc) => match token_claims(doc) {
                        Some((sub, exp)) => (r matches Ok(c) && c.sub@ == sub && c.exp == exp) || (
                        r matches Err(m) && (m@ == rejection_message(Some(TokenFailure::Expired)) || m@
                            == rejection_message(Some(TokenFailure::Invalid)))),
                        None => r matches Err(m) && m@ == rejection_message(
                            Some(TokenFailure::Invalid),
                        ),
                    },
                    None => r matches Err(m) && m@ == rejection_message(Some(TokenFailure::Invalid)),
                },
            },
    {
        let token = Self::bearer_token(header);
        let (claims, checked) = match &token {
            Some(t) => {
                let claims = jwt_read_claims(t.as_str(), self.secret.as_str());
                let checked = match &claims {
                    Some(doc) => match Claims::from_document(doc) {
                        Some(_) => jwt_validate(t.as_str(), self.secret.as_str()),
                        None => Err(TokenFailure::Invalid),
                    },
                    None => Err(TokenFailure::Invalid),
                };
                (claims, checked)
            },
            None => (None, Err(TokenFailure::Invalid)),
        };
        Self::auth_outcome(token, claims, checked)
    }

    /// The layer for tokens signed with `secret`.
    pub fn new(secret: String) -> (l: Self)
        ensures
            l.spec_secret() == secret@,
    {
        JwtAuthLayer { secret }
    }

    /// The shared secret.
    pub closed spec fn spec_secret(&self) -> Seq<char> {
        self.secret@
    }

    /// The shared secret.
    pub fn secret(&self) -> (s: &str)
        ensures
            s@ == self.spec_secret(),
    {
        self.secret.as_str()
    }

    /// The token in an `Authorization` header value, if any.
    pub fn bearer_token(header: Option<&str>) -> (r: Option<String>)
        ensures
            match bearer_token(
                match header {
                    Some(h) => Some(h@),
                    None => None,
                },
            ) {
                Some(t) => r matches Some(x) && x@ == t,
                None => r is None,
            },
    {
        let h = match header {
            Some(h) => h,
            None => return None,
        };
        let v = chars_of(h);
        let prefix = chars_of("Bearer ");
        if !starts_with_exec(&v, &prefix) {
            return None;
        }
        let rest = sub_vec(&v, prefix.len(), v.len());
        let t = trim_vec(&rest);
        if t.len() > 0 {
            Some(string_of(&t))
        } else {
            None
        }
    }

    /// The message of a rejection.
    pub fn rejection_message(failure: Option<TokenFailure>) -> (m: &'static str)
        ensures
            m@ == rejection_message(failure),
    {
        match failure {
            None => "Missing or invalid Authorization header",
            Some(TokenFailure::Expired) => "Token expired",
            Some(TokenFailure::Invalid) => "Invalid token",
        }
    }

    /// The JSON body of a rejection: `{"error":<message>}`.
    pub fn unauthorized_body(message: &str) -> (r: String)
        ensures
            r@ == "{\"error\":"@ + json_string(message@) + "}"@,
    {
        let mut r = copy_str("{\"error\":");
        push_json_string(&mut r, message);
        r.append("}");
        r
    }
}

} // verus!
