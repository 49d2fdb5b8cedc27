//! The access-token wrapper: the token fields of the user-token exchange
//! plus the absolute expiry timestamps derived at acquisition time, and
//! the expiry gate the retrieval pipeline consults.
use vstd::prelude::*;

use vstd::string::StringExecFns;

use crate::jsonio;

verus! {

/// Fields of the user-token exchange response.
#[derive(Debug, PartialEq, Eq)]
pub struct OAuth2Token {
    pub scope: String,
    pub jti: String,
    pub access_token: String,
    pub token_type: String,
    pub refresh_token: String,
    pub expires_in: u64,
    pub refresh_token_expires_in: u64,
}

impl Default for OAuth2Token {
    /// An empty token: every text field empty, every lifetime zero.
    fn default() -> (r: OAuth2Token)
        ensures
            r.scope@ =~= Seq::<char>::empty(),
            r.jti@ =~= Seq::<char>::empty(),
            r.access_token@ =~= Seq::<char>::empty(),
            r.token_type@ =~= Seq::<char>::empty(),
            r.refresh_token@ =~= Seq::<char>::empty(),
            r.expires_in == 0,
            r.refresh_token_expires_in == 0,
    {
        OAuth2Token {
            scope: String::new(),
            jti: String::new(),
            access_token: String::new(),
            token_type: String::new(),
            refresh_token: String::new(),
            expires_in: 0,
            refresh_token_expires_in: 0,
        }
    }
}

/// An access token together with the absolute unix times at which it and
/// its refresh token expire.
#[derive(Debug, PartialEq, Eq)]
pub struct OAuth2TokenWrapper {
    pub oauth2_token: OAuth2Token,
    pub expires_at: u64,
    pub refresh_token_expires_at: u64,
}

/// Is the wrapped access token expired at time `now`?
pub open spec fn token_expired(w: OAuth2TokenWrapper, now: u64) -> bool {
    w.expires_at < now
}

impl Default for OAuth2TokenWrapper {
    /// An empty wrapper around an empty token, expired at any positive
    /// time.
    fn default() -> (r: OAuth2TokenWrapper)
        ensures
            r.oauth2_token.access_token@ =~= Seq::<char>::empty(),
            r.expires_at == 0,
            r.refresh_token_expires_at == 0,
    {
        OAuth2TokenWrapper {
            oauth2_token: Default::default(),
            expires_at: 0,
            refresh_token_expires_at: 0,
        }
    }
}

impl OAuth2TokenWrapper {
    /// Recomputes both absolute expiry times from `now` and the relative
    /// lifetimes currently stored in the token. This is the only
    /// operation that can make an expired wrapper fresh again.
    pub fn update(&mut self, now: u64)
        requires
            now + old(self).oauth2_token.expires_in <= u64::MAX,
            now + old(self).oauth2_token.refresh_token_expires_in <= u64::MAX,
        ensures
            final(self).oauth2_token == old(self).oauth2_token,
            final(self).expires_at == now + old(self).oauth2_token.expires_in,
            final(self).refresh_token_expires_at == now + old(
                self,
            ).oauth2_token.refresh_token_expires_in,
    {
        self.expires_at = now + self.oauth2_token.expires_in;
        self.refresh_token_expires_at = now + self.oauth2_token.refresh_token_expires_in;
    }

    /// Is the access token expired at time `now`? The sole gate the
    /// retrieval pipeline consults before sending a request.
    pub fn is_expired(&self, now: u64) -> (r: bool)
        ensures
            r == token_expired(*self, now),
    {
        self.expires_at < now
    }

    /// Is the refresh token expired at time `now`?
    pub fn refresh_expired(&self, now: u64) -> (r: bool)
        ensures
            r == (self.refresh_token_expires_at < now),
    {
        self.refresh_token_expires_at < now
    }

    /// The token as an authorization header value: type, a space, then
    /// the access token.
    pub fn to_string(&self) -> (r: String)
        ensures
            r@ == self.oauth2_token.token_type@ + " "@ + self.oauth2_token.access_token@,
    {
        let mut r = self.oauth2_token.token_type.clone();
        r.append(" ");
        r.append(self.oauth2_token.access_token.as_str());
        r
    }
}

/// Once a wrapper is expired it stays expired at every later time: only
/// a successful exchange, through `update`, moves `expires_at` forward.
pub proof fn lemma_expiry_monotonic(w: OAuth2TokenWrapper, t1: u64, t2: u64)
    requires
        t1 <= t2,
        token_expired(w, t1),
    ensures
        token_expired(w, t2),
{
}

/// Does `body` parse as a complete user-token exchange response whose
/// absolute expiry times fit in a u64 when computed from `now`?
pub open spec fn oauth2_response_ok(body: Seq<char>, now: u64) -> bool {
    &&& jsonio::json_field_str(body, "scope"@) is Some
    &&& jsonio::json_field_str(body, "jti"@) is Some
    &&& jsonio::json_field_str(body, "access_token"@) is Some
    &&& jsonio::json_field_str(body, "token_type"@) is Some
    &&& jsonio::json_field_str(body, "refresh_token"@) is Some
    &&& jsonio::json_field_u64(body, "expires_in"@) matches Some(ei) && now + ei <= u64::MAX
    &&& jsonio::json_field_u64(body, "refresh_token_expires_in"@) matches Some(ri) && now + ri
        <= u64::MAX
}

/// Parses the JSON body of the user-token exchange into a fresh wrapper,
/// computing both absolute expiry times from `now`.
///
/// Returns None exactly when a field is missing or not of its expected
/// shape, or an expiry time would not fit in a u64.
pub fn parse_oauth2_response(body: &str, now: u64) -> (r: Option<OAuth2TokenWrapper>)
    ensures
        r is Some == oauth2_response_ok(body@, now),
        match r {
            Some(w) => {
                &&& jsonio::json_field_str(body@, "scope"@) == Some(w.oauth2_token.scope@)
                &&& jsonio::json_field_str(body@, "jti"@) == Some(w.oauth2_token.jti@)
                &&& jsonio::json_field_str(body@, "access_token"@) == Some(
                    w.oauth2_token.access_token@,
                )
                &&& jsonio::json_field_str(body@, "token_type"@) == Some(
                    w.oauth2_token.token_type@,
                )
                &&& jsonio::json_field_str(body@, "refresh_token"@) == Some(
                    w.oauth2_token.refresh_token@,
                )
                &&& jsonio::json_field_u64(body@, "expires_in"@) == Some(
                    w.oauth2_token.expires_in,
                )
                &&& jsonio::json_field_u64(body@, "refresh_token_expires_in"@) == Some(
                    w.oauth2_token.refresh_token_expires_in,
                )
                &&& w.expires_at == now + w.oauth2_token.expires_in
                &&& w.refresh_token_expires_at == now + w.oauth2_token.refresh_token_expires_in
            },
            None => true,
        },
{
    let scope = match jsonio::json_field_string(body, "scope") {
        Some(v) => v,
        None => {
            return None;
        },
    };
    let jti = match jsonio::json_field_string(body, "jti") {
        Some(v) => v,
        None => {
            return None;
        },
    };
    let access_token = match jsonio::json_field_string(body, "access_token") {
        Some(v) => v,
        None => {
            return None;
        },
    };
    let token_type = match jsonio::json_field_string(body, "token_type") {
        Some(v) => v,
        None => {
            return None;
        },
    };
    let refresh_token = match jsonio::json_field_string(body, "refresh_token") {
        Some(v) => v,
        None => {
            return None;
        },
    };
    let expires_in = match jsonio::json_field_uint(body, "expires_in") {
        Some(v) => v,
        None => {
            return None;
        },
    };
    let refresh_token_expires_in = match jsonio::json_field_uint(body, "refresh_token_expires_in") {
        Some(v) => v,
        None => {
            return None;
        },
    };
    let expires_at = match now.checked_add(expires_in) {
        Some(v) => v,
        None => {
            return None;
        },
    };
    let refresh_token_expires_at = match now.checked_add(refresh_token_expires_in) {
        Some(v) => v,
        None => {
            return None;
        },
    };
    Some(
        OAuth2TokenWrapper {
            oauth2_token: OAuth2Token {
                scope,
                jti,
                access_token,
                token_type,
                refresh_token,
                expires_in,
                refresh_token_expires_in,
            },
            expires_at,
            refresh_token_expires_at,
        },
    )
}

} // verus!
