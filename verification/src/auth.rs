//! Credentials, authentication tokens, and the manager that issues, caches,
//! refreshes and clears the current token.

use crate::clock::now_millis;
use crate::error::DatabaseError;
use crate::types::{text_of, Role, Timestamp, UserId};
use vstd::prelude::*;
use vstd::slice::slice_to_vec;

verus! {

/// A client certificate.
#[derive(Debug)]
pub struct Certificate {
    /// Certificate data in PEM format.
    pub data: Vec<u8>,
}

impl Clone for Certificate {
    fn clone(&self) -> (copy: Self)
        ensures
            copy.data@ == self.data@,
    {
        Certificate { data: slice_to_vec(self.data.as_slice()) }
    }
}

/// User credentials: a username and at least one of a password, a
/// certificate, or a token to reuse.
#[derive(Debug)]
pub struct Credentials {
    /// Username for authentication.
    pub username: String,
    /// Optional password for username/password authentication.
    pub password: Option<String>,
    /// Optional certificate for TLS authentication.
    pub certificate: Option<Certificate>,
    /// Optional pre-existing token for token reuse.
    pub token: Option<String>,
}

/// Credentials as a mathematical value.
pub struct CredentialsView {
    /// Username.
    pub username: Seq<char>,
    /// Password.
    pub password: Option<Seq<char>>,
    /// Data of the certificate.
    pub certificate: Option<Seq<u8>>,
    /// Token to reuse.
    pub token: Option<Seq<char>>,
}

impl View for Credentials {
    type V = CredentialsView;

    open spec fn view(&self) -> CredentialsView {
        CredentialsView {
            username: self.username@,
            password: text_of(self.password),
            certificate: match self.certificate {
                Some(certificate) => Some(certificate.data@),
                None => None,
            },
            token: text_of(self.token),
        }
    }
}

impl Clone for Credentials {
    fn clone(&self) -> (copy: Self)
        ensures
            copy@ == self@,
            copy.usable() == self.usable(),
    {
        Credentials {
            username: self.username.clone(),
            password: match &self.password {
                Some(password) => Some(password.clone()),
                None => None,
            },
            certificate: match &self.certificate {
                Some(certificate) => Some(certificate.clone()),
                None => None,
            },
            token: match &self.token {
                Some(token) => Some(token.clone()),
                None => None,
            },
        }
    }
}

impl Credentials {
    /// Whether the credentials name a user.
    pub open spec fn names_user(self) -> bool {
        self.username@.len() > 0
    }

    /// Whether the credentials carry a password, a certificate or a token.
    pub open spec fn has_method(self) -> bool {
        self.password is Some || self.certificate is Some || self.token is Some
    }

    /// Whether the credentials can be used to authenticate.
    pub open spec fn usable(self) -> bool {
        self.names_user() && self.has_method()
    }

    /// Creates credentials with username and password.
    pub fn new(username: &str, password: &str) -> (credentials: Self)
        ensures
            credentials.username@ == username@,
            credentials.password matches Some(p) && p@ == password@,
            credentials.certificate is None,
            credentials.token is None,
    {
        Credentials {
            username: String::from_str(username),
            password: Some(String::from_str(password)),
            certificate: None,
            token: None,
        }
    }

    /// Creates credentials with a username only.
    pub fn with_username(username: &str) -> (credentials: Self)
        ensures
            credentials.username@ == username@,
            credentials.password is None,
            credentials.certificate is None,
            credentials.token is None,
    {
        Credentials {
            username: String::from_str(username),
            password: None,
            certificate: None,
            token: None,
        }
    }

    /// Sets the password.
    pub fn with_password(self, password: &str) -> (credentials: Self)
        ensures
            credentials.username == self.username,
            credentials.password matches Some(p) && p@ == password@,
            credentials.certificate == self.certificate,
            credentials.token == self.token,
    {
        let mut credentials = self;
        credentials.password = Some(String::from_str(password));
        credentials
    }

    /// Sets the certificate.
    pub fn with_certificate(self, certificate: Certificate) -> (credentials: Self)
        ensures
            credentials.username == self.username,
            credentials.password == self.password,
            credentials.certificate == Some(certificate),
            credentials.token == self.token,
    {
        let mut credentials = self;
        credentials.certificate = Some(certificate);
        credentials
    }

    /// Sets the token.
    pub fn with_token(self, token: &str) -> (credentials: Self)
        ensures
            credentials.username == self.username,
            credentials.password == self.password,
            credentials.certificate == self.certificate,
            credentials.token matches Some(t) && t@ == token@,
    {
        let mut credentials = self;
        credentials.token = Some(String::from_str(token));
        credentials
    }

    /// Whether `result` is what validating these credentials returns.
    pub open spec fn validated_as(self, result: Result<(), DatabaseError>) -> bool {
        if !self.names_user() {
            result matches Err(DatabaseError::AuthenticationFailed { reason }) && reason@
                == "Username is required"@
        } else if !self.has_method() {
            result matches Err(DatabaseError::AuthenticationFailed { reason }) && reason@
                == "At least one authentication method (password, certificate, or token) is required"@
        } else {
            result is Ok
        }
    }

    /// Checks that the credentials name a user and carry at least one
    /// authentication method.
    pub fn validate(&self) -> (result: Result<(), DatabaseError>)
        ensures
            self.validated_as(result),
    {
        if self.username.as_str().is_empty() {
            return Err(
                DatabaseError::AuthenticationFailed {
                    reason: String::from_str("Username is required"),
                },
            );
        }
        if self.password.is_none() && self.certificate.is_none() && self.token.is_none() {
            return Err(
                DatabaseError::AuthenticationFailed {
                    reason: String::from_str(
                        "At least one authentication method (password, certificate, or token) is required",
                    ),
                },
            );
        }
        Ok(())
    }
}

/// An authentication token as a mathematical value.
pub struct AuthTokenView {
    /// User identifier.
    pub user_id: UserId,
    /// Roles of the user.
    pub roles: Seq<Role>,
    /// Instant at which the token expires.
    pub expiration: Timestamp,
    /// Signature of the token.
    pub signature: Seq<u8>,
}

impl AuthTokenView {
    /// A token is valid while the time is strictly before its expiration;
    /// from the expiration on it has expired.
    pub open spec fn expired_at(self, now: Timestamp) -> bool {
        now >= self.expiration
    }

    /// Milliseconds left until expiration: zero from the expiration on, and
    /// never more than the largest `i64`.
    pub open spec fn remaining_at(self, now: Timestamp) -> int {
        if now >= self.expiration {
            0
        } else if self.expiration - now > i64::MAX {
            i64::MAX as int
        } else {
            self.expiration - now
        }
    }

    /// Whether the token expires within `duration_ms` milliseconds from
    /// `now`.
    pub open spec fn expires_within_at(self, now: Timestamp, duration_ms: i64) -> bool {
        self.remaining_at(now) <= duration_ms
    }
}

/// Authentication token: user identity, roles, expiration and signature.
#[derive(Debug)]
pub struct AuthToken {
    /// User identifier.
    pub user_id: UserId,
    /// User roles.
    pub roles: Vec<Role>,
    /// Expiration, in milliseconds since the Unix epoch.
    pub expiration: Timestamp,
    /// Cryptographic signature for validation.
    pub signature: Vec<u8>,
}

impl View for AuthToken {
    type V = AuthTokenView;

    open spec fn view(&self) -> AuthTokenView {
        AuthTokenView {
            user_id: self.user_id,
            roles: self.roles@,
            expiration: self.expiration,
            signature: self.signature@,
        }
    }
}

impl Clone for AuthToken {
    fn clone(&self) -> (copy: Self)
        ensures
            copy@ == self@,
    {
        AuthToken {
            user_id: self.user_id,
            roles: slice_to_vec(self.roles.as_slice()),
            expiration: self.expiration,
            signature: slice_to_vec(self.signature.as_slice()),
        }
    }
}

impl AuthToken {
    /// Creates a token.
    pub fn new(user_id: UserId, roles: Vec<Role>, expiration: Timestamp, signature: Vec<u8>) -> (token:
        Self)
        ensures
            token.user_id == user_id,
            token.roles == roles,
            token.expiration == expiration,
            token.signature == signature,
    {
        AuthToken { user_id, roles, expiration, signature }
    }

    /// Tells whether the token has expired at `now`.
    pub fn is_expired_at(&self, now: Timestamp) -> (expired: bool)
        ensures
            expired == self@.expired_at(now),
    {
        now >= self.expiration
    }

    /// Milliseconds from `now` until the token expires; zero if it has.
    pub fn time_until_expiration_at(&self, now: Timestamp) -> (remaining: i64)
        ensures
            remaining == self@.remaining_at(now),
    {
        if now >= self.expiration {
            0
        } else if now < 0 && self.expiration > i64::MAX + now {
            i64::MAX
        } else {
            self.expiration - now
        }
    }

    /// Tells whether the token expires within `duration_ms` milliseconds
    /// from `now`.
    pub fn expires_within_at(&self, now: Timestamp, duration_ms: i64) -> (soon: bool)
        ensures
            soon == self@.expires_within_at(now, duration_ms),
    {
        self.time_until_expiration_at(now) <= duration_ms
    }

    /// Tells whether the token has expired by the clock.
    pub fn is_expired(&self) -> (expired: bool)
        ensures
            exists|now: Timestamp| expired == #[trigger] self@.expired_at(now),
    {
        let now = now_millis();
        let expired = self.is_expired_at(now);
        assert(expired == self@.expired_at(now));
        expired
    }

    /// Milliseconds until the token expires by the clock; zero if it has.
    pub fn time_until_expiration(&self) -> (remaining: i64)
        ensures
            exists|now: Timestamp| remaining == #[trigger] self@.remaining_at(now),
    {
        let now = now_millis();
        let remaining = self.time_until_expiration_at(now);
        assert(remaining == self@.remaining_at(now));
        remaining
    }

    /// Tells whether the token expires within `duration_ms` milliseconds by
    /// the clock.
    pub fn expires_within(&self, duration_ms: i64) -> (soon: bool)
        ensures
            exists|now: Timestamp| soon == #[trigger] self@.expires_within_at(now, duration_ms),
    {
        let now = now_millis();
        let soon = self.expires_within_at(now, duration_ms);
        assert(soon == self@.expires_within_at(now, duration_ms));
        soon
    }
}

/// The expiration of a token issued at `now` for `ttl_ms` milliseconds: the
/// sum, or the largest timestamp where the sum is beyond it.
pub open spec fn expiration_after(now: Timestamp, ttl_ms: u64) -> Timestamp {
    if now + ttl_ms > i64::MAX {
        i64::MAX
    } else {
        (now + ttl_ms) as i64
    }
}

/// The signature that issued tokens carry: 32 zero bytes.
pub open spec fn issued_signature() -> Seq<u8> {
    Seq::new(32, |i: int| 0u8)
}

fn make_signature() -> (signature: Vec<u8>)
    ensures
        signature@ == issued_signature(),
{
    let mut signature: Vec<u8> = Vec::new();
    let mut count: usize = 0;
    while count < 32
        invariant
            count <= 32,
            signature@.len() == count,
            forall|i: int| 0 <= i < count ==> signature@[i] == 0u8,
        decreases 32 - count,
    {
        signature.push(0u8);
        count = count + 1;
    }
    assert(signature@ =~= issued_signature());
    signature
}

fn expiration_from(now: Timestamp, ttl_ms: u64) -> (expiration: Timestamp)
    ensures
        expiration == expiration_after(now, ttl_ms),
{
    if ttl_ms > i64::MAX as u64 {
        if now < 0 && ttl_ms - (i64::MAX as u64) <= (-(now + 1)) as u64 + 1 {
            let beyond: u64 = ttl_ms - (i64::MAX as u64);
            let below: u64 = (-(now + 1)) as u64 + 1;
            i64::MAX - ((below - beyond) as i64)
        } else {
            i64::MAX
        }
    } else {
        let ttl: i64 = ttl_ms as i64;
        if now > i64::MAX - ttl {
            i64::MAX
        } else {
            now + ttl
        }
    }
}

/// Holds the credentials and at most one current token, and issues,
/// refreshes and clears it.
#[derive(Debug)]
pub struct AuthenticationManager {
    credentials: Credentials,
    token: Option<AuthToken>,
    token_ttl_ms: u64,
}

impl AuthenticationManager {
    /// The credentials that the manager authenticates with.
    pub closed spec fn credentials(self) -> Credentials {
        self.credentials
    }

    /// The token that the manager holds, if any.
    pub closed spec fn token(self) -> Option<AuthTokenView> {
        match self.token {
            Some(token) => Some(token@),
            None => None,
        }
    }

    /// The time to live of issued tokens, in milliseconds.
    pub closed spec fn token_ttl_ms(self) -> u64 {
        self.token_ttl_ms
    }

    /// The token that is issued at `now` for the given identity.
    pub open spec fn issued(self, user_id: UserId, roles: Seq<Role>, now: Timestamp) -> AuthTokenView {
        AuthTokenView {
            user_id,
            roles,
            expiration: expiration_after(now, self.token_ttl_ms()),
            signature: issued_signature(),
        }
    }

    /// Whether `after` and `result` are what authenticating at `now` leaves
    /// and returns: with usable credentials a token for user 1 in the role
    /// `User`, which becomes the current one; otherwise the error that
    /// validation gives, and the current token as it was.
    pub open spec fn authenticated_as(
        self,
        after: Self,
        now: Timestamp,
        result: Result<AuthToken, DatabaseError>,
    ) -> bool {
        &&& after.credentials() == self.credentials()
        &&& after.token_ttl_ms() == self.token_ttl_ms()
        &&& match result {
            Ok(token) => {
                &&& self.credentials().usable()
                &&& token@ == self.issued(1, seq![Role::User], now)
                &&& after.token() == Some(token@)
            },
            Err(error) => {
                &&& !self.credentials().usable()
                &&& self.credentials().validated_as(Err(error))
                &&& after.token() == self.token()
            },
        }
    }

    /// Whether `after` and `result` are what asking for a valid token at
    /// `now` leaves and returns: the current token where there is one that
    /// has not expired, and otherwise what authenticating gives.
    pub open spec fn valid_token_as(
        self,
        after: Self,
        now: Timestamp,
        result: Result<AuthToken, DatabaseError>,
    ) -> bool {
        if self.token() is Some && !self.token().unwrap().expired_at(now) {
            &&& after.credentials() == self.credentials()
            &&& after.token_ttl_ms() == self.token_ttl_ms()
            &&& after.token() == self.token()
            &&& result matches Ok(token) && Some(token@) == self.token()
        } else {
            self.authenticated_as(after, now, result)
        }
    }

    /// Whether `after` and `result` are what refreshing at `now` leaves and
    /// returns: where a token is held that has not expired, a new token for
    /// the same user and roles, which becomes the current one; otherwise
    /// what authenticating gives.
    pub open spec fn refreshed_as(
        self,
        after: Self,
        now: Timestamp,
        result: Result<AuthToken, DatabaseError>,
    ) -> bool {
        if self.token() is Some && !self.token().unwrap().expired_at(now) {
            &&& after.credentials() == self.credentials()
            &&& after.token_ttl_ms() == self.token_ttl_ms()
            &&& result matches Ok(token) && token@ == self.issued(
                self.token().unwrap().user_id,
                self.token().unwrap().roles,
                now,
            ) && after.token() == Some(token@)
        } else {
            self.authenticated_as(after, now, result)
        }
    }

    /// Creates a manager that holds no token yet.
    pub fn new(credentials: Credentials, token_ttl_ms: u64) -> (manager: Self)
        ensures
            manager.credentials() == credentials,
            manager.token() is None,
            manager.token_ttl_ms() == token_ttl_ms,
    {
        AuthenticationManager { credentials, token: None, token_ttl_ms }
    }

    /// Validates the credentials and, if they are usable, issues a token
    /// that expires `token_ttl_ms` after `now` and keeps it as current.
    pub fn authenticate_at(&mut self, now: Timestamp) -> (result: Result<AuthToken, DatabaseError>)
        ensures
            old(self).authenticated_as(*final(self), now, result),
    {
        match self.credentials.validate() {
            Err(error) => Err(error),
            Ok(_) => {
                let mut roles: Vec<Role> = Vec::new();
                roles.push(Role::User);
                let token = AuthToken::new(
                    1,
                    roles,
                    expiration_from(now, self.token_ttl_ms),
                    make_signature(),
                );
                assert(token.roles@ =~= seq![Role::User]);
                self.token = Some(token.clone());
                Ok(token)
            },
        }
    }

    /// Returns the current token if there is one and it has not expired at
    /// `now`; otherwise authenticates.
    pub fn get_valid_token_at(&mut self, now: Timestamp) -> (result: Result<
        AuthToken,
        DatabaseError,
    >)
        ensures
            old(self).valid_token_as(*final(self), now, result),
    {
        match &self.token {
            Some(token) => {
                if !token.is_expired_at(now) {
                    return Ok(token.clone());
                }
            },
            None => {},
        }
        self.authenticate_at(now)
    }

    /// Replaces a current token that has not expired at `now` by one for
    /// the same user and roles with a new expiration; where no such token is
    /// held, authenticates.
    pub fn refresh_token_at(&mut self, now: Timestamp) -> (result: Result<
        AuthToken,
        DatabaseError,
    >)
        ensures
            old(self).refreshed_as(*final(self), now, result),
    {
        let identity: Option<(UserId, Vec<Role>)> = match &self.token {
            Some(token) => {
                if token.is_expired_at(now) {
                    None
                } else {
                    Some((token.user_id, slice_to_vec(token.roles.as_slice())))
                }
            },
            None => None,
        };
        match identity {
            None => self.authenticate_at(now),
            Some((user_id, roles)) => {
                let token = AuthToken::new(
                    user_id,
                    roles,
                    expiration_from(now, self.token_ttl_ms),
                    make_signature(),
                );
                self.token = Some(token.clone());
                Ok(token)
            },
        }
    }

    /// Clears the current token. Fails if none is held.
    pub fn logout(&mut self) -> (result: Result<(), DatabaseError>)
        ensures
            final(self).credentials() == old(self).credentials(),
            final(self).token_ttl_ms() == old(self).token_ttl_ms(),
            final(self).token() is None,
            match result {
                Ok(_) => old(self).token() is Some,
                Err(error) => error matches DatabaseError::AuthenticationFailed { reason }
                    && reason@ == "No token to logout"@ && old(self).token() is None,
            },
    {
        if self.token.is_none() {
            return Err(
                DatabaseError::AuthenticationFailed {
                    reason: String::from_str("No token to logout"),
                },
            );
        }
        self.token = None;
        Ok(())
    }

    /// Returns the current token, expired or not.
    pub fn get_token(&self) -> (token: Option<AuthToken>)
        ensures
            match token {
                Some(token) => self.token() == Some(token@),
                None => self.token() is None,
            },
    {
        match &self.token {
            Some(token) => Some(token.clone()),
            None => None,
        }
    }

    /// Authenticates by the clock.
    pub fn authenticate(&mut self) -> (result: Result<AuthToken, DatabaseError>)
        ensures
            exists|now: Timestamp| #[trigger] old(self).authenticated_as(*final(self), now, result),
    {
        let now = now_millis();
        let result = self.authenticate_at(now);
        assert(old(self).authenticated_as(*self, now, result));
        result
    }

    /// Returns a token that is valid by the clock, authenticating if needed.
    pub fn get_valid_token(&mut self) -> (result: Result<AuthToken, DatabaseError>)
        ensures
            exists|now: Timestamp| #[trigger] old(self).valid_token_as(*final(self), now, result),
    {
        let now = now_millis();
        let result = self.get_valid_token_at(now);
        assert(old(self).valid_token_as(*self, now, result));
        result
    }

    /// Refreshes the token by the clock.
    pub fn refresh_token(&mut self) -> (result: Result<AuthToken, DatabaseError>)
        ensures
            exists|now: Timestamp| #[trigger] old(self).refreshed_as(*final(self), now, result),
    {
        let now = now_millis();
        let result = self.refresh_token_at(now);
        assert(old(self).refreshed_as(*self, now, result));
        result
    }
}

} // verus!
