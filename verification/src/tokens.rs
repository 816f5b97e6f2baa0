//! OAuth2 credentials and tokens: the rules the application's credentials
//! must meet, the lifetimes of the access and refresh tokens, and the
//! requests that obtain new tokens.

use vstd::prelude::*;
use vstd::string::*;
use vstd::utf8::encode_utf8;
use vstd::utf8::encode_scalar;
use crate::codec::base64_encode;
use crate::codec::base64_standard;
use crate::error::SchwabError;
use crate::pkce::new_code_verifier;
use crate::pkce::verifier_ok;
use crate::error::is_auth_error;
use crate::error::is_config_error;
use crate::error::is_token_error;
use crate::text::has_prefix;
use crate::text::same_text;
use crate::text::starts_with;
use crate::time::UtcTime;
use crate::time::chrono_seconds_between;
use crate::time::epoch_nanos;
use crate::time::trunc_div;
use crate::types::SavedTokens;
use crate::types::TokenResponse;
use crate::types::param_views;

verus! {

/// Seconds an access token is valid after it was issued (30 minutes).
pub const ACCESS_TOKEN_TIMEOUT: i64 = 1800;

/// Seconds a refresh token is valid after it was issued (7 days).
pub const REFRESH_TOKEN_TIMEOUT: i64 = 604800;

/// A refresh token with less than this many seconds left needs a new login.
pub const REFRESH_TOKEN_MARGIN: i64 = 1800;

/// An access token with less than this many seconds left is renewed.
pub const ACCESS_TOKEN_MARGIN: i64 = 61;

/// Number of UTF-8 bytes of a text (what `str::len` counts).
pub open spec fn byte_len(s: Seq<char>) -> nat {
    encode_utf8(s).len()
}

/// A text has no more characters than UTF-8 bytes.
pub proof fn lemma_chars_le_bytes(s: Seq<char>)
    ensures
        s.len() <= byte_len(s),
    decreases s.len(),
{
    if s.len() > 0 {
        lemma_chars_le_bytes(s.drop_first());
        assert(encode_scalar(s[0] as u32).len() >= 1);
    }
}

/// What is wrong with the application's credentials, in the order they are
/// checked, or `None` when they are acceptable.
pub open spec fn credential_problem(app_key: Seq<char>, app_secret: Seq<char>, callback_url: Seq<char>) -> Option<Seq<char>> {
    if app_key.len() == 0 {
        Some("app_key cannot be empty"@)
    } else if app_secret.len() == 0 {
        Some("app_secret cannot be empty"@)
    } else if callback_url.len() == 0 {
        Some("callback_url cannot be empty"@)
    } else if byte_len(app_key) != 32 {
        Some("app_key must be 32 characters long"@)
    } else if byte_len(app_secret) != 16 {
        Some("app_secret must be 16 characters long"@)
    } else if !starts_with(callback_url, "https"@) {
        Some("callback_url must use HTTPS"@)
    } else if callback_url.last() == '/' {
        Some("callback_url cannot end with '/'"@)
    } else {
        None
    }
}

/// The abstract state of a token manager.
pub struct TokenState {
    pub app_key: Seq<char>,
    pub app_secret: Seq<char>,
    pub callback_url: Seq<char>,
    pub tokens_file: Seq<char>,
    /// The PKCE code verifier of the authorization request.
    pub code_verifier: Seq<char>,
    pub access_token: Option<Seq<char>>,
    pub refresh_token: Option<Seq<char>>,
    pub id_token: Option<Seq<char>>,
    pub access_token_issued: UtcTime,
    pub refresh_token_issued: UtcTime,
    pub access_token_timeout: i64,
    pub refresh_token_timeout: i64,
}

/// The view of an optional string.
pub open spec fn opt_view(o: Option<String>) -> Option<Seq<char>> {
    match o {
        Some(s) => Some(s@),
        None => None,
    }
}

/// Seconds the access token has left at `now`.
pub open spec fn access_delta(st: TokenState, now: UtcTime) -> int {
    st.access_token_timeout - chrono_seconds_between(
        now.secs(),
        now.nanos(),
        st.access_token_issued.secs(),
        st.access_token_issued.nanos(),
    )
}

/// Seconds the refresh token has left at `now`.
pub open spec fn refresh_delta(st: TokenState, now: UtcTime) -> int {
    st.refresh_token_timeout - chrono_seconds_between(
        now.secs(),
        now.nanos(),
        st.refresh_token_issued.secs(),
        st.refresh_token_issued.nanos(),
    )
}

/// The verdict on the tokens, the access token judged at `access_now` and
/// the refresh token at `refresh_now`: `None` when the refresh token has
/// expired or will within the margin, else whether the access token must be
/// renewed.
pub open spec fn token_check(st: TokenState, access_now: UtcTime, refresh_now: UtcTime) -> Option<bool> {
    if refresh_delta(st, refresh_now) < REFRESH_TOKEN_MARGIN {
        None
    } else {
        Some(access_delta(st, access_now) < ACCESS_TOKEN_MARGIN)
    }
}

/// Whole seconds from `b` to `a` for instants outside leap seconds.
pub open spec fn elapsed_secs(a: UtcTime, b: UtcTime) -> int {
    trunc_div(epoch_nanos(a.secs(), a.nanos()) - epoch_nanos(b.secs(), b.nanos()), 1_000_000_000)
}

/// `token_check` for instants outside leap seconds, from the nanosecond
/// counts alone.
pub open spec fn regular_token_check(st: TokenState, access_now: UtcTime, refresh_now: UtcTime) -> Option<bool> {
    if st.refresh_token_timeout - elapsed_secs(refresh_now, st.refresh_token_issued) < REFRESH_TOKEN_MARGIN {
        None
    } else {
        Some(st.access_token_timeout - elapsed_secs(access_now, st.access_token_issued)
            < ACCESS_TOKEN_MARGIN)
    }
}

/// The four instants of a check lie outside leap seconds.
pub open spec fn regular_instants(st: TokenState, a: UtcTime, r: UtcTime) -> bool {
    &&& a.regular()
    &&& r.regular()
    &&& st.access_token_issued.regular()
    &&& st.refresh_token_issued.regular()
}

/// `trunc_div` by a positive divisor does not decrease when the dividend grows.
pub proof fn lemma_trunc_div_monotone(x: int, y: int, d: int)
    requires
        x <= y,
        d > 0,
    ensures
        trunc_div(x, d) <= trunc_div(y, d),
{
    if x >= 0 {
        vstd::arithmetic::div_mod::lemma_div_is_ordered(x, y, d);
    } else if y >= 0 {
        vstd::arithmetic::div_mod::lemma_div_pos_is_pos(y, d);
        vstd::arithmetic::div_mod::lemma_div_pos_is_pos(-x, d);
    } else {
        vstd::arithmetic::div_mod::lemma_div_is_ordered(-y, -x, d);
    }
}

/// Once the refresh token is judged expired, it stays expired at every later
/// instant, whenever the access token is judged.
pub proof fn law_refresh_expiry_persists(st: TokenState, a1: UtcTime, r1: UtcTime, a2: UtcTime, r2: UtcTime)
    requires
        regular_token_check(st, a1, r1) is None,
        epoch_nanos(r1.secs(), r1.nanos()) <= epoch_nanos(r2.secs(), r2.nanos()),
    ensures
        regular_token_check(st, a2, r2) is None,
{
    lemma_trunc_div_monotone(
        epoch_nanos(r1.secs(), r1.nanos()) - epoch_nanos(st.refresh_token_issued.secs(), st.refresh_token_issued.nanos()),
        epoch_nanos(r2.secs(), r2.nanos()) - epoch_nanos(st.refresh_token_issued.secs(), st.refresh_token_issued.nanos()),
        1_000_000_000,
    );
}

/// Once the access token is due for renewal, it stays due at every later
/// instant as long as the refresh token is still usable.
pub proof fn law_access_renewal_persists(st: TokenState, a1: UtcTime, r1: UtcTime, a2: UtcTime, r2: UtcTime)
    requires
        regular_token_check(st, a1, r1) == Some(true),
        epoch_nanos(a1.secs(), a1.nanos()) <= epoch_nanos(a2.secs(), a2.nanos()),
        regular_token_check(st, a2, r2) is Some,
    ensures
        regular_token_check(st, a2, r2) == Some(true),
{
    lemma_trunc_div_monotone(
        epoch_nanos(a1.secs(), a1.nanos()) - epoch_nanos(st.access_token_issued.secs(), st.access_token_issued.nanos()),
        epoch_nanos(a2.secs(), a2.nanos()) - epoch_nanos(st.access_token_issued.secs(), st.access_token_issued.nanos()),
        1_000_000_000,
    );
}

/// While the refresh token has at least 30 minutes left, the access token
/// must be renewed exactly when 1740 seconds or more have passed since it
/// was issued (it then has less than 61 of its 1800 seconds left).
pub proof fn law_access_renewal_after_1740_secs(st: TokenState, a: UtcTime, r: UtcTime)
    requires
        st.access_token_timeout == ACCESS_TOKEN_TIMEOUT,
        st.refresh_token_timeout - elapsed_secs(r, st.refresh_token_issued) >= REFRESH_TOKEN_MARGIN,
    ensures
        regular_token_check(st, a, r) == Some(elapsed_secs(a, st.access_token_issued) >= 1740),
{
}

/// Tokens stored at an instant need nothing at that instant: neither a new
/// login nor a renewal of the access token.
pub proof fn law_fresh_tokens_are_current(st: TokenState, t: UtcTime, resp: TokenResponse)
    requires
        st.access_token_timeout == ACCESS_TOKEN_TIMEOUT,
        st.refresh_token_timeout == REFRESH_TOKEN_TIMEOUT,
    ensures
        regular_token_check(with_tokens(st, t, t, resp), t, t) == Some(false),
{
}

/// Storing tokens makes them the ones read back, with the issue times given,
/// and changes neither the credentials, the code verifier nor the token
/// lifetimes.
pub proof fn law_stored_tokens_read_back(st: TokenState, at_issued: UtcTime, rt_issued: UtcTime, resp: TokenResponse)
    ensures
        ({
            let after = with_tokens(st, at_issued, rt_issued, resp);
            &&& after.access_token == Some(resp.access_token@)
            &&& after.refresh_token == Some(resp.refresh_token@)
            &&& after.id_token == Some(resp.id_token@)
            &&& after.access_token_issued == at_issued
            &&& after.refresh_token_issued == rt_issued
            &&& after.app_key == st.app_key
            &&& after.app_secret == st.app_secret
            &&& after.callback_url == st.callback_url
            &&& after.tokens_file == st.tokens_file
            &&& after.code_verifier == st.code_verifier
            &&& after.access_token_timeout == st.access_token_timeout
            &&& after.refresh_token_timeout == st.refresh_token_timeout
        }),
{
}

/// `res` reports the verdict `token_check(st, a, r)`.
pub open spec fn reports_check(res: Result<bool, SchwabError>, st: TokenState, a: UtcTime, r: UtcTime) -> bool {
    match token_check(st, a, r) {
        None => res matches Err(e) && is_token_error(
            e,
            "Refresh token expired - manual authentication required"@,
        ),
        Some(b) => res == Ok::<bool, SchwabError>(b),
    }
}

/// The state after new tokens were stored.
pub open spec fn with_tokens(st: TokenState, at_issued: UtcTime, rt_issued: UtcTime, resp: TokenResponse) -> TokenState {
    TokenState {
        access_token: Some(resp.access_token@),
        refresh_token: Some(resp.refresh_token@),
        id_token: Some(resp.id_token@),
        access_token_issued: at_issued,
        refresh_token_issued: rt_issued,
        ..st
    }
}

/// The state of a manager that holds no tokens yet and made up the code
/// verifier `code_verifier`.
pub open spec fn fresh_state(
    app_key: Seq<char>,
    app_secret: Seq<char>,
    callback_url: Seq<char>,
    tokens_file: Seq<char>,
    code_verifier: Seq<char>,
) -> TokenState {
    TokenState {
        app_key,
        app_secret,
        callback_url,
        tokens_file,
        code_verifier,
        access_token: None,
        refresh_token: None,
        id_token: None,
        access_token_issued: UtcTime::epoch_spec(),
        refresh_token_issued: UtcTime::epoch_spec(),
        access_token_timeout: ACCESS_TOKEN_TIMEOUT,
        refresh_token_timeout: REFRESH_TOKEN_TIMEOUT,
    }
}

/// The authorization page a user visits to grant access, with the PKCE
/// challenge of the code verifier (the `plain` method: the challenge is the
/// verifier itself).
pub open spec fn auth_url(app_key: Seq<char>, callback_url: Seq<char>, code_verifier: Seq<char>) -> Seq<char> {
    "https://api.schwabapi.com/v1/oauth/authorize?client_id="@ + app_key + "&redirect_uri="@
        + callback_url + "&code_challenge="@ + code_verifier + "&code_challenge_method=plain"@
}

/// The form fields of a token request; the exchange of a code shows the
/// PKCE code verifier.
pub open spec fn token_form(grant_type: Seq<char>, code: Seq<char>, callback_url: Seq<char>, code_verifier: Seq<char>) -> Seq<(Seq<char>, Seq<char>)> {
    if grant_type == "authorization_code"@ {
        seq![
            ("grant_type"@, grant_type),
            ("code"@, code),
            ("redirect_uri"@, callback_url),
            ("code_verifier"@, code_verifier),
        ]
    } else if grant_type == "refresh_token"@ {
        seq![("grant_type"@, grant_type), ("refresh_token"@, code)]
    } else {
        seq![("grant_type"@, grant_type)]
    }
}

/// A request to the OAuth token endpoint, sent as an HTTP POST with a
/// URL-encoded form body.
#[derive(Debug)]
pub struct OAuthTokenRequest {
    pub url: String,
    /// Value of the `Authorization` header.
    pub authorization: String,
    /// Value of the `Content-Type` header.
    pub content_type: String,
    pub form: Vec<(String, String)>,
}

/// Token manager for handling OAuth2 authentication
#[derive(Debug)]
pub struct TokenManager {
    app_key: String,
    app_secret: String,
    callback_url: String,
    tokens_file: String,
    code_verifier: String,
    access_token: Option<String>,
    refresh_token: Option<String>,
    id_token: Option<String>,
    access_token_issued: UtcTime,
    refresh_token_issued: UtcTime,
    access_token_timeout: i64,
    refresh_token_timeout: i64,
}

impl View for TokenManager {
    type V = TokenState;

    closed spec fn view(&self) -> TokenState {
        TokenState {
            app_key: self.app_key@,
            app_secret: self.app_secret@,
            callback_url: self.callback_url@,
            tokens_file: self.tokens_file@,
            code_verifier: self.code_verifier@,
            access_token: opt_view(self.access_token),
            refresh_token: opt_view(self.refresh_token),
            id_token: opt_view(self.id_token),
            access_token_issued: self.access_token_issued,
            refresh_token_issued: self.refresh_token_issued,
            access_token_timeout: self.access_token_timeout,
            refresh_token_timeout: self.refresh_token_timeout,
        }
    }
}

impl TokenManager {
    #[verifier::type_invariant]
    spec fn well_formed(self) -> bool {
        &&& credential_problem(self.app_key@, self.app_secret@, self.callback_url@) is None
        &&& self.access_token_timeout == ACCESS_TOKEN_TIMEOUT
        &&& self.refresh_token_timeout == REFRESH_TOKEN_TIMEOUT
        &&& verifier_ok(self.code_verifier@)
    }

    /// Validate input parameters
    fn validate_input(app_key: &str, app_secret: &str, callback_url: &str) -> (r: Result<(), SchwabError>)
        ensures
            r is Ok <==> credential_problem(app_key@, app_secret@, callback_url@) is None,
            r matches Err(e) ==> is_config_error(
                e,
                credential_problem(app_key@, app_secret@, callback_url@).unwrap(),
            ),
    {
        if app_key.is_empty() {
            return Err(SchwabError::config("app_key cannot be empty"));
        }
        if app_secret.is_empty() {
            return Err(SchwabError::config("app_secret cannot be empty"));
        }
        if callback_url.is_empty() {
            return Err(SchwabError::config("callback_url cannot be empty"));
        }
        if app_key.as_bytes().len() != 32 {
            return Err(SchwabError::config("app_key must be 32 characters long"));
        }
        if app_secret.as_bytes().len() != 16 {
            return Err(SchwabError::config("app_secret must be 16 characters long"));
        }
        if !has_prefix(callback_url, "https") {
            return Err(SchwabError::config("callback_url must use HTTPS"));
        }
        let n = callback_url.unicode_len();
        if callback_url.get_char(n - 1) == '/' {
            return Err(SchwabError::config("callback_url cannot end with '/'"));
        }
        Ok(())
    }

    /// Create a new token manager; the token file defaults to `tokens.json`,
    /// and a fresh random PKCE code verifier is made up.
    pub fn new(app_key: String, app_secret: String, callback_url: String, tokens_file: Option<String>) -> (res: Result<Self, SchwabError>)
        ensures
            res is Ok <==> credential_problem(app_key@, app_secret@, callback_url@) is None,
            res matches Err(e) ==> is_config_error(
                e,
                credential_problem(app_key@, app_secret@, callback_url@).unwrap(),
            ),
            res matches Ok(tm) ==> tm@ == fresh_state(
                app_key@,
                app_secret@,
                callback_url@,
                match tokens_file {
                    Some(f) => f@,
                    None => "tokens.json"@,
                },
                tm@.code_verifier,
            ) && verifier_ok(tm@.code_verifier),
    {
        Self::validate_input(app_key.as_str(), app_secret.as_str(), callback_url.as_str())?;
        let tokens_file = match tokens_file {
            Some(f) => f,
            None => "tokens.json".to_owned(),
        };
        let code_verifier = new_code_verifier();
        Ok(TokenManager {
            app_key,
            app_secret,
            callback_url,
            tokens_file,
            code_verifier,
            access_token: None,
            refresh_token: None,
            id_token: None,
            access_token_issued: UtcTime::epoch(),
            refresh_token_issued: UtcTime::epoch(),
            access_token_timeout: ACCESS_TOKEN_TIMEOUT,
            refresh_token_timeout: REFRESH_TOKEN_TIMEOUT,
        })
    }

    /// The PKCE code verifier of the authorization request.
    pub fn code_verifier(&self) -> (v: &String)
        ensures
            v@ == self@.code_verifier,
            verifier_ok(v@),
    {
        proof {
            use_type_invariant(self);
        }
        &self.code_verifier
    }

    /// The file where tokens are saved.
    pub fn tokens_file(&self) -> (f: &String)
        ensures
            f@ == self@.tokens_file,
    {
        &self.tokens_file
    }

    /// Get the current access token
    pub fn get_access_token(&self) -> (res: Result<String, SchwabError>)
        ensures
            match self@.access_token {
                Some(t) => res matches Ok(s) && s@ == t,
                None => res matches Err(e) && is_token_error(e, "No access token available"@),
            },
    {
        match &self.access_token {
            Some(t) => Ok(t.clone()),
            None => Err(SchwabError::token("No access token available")),
        }
    }

    /// Seconds the access token has left at `now`.
    pub fn access_token_delta(&self, now: &UtcTime) -> (d: i128)
        ensures
            d == access_delta(self@, *now),
            *now == self@.access_token_issued ==> d == self@.access_token_timeout,
            now.regular() && self@.access_token_issued.regular() ==> d
                == self@.access_token_timeout - elapsed_secs(*now, self@.access_token_issued),
    {
        proof {
            use_type_invariant(self);
        }
        let elapsed = now.seconds_since(&self.access_token_issued);
        self.access_token_timeout as i128 - elapsed as i128
    }

    /// Seconds the refresh token has left at `now`.
    pub fn refresh_token_delta(&self, now: &UtcTime) -> (d: i128)
        ensures
            d == refresh_delta(self@, *now),
            *now == self@.refresh_token_issued ==> d == self@.refresh_token_timeout,
            now.regular() && self@.refresh_token_issued.regular() ==> d
                == self@.refresh_token_timeout - elapsed_secs(*now, self@.refresh_token_issued),
    {
        proof {
            use_type_invariant(self);
        }
        let elapsed = now.seconds_since(&self.refresh_token_issued);
        self.refresh_token_timeout as i128 - elapsed as i128
    }

    /// Judges the tokens, the access token at `access_now` and the refresh
    /// token at `refresh_now`: an error when the refresh token has expired or
    /// will within half an hour, else whether the access token must be
    /// renewed (less than 61 seconds left).
    pub fn check_tokens_at(&self, access_now: &UtcTime, refresh_now: &UtcTime) -> (res: Result<bool, SchwabError>)
        ensures
            reports_check(res, self@, *access_now, *refresh_now),
            regular_instants(self@, *access_now, *refresh_now) ==> token_check(
                self@,
                *access_now,
                *refresh_now,
            ) == regular_token_check(self@, *access_now, *refresh_now),
            (*access_now == self@.access_token_issued && *refresh_now == self@.refresh_token_issued)
                ==> res == Ok::<bool, SchwabError>(false),
    {
        proof {
            use_type_invariant(self);
        }
        let at_delta = self.access_token_delta(access_now);
        let rt_delta = self.refresh_token_delta(refresh_now);
        if rt_delta < REFRESH_TOKEN_MARGIN as i128 {
            return Err(SchwabError::token("Refresh token expired - manual authentication required"));
        }
        Ok(at_delta < ACCESS_TOKEN_MARGIN as i128)
    }

    /// Check whether the tokens need updating, reading the clock as it
    /// goes: an error when the refresh token has expired or will soon (a new
    /// login is needed), `Ok(true)` when the access token must be renewed now.
    pub fn update_tokens_if_needed(&self) -> (res: Result<bool, SchwabError>)
        ensures
            exists|a: UtcTime, r: UtcTime| a.regular() && r.regular() && reports_check(res, self@, a, r),
    {
        let access_now = UtcTime::now();
        let refresh_now = UtcTime::now();
        self.check_tokens_at(&access_now, &refresh_now)
    }

    /// Generate the authorization URL for OAuth2 flow
    pub fn get_auth_url(&self) -> (url: String)
        ensures
            url@ == auth_url(self@.app_key, self@.callback_url, self@.code_verifier),
    {
        let mut url = "https://api.schwabapi.com/v1/oauth/authorize?client_id=".to_owned();
        url.append(self.app_key.as_str());
        url.append("&redirect_uri=");
        url.append(self.callback_url.as_str());
        url.append("&code_challenge=");
        url.append(self.code_verifier.as_str());
        url.append("&code_challenge_method=plain");
        url
    }

    /// The request to the token endpoint for a grant type (`authorization_code`
    /// with the code from the authorization page, or `refresh_token` with the
    /// refresh token; the exchange of a code also shows the PKCE code
    /// verifier). The credentials go in a Basic `Authorization` header.
    pub fn oauth_token_request(&self, grant_type: &str, code: &str) -> (req: OAuthTokenRequest)
        ensures
            req.url@ == "https://api.schwabapi.com/v1/oauth/token"@,
            req.authorization@ == "Basic "@ + base64_standard(
                self@.app_key + ":"@ + self@.app_secret,
            ),
            req.content_type@ == "application/x-www-form-urlencoded"@,
            param_views(req.form@) == token_form(grant_type@, code@, self@.callback_url, self@.code_verifier),
    {
        proof {
            use_type_invariant(self);
            lemma_chars_le_bytes(self.app_key@);
            lemma_chars_le_bytes(self.app_secret@);
            reveal_strlit(":");
        }
        let mut credentials = self.app_key.clone();
        credentials.append(":");
        credentials.append(self.app_secret.as_str());
        let encoded = base64_encode(credentials.as_str());
        let mut authorization = "Basic ".to_owned();
        authorization.append(encoded.as_str());
        let mut form: Vec<(String, String)> = Vec::new();
        form.push(("grant_type".to_owned(), grant_type.to_owned()));
        if same_text(grant_type, "authorization_code") {
            form.push(("code".to_owned(), code.to_owned()));
            form.push(("redirect_uri".to_owned(), self.callback_url.clone()));
            form.push(("code_verifier".to_owned(), self.code_verifier.clone()));
        } else if same_text(grant_type, "refresh_token") {
            form.push(("refresh_token".to_owned(), code.to_owned()));
        }
        proof {
            assert(param_views(form@) =~= token_form(grant_type@, code@, self@.callback_url, self@.code_verifier));
        }
        OAuthTokenRequest {
            url: "https://api.schwabapi.com/v1/oauth/token".to_owned(),
            authorization,
            content_type: "application/x-www-form-urlencoded".to_owned(),
            form,
        }
    }

    /// The request that trades the refresh token for a new access token.
    pub fn update_access_token_request(&self) -> (res: Result<OAuthTokenRequest, SchwabError>)
        ensures
            match self@.refresh_token {
                None => res matches Err(e) && is_token_error(e, "No refresh token available"@),
                Some(rt) => res matches Ok(req) && param_views(req.form@) == token_form(
                    "refresh_token"@,
                    rt,
                    self@.callback_url,
                    self@.code_verifier,
                ) && req.authorization@ == "Basic "@ + base64_standard(
                    self@.app_key + ":"@ + self@.app_secret,
                ) && req.url@ == "https://api.schwabapi.com/v1/oauth/token"@,
            },
    {
        match &self.refresh_token {
            None => Err(SchwabError::token("No refresh token available")),
            Some(rt) => Ok(self.oauth_token_request("refresh_token", rt.as_str())),
        }
    }

    /// Stores new tokens and their issue times; returns what is to be saved
    /// to the token file.
    pub fn set_tokens(&mut self, at_issued: UtcTime, rt_issued: UtcTime, token_response: TokenResponse) -> (saved: SavedTokens)
        ensures
            final(self)@ == with_tokens(old(self)@, at_issued, rt_issued, token_response),
            saved.access_token_issued == at_issued,
            saved.refresh_token_issued == rt_issued,
            saved.token_dictionary == token_response,
    {
        proof {
            use_type_invariant(&*self);
        }
        self.access_token = Some(token_response.access_token.clone());
        self.refresh_token = Some(token_response.refresh_token.clone());
        self.id_token = Some(token_response.id_token.clone());
        self.access_token_issued = at_issued;
        self.refresh_token_issued = rt_issued;
        SavedTokens {
            access_token_issued: at_issued,
            refresh_token_issued: rt_issued,
            token_dictionary: token_response,
        }
    }

    /// Stores the tokens of a successful refresh: the access token is issued
    /// now, the refresh token keeps its issue time.
    pub fn apply_access_token_update(&mut self, token_response: TokenResponse) -> (saved: SavedTokens)
        ensures
            exists|now: UtcTime| now.regular() && final(self)@ == with_tokens(
                old(self)@,
                now,
                old(self)@.refresh_token_issued,
                token_response,
            ),
            saved.refresh_token_issued == old(self)@.refresh_token_issued,
            saved.token_dictionary == token_response,
    {
        let now = UtcTime::now();
        let rt_issued = self.refresh_token_issued;
        self.set_tokens(now, rt_issued, token_response)
    }

    /// Takes the token endpoint's reply to the exchange of an authorization
    /// code requested at `requested_at`: the tokens of a successful reply are
    /// stored, both issued at that instant, and returned for saving; the text
    /// of a failed reply becomes an authentication error.
    pub fn apply_exchange_reply(&mut self, requested_at: UtcTime, reply: Result<TokenResponse, String>) -> (res: Result<SavedTokens, SchwabError>)
        ensures
            match reply {
                Ok(resp) => final(self)@ == with_tokens(old(self)@, requested_at, requested_at, resp) && (
                res matches Ok(saved) && saved.access_token_issued == requested_at
                    && saved.refresh_token_issued == requested_at && saved.token_dictionary == resp),
                Err(text) => final(self)@ == old(self)@ && (res matches Err(e) && is_auth_error(
                    e,
                    "Token exchange failed: "@ + text@,
                )),
            },
    {
        match reply {
            Ok(resp) => Ok(self.set_tokens(requested_at, requested_at, resp)),
            Err(text) => {
                let mut msg = "Token exchange failed: ".to_owned();
                msg.append(text.as_str());
                Err(SchwabError::auth(msg.as_str()))
            },
        }
    }

    /// Takes the token endpoint's reply to a refresh: the tokens of a
    /// successful reply are stored as `apply_access_token_update` does and
    /// returned for saving; the text of a failed reply becomes a token error.
    pub fn apply_refresh_reply(&mut self, reply: Result<TokenResponse, String>) -> (res: Result<SavedTokens, SchwabError>)
        ensures
            match reply {
                Ok(resp) => (exists|now: UtcTime| now.regular() && final(self)@ == with_tokens(
                    old(self)@,
                    now,
                    old(self)@.refresh_token_issued,
                    resp,
                )) && (res matches Ok(saved) && saved.refresh_token_issued == old(self)@.refresh_token_issued
                    && saved.token_dictionary == resp),
                Err(text) => final(self)@ == old(self)@ && (res matches Err(e) && is_token_error(
                    e,
                    "Access token update failed: "@ + text@,
                )),
            },
    {
        match reply {
            Ok(resp) => Ok(self.apply_access_token_update(resp)),
            Err(text) => {
                let mut msg = "Access token update failed: ".to_owned();
                msg.append(text.as_str());
                Err(SchwabError::token(msg.as_str()))
            },
        }
    }

    /// Takes up the tokens saved by an earlier session and judges them, or
    /// reports that a login is needed when there are none.
    pub fn initialize(&mut self, saved: Option<SavedTokens>) -> (res: Result<bool, SchwabError>)
        ensures
            saved is None ==> final(self)@ == old(self)@,
            saved is None ==> (res matches Err(e) && is_token_error(
                e,
                "No valid tokens found, authentication required"@,
            )),
            saved matches Some(s) ==> {
                &&& final(self)@ == with_tokens(
                    old(self)@,
                    s.access_token_issued,
                    s.refresh_token_issued,
                    s.token_dictionary,
                )
                &&& exists|a: UtcTime, r: UtcTime|
                    a.regular() && r.regular() && reports_check(res, final(self)@, a, r)
            },
    {
        match saved {
            None => Err(SchwabError::token("No valid tokens found, authentication required")),
            Some(s) => {
                self.set_tokens(s.access_token_issued, s.refresh_token_issued, s.token_dictionary);
                self.update_tokens_if_needed()
            },
        }
    }
}

} // verus!
