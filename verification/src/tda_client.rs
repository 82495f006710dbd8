//! Credential lifecycle manager: owns the authorization code, refresh
//! token and access token of one brokerage credential, decides which
//! OAuth2 grant a refresh must use, and applies the provider's token
//! replies with exact expiration arithmetic.
//!
//! The network transport, the JSON decoding of provider payloads and the
//! interactive prompt are collaborators outside this module: callers
//! perform them and hand the results back as plain values.

use vstd::prelude::*;
use vstd::string::StrSliceExecFns;
use vstd::string::StringExecFns;

use crate::text::lemma_trim_idempotent;
use crate::text::lemma_trim_no_edge_space;
use crate::text::starts_with_spec;
use crate::text::str_starts_with;
use crate::text::strip_prefix_spec;
use crate::text::trim_spec;
use crate::text::trim_str;
use crate::TdaError;
use crate::Rational;

verus! {

/// Immutable process configuration, loaded once by the caller; a `None`
/// stands for a value absent from the environment.
#[derive(Clone, Debug)]
pub struct Config {
    pub authorization_code: Option<String>,
    pub refresh_token: Option<String>,
    pub access_token: Option<String>,
    pub client_id: Option<String>,
}

/// One brokerage credential: tokens and their expiration timestamps,
/// the latter as whole seconds since the Unix epoch.
#[derive(Clone, Debug)]
pub struct Client {
    pub authorization_code: String,
    pub refresh_token: String,
    pub refresh_token_expiration: i64,
    pub access_token: String,
    pub access_token_expiration: i64,
}

/// A provider reply to a token exchange, already decoded into plain
/// values; consumed immediately to update a [`Client`].
#[derive(Clone, Debug)]
pub struct TokenResponse {
    pub access_token: String,
    pub expires_in: i64,
    pub token_type: String,
    pub scope: String,
    pub refresh_token: Option<String>,
    pub refresh_token_expires_in: Option<i64>,
}

/// The exchange a refresh must perform: one of the two OAuth2 grants,
/// with every form value it posts.
#[derive(Clone, Debug)]
pub enum TokenRequest {
    RefreshTokenGrant { refresh_token: String, client_id: String },
    AuthorizationCodeGrant { code: String, client_id: String },
}

/// What authentication asks of the caller: nothing further, or a prompt
/// at the given login URL followed by one pasted line.
#[derive(Clone, Debug)]
pub enum AuthAction {
    Adopted,
    Prompt { url: String },
}

/// The view of an optional configuration value: its characters, or the
/// empty string when absent.
pub open spec fn opt_or_empty(o: Option<String>) -> Seq<char> {
    match o {
        Option::Some(s) => s@,
        Option::None => Seq::<char>::empty(),
    }
}

/// The fixed prefix of a pasted redirect URL.
pub open spec fn code_prefix() -> Seq<char> {
    "https://127.0.0.1/?code="@
}

/// What code extraction returns: the line with the fixed redirect prefix
/// stripped and whitespace trimmed from both ends.
pub open spec fn extract_code_spec(s: Seq<char>) -> Seq<char> {
    trim_spec(strip_prefix_spec(s, code_prefix()))
}

/// The configured client identifier with the fixed provider suffix.
pub open spec fn qualified_id_spec(id: Seq<char>) -> Seq<char> {
    id + "@AMER.OAUTHAP"@
}

/// The provider login URL for the manual authorization flow.
pub open spec fn auth_url_spec(id: Seq<char>) -> Seq<char> {
    "https://auth.tdameritrade.com/auth?response_type=code&redirect_uri=http%3A%2F%2F127.0.0.1&client_id="@
        + id + "%40AMER.OAUTHAP"@
}

/// The grant a refresh of credential `c` under client identifier `id`
/// must perform: the refresh-token grant exactly when the stored refresh
/// token is non-empty, the authorization-code grant otherwise.
pub open spec fn grant_request_for(c: Client, id: Seq<char>, r: TokenRequest) -> bool {
    if c.refresh_token@.len() > 0 {
        r matches TokenRequest::RefreshTokenGrant { refresh_token, client_id }
            && refresh_token@ == c.refresh_token@
            && client_id@ == qualified_id_spec(id)
    } else {
        r matches TokenRequest::AuthorizationCodeGrant { code, client_id }
            && code@ == c.authorization_code@
            && client_id@ == qualified_id_spec(id)
    }
}

/// How a token reply taken at time `now` carries a credential from
/// `pre` to `post`: the access token and its expiration are always
/// overwritten, the refresh token and its expiration only when the
/// reply carries both refresh fields; the authorization code stays.
pub open spec fn applied_response(pre: Client, resp: TokenResponse, now: int, post: Client) -> bool {
    &&& post.access_token@ == resp.access_token@
    &&& post.access_token_expiration == now + resp.expires_in
    &&& post.authorization_code == pre.authorization_code
    &&& if resp.refresh_token is Some && resp.refresh_token_expires_in is Some {
        post.refresh_token@ == resp.refresh_token->Some_0@
            && post.refresh_token_expiration == now + resp.refresh_token_expires_in->Some_0
    } else {
        post.refresh_token == pre.refresh_token
            && post.refresh_token_expiration == pre.refresh_token_expiration
    }
}

/// The characters that URL-decoding a percent-encoded string yields,
/// when the decoded bytes form valid text.
pub uninterp spec fn url_decoded(s: Seq<char>) -> Seq<char>;

#[verifier::external_type_specification]
#[verifier::external_body]
pub struct ExFromUtf8Error(std::string::FromUtf8Error);

/// Relies on urlencoding's `decode`: percent-decodes the string, failing
/// only when the decoded bytes are not valid text; its source returns a
/// string without `'%'` unchanged.
#[verifier::external_body]
fn url_decode(s: &str) -> (r: Result<String, std::string::FromUtf8Error>)
    ensures
        r is Ok ==> r->Ok_0@ == url_decoded(s@),
        !s@.contains('%') ==> r is Ok && r->Ok_0@ == s@,
{
    match urlencoding::decode(s) {
        Ok(c) => Ok(c.into_owned()),
        Err(e) => Err(e),
    }
}

/// Relies on chrono's `Utc::now`, reported as whole seconds since the
/// Unix epoch; nothing is assumed of the clock's reading.
#[verifier::external_body]
fn now_timestamp() -> i64 {
    chrono::Utc::now().timestamp()
}

/// Extracts an authorization code from a pasted line: strips the fixed
/// redirect prefix when present and trims surrounding whitespace.
pub fn extract_code(line: String) -> (r: String)
    ensures
        r@ == extract_code_spec(line@),
{
    let prefix = "https://127.0.0.1/?code=";
    if str_starts_with(line.as_str(), prefix) {
        let n = line.as_str().unicode_len();
        let plen = prefix.unicode_len();
        let rest = line.as_str().substring_char(plen, n);
        proof {
            assert(rest@ =~= line@.skip(plen as int));
        }
        String::from_str(trim_str(rest))
    } else {
        String::from_str(trim_str(line.as_str()))
    }
}

/// A line that does not begin with the redirect prefix is only trimmed.
pub proof fn lemma_extract_code_bare(s: Seq<char>)
    requires
        !starts_with_spec(s, code_prefix()),
    ensures
        extract_code_spec(s) == trim_spec(s),
{
}

/// Extraction settles in one step: once its result is a bare code (it
/// no longer begins with the redirect prefix), extracting again changes
/// nothing.
pub proof fn lemma_extract_code_idempotent(s: Seq<char>)
    requires
        !starts_with_spec(extract_code_spec(s), code_prefix()),
    ensures
        extract_code_spec(extract_code_spec(s)) == extract_code_spec(s),
{
    lemma_trim_idempotent(strip_prefix_spec(s, code_prefix()));
}

/// An extracted code carries no whitespace at either end.
pub proof fn lemma_extract_code_trimmed(s: Seq<char>)
    ensures
        extract_code_spec(s).len() > 0 ==> !crate::text::is_space(extract_code_spec(s)[0]),
        extract_code_spec(s).len() > 0 ==> !crate::text::is_space(
            extract_code_spec(s)[extract_code_spec(s).len() - 1],
        ),
{
    lemma_trim_no_edge_space(strip_prefix_spec(s, code_prefix()));
}

/// The configured client identifier with the provider suffix appended,
/// as both token grants post it.
pub fn qualified_client_id(client_id: &str) -> (r: String)
    ensures
        r@ == qualified_id_spec(client_id@),
{
    String::from_str(client_id).concat("@AMER.OAUTHAP")
}

/// The provider login URL presented by the manual authorization flow.
pub fn auth_url(client_id: &str) -> (r: String)
    ensures
        r@ == auth_url_spec(client_id@),
{
    let mut url = String::from_str(
        "https://auth.tdameritrade.com/auth?response_type=code&redirect_uri=http%3A%2F%2F127.0.0.1&client_id=",
    );
    url.append(client_id);
    url.append("%40AMER.OAUTHAP");
    proof {
        assert(url@ =~= auth_url_spec(client_id@));
    }
    url
}

/// The provider's token endpoint.
pub fn token_url() -> (r: &'static str)
    ensures
        r@ == "https://api.tdameritrade.com/v1/oauth2/token"@,
{
    "https://api.tdameritrade.com/v1/oauth2/token"
}

/// The provider's accounts endpoint.
pub fn accounts_url() -> (r: &'static str)
    ensures
        r@ == "https://api.tdameritrade.com/v1/accounts"@,
{
    "https://api.tdameritrade.com/v1/accounts"
}

fn clone_or_empty(o: &Option<String>) -> (r: String)
    ensures
        r@ == opt_or_empty(*o),
{
    match o {
        Option::Some(s) => s.clone(),
        Option::None => String::new(),
    }
}

impl Client {
    /// A credential seeded from the configuration at the given time:
    /// absent values become empty strings and both expiration clocks
    /// start at `now`, that is already expired.
    pub fn new_at(config: &Config, now: i64) -> (c: Client)
        ensures
            c.authorization_code@ == opt_or_empty(config.authorization_code),
            c.refresh_token@ == opt_or_empty(config.refresh_token),
            c.access_token@ == opt_or_empty(config.access_token),
            c.refresh_token_expiration == now,
            c.access_token_expiration == now,
    {
        Client {
            authorization_code: clone_or_empty(&config.authorization_code),
            refresh_token: clone_or_empty(&config.refresh_token),
            access_token: clone_or_empty(&config.access_token),
            refresh_token_expiration: now,
            access_token_expiration: now,
        }
    }

    /// A credential seeded from the configuration, with both expiration
    /// clocks started at the current wall-clock time.
    pub fn new(config: &Config) -> (c: Client)
        ensures
            c.authorization_code@ == opt_or_empty(config.authorization_code),
            c.refresh_token@ == opt_or_empty(config.refresh_token),
            c.access_token@ == opt_or_empty(config.access_token),
            c.refresh_token_expiration == c.access_token_expiration,
    {
        let now = now_timestamp();
        Client::new_at(config, now)
    }

    /// Adopts the configured authorization code when one is present;
    /// otherwise asks the caller to run the manual flow at the returned
    /// login URL, or reports the missing client identifier.
    pub fn auth(&mut self, config: &Config) -> (r: Result<AuthAction, TdaError>)
        ensures
            config.authorization_code matches Some(code) ==> ({
                &&& (r matches Ok(a) && a matches AuthAction::Adopted)
                &&& final(self).authorization_code@ == code@
                &&& final(self).refresh_token == old(self).refresh_token
                &&& final(self).access_token == old(self).access_token
                &&& final(self).refresh_token_expiration == old(self).refresh_token_expiration
                &&& final(self).access_token_expiration == old(self).access_token_expiration
            }),
            config.authorization_code is None && config.client_id is Some ==> ({
                &&& (r matches Ok(a) && a matches AuthAction::Prompt { url } && url@
                    == auth_url_spec(config.client_id->Some_0@))
                &&& *final(self) == *old(self)
            }),
            config.authorization_code is None && config.client_id is None ==> ({
                &&& (r matches Err(e) && e == TdaError::Configuration)
                &&& *final(self) == *old(self)
            }),
    {
        match &config.authorization_code {
            Option::Some(code) => {
                self.authorization_code = code.clone();
                Ok(AuthAction::Adopted)
            },
            Option::None => match &config.client_id {
                Option::Some(id) => Ok(AuthAction::Prompt { url: auth_url(id.as_str()) }),
                Option::None => Err(TdaError::Configuration),
            },
        }
    }

    /// Stores the code carried by one pasted line of the manual flow:
    /// the line is stripped of the redirect prefix, trimmed and
    /// URL-decoded; a line whose code does not decode is rejected and
    /// leaves the credential unchanged.
    pub fn manual_auth(&mut self, line: String) -> (r: Result<(), TdaError>)
        ensures
            r is Ok ==> ({
                &&& final(self).authorization_code@ == url_decoded(extract_code_spec(line@))
                &&& final(self).refresh_token == old(self).refresh_token
                &&& final(self).access_token == old(self).access_token
                &&& final(self).refresh_token_expiration == old(self).refresh_token_expiration
                &&& final(self).access_token_expiration == old(self).access_token_expiration
            }),
            r matches Err(e) ==> e == TdaError::Input && *final(self) == *old(self),
            !extract_code_spec(line@).contains('%') ==> r is Ok
                && final(self).authorization_code@ == extract_code_spec(line@),
    {
        let code = extract_code(line);
        match url_decode(code.as_str()) {
            Ok(decoded) => {
                self.authorization_code = decoded;
                Ok(())
            },
            Err(_) => Err(TdaError::Input),
        }
    }

    /// The exchange a refresh must perform: the refresh-token grant
    /// exactly when the stored refresh token is non-empty, and never
    /// the authorization-code grant then; the authorization-code grant
    /// otherwise.
    pub fn update_access_token(&self, client_id: &str) -> (r: TokenRequest)
        ensures
            grant_request_for(*self, client_id@, r),
    {
        if !self.refresh_token.as_str().is_empty() {
            self.update_access_token_with_refresh_token(client_id)
        } else {
            self.update_access_token_with_authorization_code(client_id)
        }
    }

    /// The refresh-token grant for this credential.
    pub fn update_access_token_with_refresh_token(&self, client_id: &str) -> (r: TokenRequest)
        ensures
            (r matches TokenRequest::RefreshTokenGrant { refresh_token, client_id: cid }
                && refresh_token@ == self.refresh_token@ && cid@ == qualified_id_spec(client_id@)),
    {
        TokenRequest::RefreshTokenGrant {
            refresh_token: self.refresh_token.clone(),
            client_id: qualified_client_id(client_id),
        }
    }

    /// The authorization-code grant for this credential.
    pub fn update_access_token_with_authorization_code(&self, client_id: &str) -> (r: TokenRequest)
        ensures
            (r matches TokenRequest::AuthorizationCodeGrant { code, client_id: cid } && code@
                == self.authorization_code@ && cid@ == qualified_id_spec(client_id@)),
    {
        TokenRequest::AuthorizationCodeGrant {
            code: self.authorization_code.clone(),
            client_id: qualified_client_id(client_id),
        }
    }

    /// Applies a decoded token reply at time `now`: overwrites the
    /// access token and sets its expiration `expires_in` seconds ahead;
    /// adopts the refresh token and its expiration only when the reply
    /// carries both.
    pub fn apply_token_response(&mut self, response: TokenResponse, now: i64)
        requires
            i64::MIN <= now + response.expires_in <= i64::MAX,
            response.refresh_token_expires_in matches Some(e) ==> i64::MIN <= now + e
                <= i64::MAX,
        ensures
            applied_response(*old(self), response, now as int, *final(self)),
    {
        let TokenResponse {
            access_token,
            expires_in,
            token_type: _,
            scope: _,
            refresh_token,
            refresh_token_expires_in,
        } = response;
        match (refresh_token, refresh_token_expires_in) {
            (Option::Some(rt), Option::Some(e)) => {
                self.refresh_token = rt;
                self.refresh_token_expiration = now + e;
            },
            _ => {},
        }
        self.access_token = access_token;
        self.access_token_expiration = now + expires_in;
    }

    /// The `Authorization` header value of an authenticated call.
    pub fn bearer_header(&self) -> (r: String)
        ensures
            r@ == "Bearer "@ + self.access_token@,
    {
        String::from_str("Bearer ").concat(self.access_token.as_str())
    }

    /// The cash balance reported for this credential: a fixed
    /// placeholder, since parsing the accounts reply is a collaborator
    /// concern outside this crate.
    pub fn get_cash(&self) -> (r: Rational)
        ensures
            r.numer == 100,
            r.denom == 100,
    {
        Rational::new(100, 100)
    }
}

impl Default for Client {
    /// A credential with no tokens, its expiration clocks started at
    /// the current wall-clock time.
    fn default() -> (c: Client)
        ensures
            c.authorization_code@ == Seq::<char>::empty(),
            c.refresh_token@ == Seq::<char>::empty(),
            c.access_token@ == Seq::<char>::empty(),
            c.refresh_token_expiration == c.access_token_expiration,
    {
        let config = Config {
            authorization_code: Option::None,
            refresh_token: Option::None,
            access_token: Option::None,
            client_id: Option::None,
        };
        Client::new(&config)
    }
}

impl TokenRequest {
    /// The form parameters this grant posts to the token endpoint, in
    /// order: the grant type and its credentials; the authorization-code
    /// grant adds offline access and the fixed redirect target.
    pub fn form_params(&self) -> (r: Vec<(String, String)>)
        ensures
            *self matches TokenRequest::RefreshTokenGrant { refresh_token, client_id } ==> ({
                &&& r@.len() == 3
                &&& r@[0].0@ == "grant_type"@ && r@[0].1@ == "refresh_token"@
                &&& r@[1].0@ == "refresh_token"@ && r@[1].1@ == refresh_token@
                &&& r@[2].0@ == "client_id"@ && r@[2].1@ == client_id@
            }),
            *self matches TokenRequest::AuthorizationCodeGrant { code, client_id } ==> ({
                &&& r@.len() == 5
                &&& r@[0].0@ == "grant_type"@ && r@[0].1@ == "authorization_code"@
                &&& r@[1].0@ == "code"@ && r@[1].1@ == code@
                &&& r@[2].0@ == "client_id"@ && r@[2].1@ == client_id@
                &&& r@[3].0@ == "access_type"@ && r@[3].1@ == "offline"@
                &&& r@[4].0@ == "redirect_uri"@ && r@[4].1@ == "http://127.0.0.1"@
            }),
    {
        let mut params: Vec<(String, String)> = Vec::new();
        match self {
            TokenRequest::RefreshTokenGrant { refresh_token, client_id } => {
                params.push((String::from_str("grant_type"), String::from_str("refresh_token")));
                params.push((String::from_str("refresh_token"), refresh_token.clone()));
                params.push((String::from_str("client_id"), client_id.clone()));
            },
            TokenRequest::AuthorizationCodeGrant { code, client_id } => {
                params.push((
                    String::from_str("grant_type"),
                    String::from_str("authorization_code"),
                ));
                params.push((String::from_str("code"), code.clone()));
                params.push((String::from_str("client_id"), client_id.clone()));
                params.push((String::from_str("access_type"), String::from_str("offline")));
                params.push((
                    String::from_str("redirect_uri"),
                    String::from_str("http://127.0.0.1"),
                ));
            },
        }
        params
    }
}

} // verus!
