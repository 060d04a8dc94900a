//! Single-sign-on provider configuration.
//!
//! A provider is one of Google, Apple, Azure or a custom OpenID Connect
//! issuer. Client ids, secrets and issuer URLs are held as their text.

use vstd::prelude::*;
use vstd::utf8::encode_utf8;

use jsonwebtoken::{Algorithm, EncodingKey, Header};
use serde_json::Value;

verus! {

/// Declares `jsonwebtoken::EncodingKey` to Verus; a parsed signing key is
/// carried through opaquely.
#[verifier::external_type_specification]
#[verifier::external_body]
pub struct ExEncodingKey(EncodingKey);

/// The issuer URL of Google accounts.
pub open spec fn google_issuer_url() -> Seq<char> {
    "https://accounts.google.com"@
}

/// The issuer URL of Apple ID.
pub open spec fn apple_issuer_url() -> Seq<char> {
    "https://appleid.apple.com"@
}

/// The issuer URL of an Azure AD tenant.
pub open spec fn azure_issuer_url(tenant: Seq<char>) -> Seq<char> {
    "https://login.microsoftonline.com/"@ + tenant + "/v2.0"@
}

/// Errors of the SSO configuration.
pub enum SsoError {
    /// The configuration holds something unusable.
    ConfigError(String),
    /// An issuer URL does not parse; the parser's message.
    UrlParse(String),
    /// Signing a token failed; the signer's message.
    Jwt(String),
}

/// How the client authenticates itself at the token endpoint.
#[derive(PartialEq, Eq, Structural, Clone, Copy, Debug)]
pub enum AuthType {
    RequestBody,
    BasicAuth,
}

/// The provider-specific part of an SSO provider's configuration.
pub enum SsoInternalProviderConfig {
    Google { client_id: String, client_secret: String },
    Apple { client_id: String, client_secret: String, key_id: String, team_id: String },
    Azure { client_id: String, client_secret: String, tenant: String },
    Custom {
        client_id: String,
        client_secret: String,
        issuer_url: String,
        scopes: Vec<String>,
        role_mappings: Option<Vec<(String, String)>>,
        additional_trusted_audiences: Option<Vec<String>>,
    },
}

/// A configured SSO provider.
pub struct SsoProviderConfig {
    pub name: String,
    pub label: Option<String>,
    pub provider: SsoInternalProviderConfig,
}

/// The texts of a sequence of strings.
pub open spec fn strings_view(v: Seq<String>) -> Seq<Seq<char>> {
    v.map_values(|s: String| s@)
}

/// The texts of a sequence of string pairs.
pub open spec fn pairs_view(v: Seq<(String, String)>) -> Seq<(Seq<char>, Seq<char>)> {
    v.map_values(|p: (String, String)| (p.0@, p.1@))
}

/// The claims of the client secret that Apple expects: a JWT issued by the
/// team for the client, valid from `nbf` until `exp` (Unix seconds).
pub struct AppleIdClaims {
    pub sub: String,
    pub aud: String,
    pub exp: u64,
    pub nbf: u64,
    pub iss: String,
}

/// What `data_encoding::BASE64.decode` gives for `input`: the decoded bytes,
/// or the text of its `DecodeError`.
pub uninterp spec fn base64_decoded(input: Seq<u8>) -> Result<Seq<u8>, Seq<char>>;

/// `None` where `jsonwebtoken::EncodingKey::from_ec_pem` accepts `pem`, else
/// the text of the error that it reports.
pub uninterp spec fn ec_pem_key_error(pem: Seq<u8>) -> Option<Seq<char>>;

/// The PKCS#8 DER of the EC private key that
/// `jsonwebtoken::EncodingKey::from_ec_pem` reads from `pem`.
pub uninterp spec fn ec_pem_key_der(pem: Seq<u8>) -> Seq<u8>;

/// The key bytes that a `jsonwebtoken::EncodingKey` holds.
pub uninterp spec fn encoding_key_der(key: EncodingKey) -> Seq<u8>;

/// Whether `signature` (a Base64url text) is an ES256 signature of `input`
/// that verifies under the public key of the PKCS#8 EC private key
/// `key_der`.
pub uninterp spec fn es256_signature_valid(
    key_der: Seq<u8>,
    input: Seq<char>,
    signature: Seq<char>,
) -> bool;

/// `None` where `openidconnect::IssuerUrl::new` accepts `url`, else the text
/// of the URL parse error that it reports.
pub uninterp spec fn issuer_url_error(url: Seq<char>) -> Option<Seq<char>>;

/// The JWS signing input (`base64url(header) "." base64url(claims)`) that
/// `jsonwebtoken::encode` builds for an ES256 header with key id `key_id`
/// and a JSON object of the Apple claims `sub`, `aud`, `exp`, `nbf`, `iss`,
/// in that order.
pub uninterp spec fn es256_signing_input(
    key_id: Seq<char>,
    sub: Seq<char>,
    aud: Seq<char>,
    exp: u64,
    nbf: u64,
    iss: Seq<char>,
) -> Seq<char>;

/// The bytes, or the error text, of a decoding outcome.
pub open spec fn bytes_or_text(r: Result<Vec<u8>, String>) -> Result<Seq<u8>, Seq<char>> {
    match r {
        Ok(v) => Ok(v@),
        Err(e) => Err(e@),
    }
}

/// A JWS compact token `t` consists of the signing input `input`, a dot,
/// and the signature.
pub open spec fn token_signs(t: Seq<char>, input: Seq<char>) -> bool {
    input.len() < t.len() && t.subrange(0, input.len() as int) == input && t[input.len() as int]
        == '.'
}

/// A JWS compact token `t` over `input`, whose signature verifies as ES256
/// under the key `key_der`.
pub open spec fn es256_token(t: Seq<char>, input: Seq<char>, key_der: Seq<u8>) -> bool {
    token_signs(t, input) && es256_signature_valid(
        key_der,
        input,
        t.subrange(input.len() + 1int, t.len() as int),
    )
}

/// Calls `data_encoding::BASE64.decode`; its result is named by
/// `base64_decoded`, the error by its displayed text.
#[verifier::external_body]
fn base64_decode(input: &[u8]) -> (r: Result<Vec<u8>, String>)
    ensures
        bytes_or_text(r) == base64_decoded(input@),
{
    match data_encoding::BASE64.decode(input) {
        Ok(v) => Ok(v),
        Err(e) => Err(format!("{}", e)),
    }
}

/// Calls `jsonwebtoken::EncodingKey::from_ec_pem`: it fails exactly where
/// `ec_pem_key_error` names an error, with that error's text; the key it
/// returns holds the private key DER read from the PEM.
#[verifier::external_body]
fn ec_key_from_pem(pem: &[u8]) -> (r: Result<EncodingKey, String>)
    ensures
        r is Ok <==> ec_pem_key_error(pem@) is None,
        r matches Err(e) ==> ec_pem_key_error(pem@) == Some(e@),
        r matches Ok(k) ==> encoding_key_der(k) == ec_pem_key_der(pem@),
{
    match EncodingKey::from_ec_pem(pem) {
        Ok(k) => Ok(k),
        Err(e) => Err(format!("{}", e)),
    }
}

/// Calls `openidconnect::IssuerUrl::new` on `url`: it fails exactly where
/// `issuer_url_error` names an error, with that error's text.
#[verifier::external_body]
fn check_issuer_url(url: &str) -> (r: Result<(), String>)
    ensures
        r is Ok <==> issuer_url_error(url@) is None,
        r matches Err(e) ==> issuer_url_error(url@) == Some(e@),
{
    match openidconnect::IssuerUrl::new(url.to_string()) {
        Ok(_) => Ok(()),
        Err(e) => Err(format!("{}", e)),
    }
}

/// Calls `std::time::UNIX_EPOCH.elapsed()`: the whole seconds since the Unix
/// epoch, or `None` where the clock reads a time before it. The value
/// depends on the clock, so nothing is stated of it.
#[verifier::external_body]
fn unix_time_now() -> (r: Option<u64>) {
    match std::time::UNIX_EPOCH.elapsed() {
        Ok(d) => Some(d.as_secs()),
        Err(_) => None,
    }
}

/// Calls `jsonwebtoken::encode` with an ES256 header that carries `key_id`
/// and the claims in a JSON object whose keys keep the order `sub`, `aud`,
/// `exp`, `nbf`, `iss`. On success the token is the signing
/// input named by `es256_signing_input`, a dot, and a signature of that
/// input that verifies under the key. The signer draws a random nonce and
/// may fail (for a key that is not a P-256 key, or when the random source
/// fails); when it fails is not stated, and the error's text is handed back.
#[verifier::external_body]
fn sign_es256(key: &EncodingKey, key_id: &str, claims: &AppleIdClaims) -> (r: Result<String, String>)
    ensures
        r matches Ok(t) ==> {
            let input = es256_signing_input(
                key_id@,
                claims.sub@,
                claims.aud@,
                claims.exp,
                claims.nbf,
                claims.iss@,
            );
            token_signs(t@, input) && es256_signature_valid(
                encoding_key_der(*key),
                input,
                t@.subrange(input.len() + 1int, t@.len() as int),
            )
        },
{
    let mut header = Header::new(Algorithm::ES256);
    header.kid = Some(key_id.to_string());
    let claims_map = serde_json::Map::from_iter([
        ("sub".to_string(), Value::from(claims.sub.as_str())),
        ("aud".to_string(), Value::from(claims.aud.as_str())),
        ("exp".to_string(), Value::from(claims.exp)),
        ("nbf".to_string(), Value::from(claims.nbf)),
        ("iss".to_string(), Value::from(claims.iss.as_str())),
    ]);
    match jsonwebtoken::encode(&header, &claims_map, key) {
        Ok(t) => Ok(t),
        Err(e) => Err(format!("{}", e)),
    }
}

/// A key that occurs twice in `m`, if there is one.
fn first_repeated_key(m: &Vec<(String, String)>) -> (r: Option<String>)
    ensures
        r is None <==> keys_unique(m@),
{
    let mut j: usize = 1;
    while j < m.len()
        invariant
            1 <= j || m.len() == 0,
            j <= m.len() || m.len() == 0,
            forall|a: int, b: int| 0 <= a < b < j && b < m.len() ==> #[trigger] m@[a].0@
                != #[trigger] m@[b].0@,
        decreases m.len() - j,
    {
        let mut i: usize = 0;
        while i < j
            invariant
                i <= j < m.len(),
                forall|a: int| 0 <= a < i ==> #[trigger] m@[a].0@ != m@[j as int].0@,
            decreases j - i,
        {
            if m[i].0 == m[j].0 {
                assert(!keys_unique(m@)) by {
                    assert(m@[i as int].0@ == m@[j as int].0@);
                }
                return Some(m[j].0.clone());
            }
            i = i + 1;
        }
        j = j + 1;
    }
    None
}

/// A copy of a vector of strings.
fn clone_strings(v: &Vec<String>) -> (r: Vec<String>)
    ensures
        r@ == v@,
{
    let mut r: Vec<String> = Vec::new();
    let mut i: usize = 0;
    while i < v.len()
        invariant
            i <= v.len(),
            r@ == v@.subrange(0, i as int),
        decreases v.len() - i,
    {
        r.push(v[i].clone());
        i = i + 1;
    }
    r
}

/// A copy of a vector of string pairs.
fn clone_pairs(v: &Vec<(String, String)>) -> (r: Vec<(String, String)>)
    ensures
        r@ == v@,
{
    let mut r: Vec<(String, String)> = Vec::new();
    let mut i: usize = 0;
    while i < v.len()
        invariant
            i <= v.len(),
            r@ == v@.subrange(0, i as int),
        decreases v.len() - i,
    {
        let a = v[i].0.clone();
        let b = v[i].1.clone();
        r.push((a, b));
        i = i + 1;
    }
    r
}

/// The claims of an Apple client secret minted at `now`: subject the client,
/// audience Apple ID, issuer the team, valid from `now` for ten minutes.
pub fn apple_id_claims(client_id: &str, team_id: &str, now: u64) -> (c: AppleIdClaims)
    requires
        now <= u64::MAX - 600,
    ensures
        c.sub@ == client_id@,
        c.aud@ == apple_issuer_url(),
        c.iss@ == team_id@,
        c.nbf == now,
        c.exp == now + 600,
{
    AppleIdClaims {
        sub: String::from_str(client_id),
        aud: String::from_str("https://appleid.apple.com"),
        exp: now + 600,
        nbf: now,
        iss: String::from_str(team_id),
    }
}

/// The client secret that Apple expects: the configured secret is the
/// Base64 of a PEM EC private key, with which a fresh ES256 JWT is signed.
pub fn apple_client_secret(
    client_secret: &str,
    client_id: &str,
    key_id: &str,
    team_id: &str,
) -> (r: Result<String, SsoError>)
    ensures
        apple_client_secret_outcome(client_secret@, client_id@, key_id@, team_id@, r),
{
    let key_content = match base64_decode(client_secret.as_bytes()) {
        Ok(k) => k,
        Err(e) => {
            return Err(
                SsoError::ConfigError(
                    String::from_str("could not decode base64 client_secret: ").concat(e.as_str()),
                ),
            );
        },
    };
    apple_client_secret_from_pem(key_content.as_slice(), client_id, key_id, team_id)
}

/// The Apple client secret signed with the EC private key in the PEM
/// `key_pem`, at the clock reading taken after the key has been read.
pub fn apple_client_secret_from_pem(
    key_pem: &[u8],
    client_id: &str,
    key_id: &str,
    team_id: &str,
) -> (r: Result<String, SsoError>)
    ensures
        apple_secret_from_pem_outcome(key_pem@, client_id@, key_id@, team_id@, r),
{
    let key = match ec_key_from_pem(key_pem) {
        Ok(k) => k,
        Err(e) => {
            return Err(
                SsoError::ConfigError(
                    String::from_str("could not parse client_secret as a private key: ").concat(
                        e.as_str(),
                    ),
                ),
            );
        },
    };
    apple_client_secret_at(&key, key_id, client_id, team_id, unix_time_now())
}

/// The Apple client secret signed with `key` at the clock reading `now`
/// (whole seconds since the Unix epoch; `None` for a reading before it).
pub fn apple_client_secret_at(
    key: &EncodingKey,
    key_id: &str,
    client_id: &str,
    team_id: &str,
    now: Option<u64>,
) -> (r: Result<String, SsoError>)
    ensures
        apple_secret_at_outcome(encoding_key_der(*key), key_id@, client_id@, team_id@, now, r),
{
    let now = match now {
        Some(t) => t,
        None => {
            return Err(SsoError::ConfigError(String::from_str("the system clock is before 1970")));
        },
    };
    if now > u64::MAX - 600 {
        return Err(SsoError::ConfigError(String::from_str("the system clock is out of range")));
    }
    let claims = apple_id_claims(client_id, team_id, now);
    match sign_es256(key, key_id, &claims) {
        Ok(t) => {
            assert(claims.exp == (now + 600) as u64);
            Ok(t)
        },
        Err(e) => Err(SsoError::Jwt(e)),
    }
}

/// What an Apple client secret signed with the key `key_der` at the clock
/// reading `now` is: a clock error for a reading before 1970 or too close to
/// the end of the `u64` range; otherwise a token over the claims for that
/// reading whose signature verifies under the key, or an error of the
/// signer.
pub open spec fn apple_secret_at_outcome(
    key_der: Seq<u8>,
    key_id: Seq<char>,
    client_id: Seq<char>,
    team_id: Seq<char>,
    now: Option<u64>,
    r: Result<String, SsoError>,
) -> bool {
    match now {
        None => r matches Err(SsoError::ConfigError(s)) && s@ == "the system clock is before 1970"@,
        Some(t) => if t > u64::MAX - 600 {
            r matches Err(SsoError::ConfigError(s)) && s@ == "the system clock is out of range"@
        } else {
            match r {
                Ok(tok) => es256_token(
                    tok@,
                    es256_signing_input(
                        key_id,
                        client_id,
                        apple_issuer_url(),
                        (t + 600) as u64,
                        t,
                        team_id,
                    ),
                    key_der,
                ),
                Err(e) => e is Jwt,
            }
        },
    }
}

/// Two Apple client secrets signed at the same clock reading, with the same
/// key and configuration, that both succeed carry the same header and claims:
/// only their signatures may differ.
pub proof fn law_apple_secrets_at_same_reading_agree(
    key_der: Seq<u8>,
    key_id: Seq<char>,
    client_id: Seq<char>,
    team_id: Seq<char>,
    now: Option<u64>,
    t1: String,
    t2: String,
)
    requires
        apple_secret_at_outcome(key_der, key_id, client_id, team_id, now, Ok(t1)),
        apple_secret_at_outcome(key_der, key_id, client_id, team_id, now, Ok(t2)),
    ensures
        now matches Some(t) && ({
            let input = es256_signing_input(
                key_id,
                client_id,
                apple_issuer_url(),
                (t + 600) as u64,
                t,
                team_id,
            );
            &&& t1@.subrange(0, input.len() + 1int) == t2@.subrange(0, input.len() + 1int)
            &&& t1@.subrange(0, input.len() as int) == input
        }),
{
    let t = now->0;
    let input = es256_signing_input(key_id, client_id, apple_issuer_url(), (t + 600) as u64, t, team_id);
    assert(t1@.subrange(0, input.len() + 1int) =~= input.push('.'));
    assert(t2@.subrange(0, input.len() + 1int) =~= input.push('.'));
}

/// What `apple_client_secret_from_pem` returns: the key error exactly, and
/// otherwise the secret signed with the key at some clock reading.
pub open spec fn apple_secret_from_pem_outcome(
    key_pem: Seq<u8>,
    client_id: Seq<char>,
    key_id: Seq<char>,
    team_id: Seq<char>,
    r: Result<String, SsoError>,
) -> bool {
    match ec_pem_key_error(key_pem) {
        Some(m) => r matches Err(SsoError::ConfigError(s)) && s@
            == "could not parse client_secret as a private key: "@ + m,
        None => exists|now: Option<u64>|
            #[trigger] apple_secret_at_outcome(
                ec_pem_key_der(key_pem),
                key_id,
                client_id,
                team_id,
                now,
                r,
            ),
    }
}

/// What `apple_client_secret` returns: the decoding error exactly, and
/// otherwise what `apple_client_secret_from_pem` returns for the decoded
/// key.
pub open spec fn apple_client_secret_outcome(
    client_secret: Seq<char>,
    client_id: Seq<char>,
    key_id: Seq<char>,
    team_id: Seq<char>,
    r: Result<String, SsoError>,
) -> bool {
    match base64_decoded(encode_utf8(client_secret)) {
        Err(m) => r matches Err(SsoError::ConfigError(s)) && s@
            == "could not decode base64 client_secret: "@ + m,
        Ok(key) => apple_secret_from_pem_outcome(key, client_id, key_id, team_id, r),
    }
}

/// Whether no key occurs twice in a list of pairs.
pub open spec fn keys_unique(m: Seq<(String, String)>) -> bool {
    forall|i: int, j: int| 0 <= i < j < m.len() ==> #[trigger] m[i].0@ != #[trigger] m[j].0@
}

impl SsoInternalProviderConfig {
    /// What a configuration read from a file guarantees: a custom provider's
    /// issuer URL parses, and its role mappings name each provider role once.
    pub open spec fn well_formed(&self) -> bool {
        match self {
            SsoInternalProviderConfig::Custom { issuer_url, role_mappings, .. } => {
                &&& issuer_url_error(issuer_url@) is None
                &&& role_mappings matches Some(m) ==> keys_unique(m@)
            },
            _ => true,
        }
    }

    /// Checks `well_formed`: an unparsable issuer URL gives the parser's
    /// error, a role named twice a configuration error naming it.
    pub fn check_well_formed(&self) -> (r: Result<(), SsoError>)
        ensures
            r is Ok <==> self.well_formed(),
            self matches SsoInternalProviderConfig::Custom { issuer_url, .. } ==> (
            issuer_url_error(issuer_url@) matches Some(m) ==> r matches Err(SsoError::UrlParse(e))
                && e@ == m),
    {
        match self {
            SsoInternalProviderConfig::Custom { issuer_url, role_mappings, .. } => {
                match check_issuer_url(issuer_url.as_str()) {
                    Ok(()) => {},
                    Err(e) => {
                        return Err(SsoError::UrlParse(e));
                    },
                }
                match role_mappings {
                    Some(m) => match first_repeated_key(m) {
                        Some(k) => Err(
                            SsoError::ConfigError(
                                String::from_str("role mapped twice: ").concat(k.as_str()),
                            ),
                        ),
                        None => Ok(()),
                    },
                    None => Ok(()),
                }
            },
            _ => Ok(()),
        }
    }

    /// The display label of the provider kind.
    pub open spec fn spec_label(&self) -> Seq<char> {
        match self {
            SsoInternalProviderConfig::Google { .. } => "Google"@,
            SsoInternalProviderConfig::Apple { .. } => "Apple"@,
            SsoInternalProviderConfig::Azure { .. } => "Azure"@,
            SsoInternalProviderConfig::Custom { .. } => "SSO"@,
        }
    }

    /// How the client authenticates at the token endpoint.
    pub open spec fn spec_auth_type(&self) -> AuthType {
        if self is Apple {
            AuthType::RequestBody
        } else {
            AuthType::BasicAuth
        }
    }

    /// Whether the login flow uses a PKCE verifier.
    pub open spec fn spec_needs_pkce_verifier(&self) -> bool {
        !(self is Apple)
    }

    /// The extra parameters of the authorization request.
    pub open spec fn spec_extra_parameters(&self) -> Seq<(Seq<char>, Seq<char>)> {
        if self is Apple {
            seq![("response_mode"@, "form_post"@)]
        } else {
            Seq::empty()
        }
    }

    /// The configured client id.
    pub open spec fn spec_client_id(&self) -> String {
        match self {
            SsoInternalProviderConfig::Google { client_id, .. } => *client_id,
            SsoInternalProviderConfig::Apple { client_id, .. } => *client_id,
            SsoInternalProviderConfig::Azure { client_id, .. } => *client_id,
            SsoInternalProviderConfig::Custom { client_id, .. } => *client_id,
        }
    }

    /// The configured client secret.
    pub open spec fn spec_client_secret(&self) -> String {
        match self {
            SsoInternalProviderConfig::Google { client_secret, .. } => *client_secret,
            SsoInternalProviderConfig::Apple { client_secret, .. } => *client_secret,
            SsoInternalProviderConfig::Azure { client_secret, .. } => *client_secret,
            SsoInternalProviderConfig::Custom { client_secret, .. } => *client_secret,
        }
    }

    /// Display label of the provider kind.
    pub fn label(&self) -> (r: &'static str)
        ensures
            r@ == self.spec_label(),
    {
        match self {
            SsoInternalProviderConfig::Google { .. } => "Google",
            SsoInternalProviderConfig::Apple { .. } => "Apple",
            SsoInternalProviderConfig::Azure { .. } => "Azure",
            SsoInternalProviderConfig::Custom { .. } => "SSO",
        }
    }

    /// The configured client id.
    pub fn client_id(&self) -> (r: &String)
        ensures
            *r == self.spec_client_id(),
    {
        match self {
            SsoInternalProviderConfig::Google { client_id, .. } => client_id,
            SsoInternalProviderConfig::Apple { client_id, .. } => client_id,
            SsoInternalProviderConfig::Azure { client_id, .. } => client_id,
            SsoInternalProviderConfig::Custom { client_id, .. } => client_id,
        }
    }

    /// The client secret to present: the configured one, except for Apple,
    /// where a JWT is signed with the configured key.
    pub fn client_secret(&self) -> (r: Result<String, SsoError>)
        ensures
            !(self is Apple) ==> (r matches Ok(s) && s@ == self.spec_client_secret()@),
            self matches SsoInternalProviderConfig::Apple {
                client_id,
                client_secret,
                key_id,
                team_id,
            } ==> apple_client_secret_outcome(
                client_secret@,
                client_id@,
                key_id@,
                team_id@,
                r,
            ),
    {
        match self {
            SsoInternalProviderConfig::Google { client_secret, .. } => Ok(client_secret.clone()),
            SsoInternalProviderConfig::Azure { client_secret, .. } => Ok(client_secret.clone()),
            SsoInternalProviderConfig::Custom { client_secret, .. } => Ok(client_secret.clone()),
            SsoInternalProviderConfig::Apple { client_secret, client_id, key_id, team_id } => {
                apple_client_secret(
                    client_secret.as_str(),
                    client_id.as_str(),
                    key_id.as_str(),
                    team_id.as_str(),
                )
            },
        }
    }

    /// The OpenID issuer URL of the provider.
    pub fn issuer_url(&self) -> (r: Result<String, SsoError>)
        ensures
            self is Google ==> (r matches Ok(u) && u@ == google_issuer_url()),
            self is Apple ==> (r matches Ok(u) && u@ == apple_issuer_url()),
            self matches SsoInternalProviderConfig::Azure { tenant, .. } ==> match issuer_url_error(
                azure_issuer_url(tenant@),
            ) {
                None => r matches Ok(u) && u@ == azure_issuer_url(tenant@),
                Some(m) => r matches Err(SsoError::UrlParse(e)) && e@ == m,
            },
            self matches SsoInternalProviderConfig::Custom { issuer_url, .. } ==> (r matches Ok(u)
                && u@ == issuer_url@),
            self.well_formed() && self is Custom ==> (r matches Ok(u) && issuer_url_error(u@) is None),
    {
        match self {
            SsoInternalProviderConfig::Google { .. } => Ok(
                String::from_str("https://accounts.google.com"),
            ),
            SsoInternalProviderConfig::Apple { .. } => Ok(
                String::from_str("https://appleid.apple.com"),
            ),
            SsoInternalProviderConfig::Azure { tenant, .. } => {
                let url = String::from_str("https://login.microsoftonline.com/").concat(
                    tenant.as_str(),
                ).concat("/v2.0");
                match check_issuer_url(url.as_str()) {
                    Ok(()) => Ok(url),
                    Err(e) => Err(SsoError::UrlParse(e)),
                }
            },
            SsoInternalProviderConfig::Custom { issuer_url, .. } => Ok(issuer_url.clone()),
        }
    }

    /// The scopes to request.
    pub fn scopes(&self) -> (r: Vec<String>)
        ensures
            (self is Google || self is Azure) ==> strings_view(r@) == seq!["email"@],
            self is Apple ==> r@.len() == 0,
            self matches SsoInternalProviderConfig::Custom { scopes, .. } ==> r@ == scopes@,
    {
        match self {
            SsoInternalProviderConfig::Google { .. } | SsoInternalProviderConfig::Azure { .. } => {
                let mut v: Vec<String> = Vec::new();
                v.push(String::from_str("email"));
                assert(strings_view(v@) =~= seq!["email"@]);
                v
            },
            SsoInternalProviderConfig::Custom { scopes, .. } => clone_strings(scopes),
            SsoInternalProviderConfig::Apple { .. } => Vec::new(),
        }
    }

    /// Extra parameters of the authorization request.
    pub fn extra_parameters(&self) -> (r: Vec<(String, String)>)
        ensures
            pairs_view(r@) == self.spec_extra_parameters(),
    {
        match self {
            SsoInternalProviderConfig::Apple { .. } => {
                let mut map: Vec<(String, String)> = Vec::new();
                map.push((String::from_str("response_mode"), String::from_str("form_post")));
                assert(pairs_view(map@) =~= seq![("response_mode"@, "form_post"@)]);
                map
            },
            _ => {
                let map: Vec<(String, String)> = Vec::new();
                assert(pairs_view(map@) =~= Seq::empty());
                map
            },
        }
    }

    /// How the client authenticates at the token endpoint.
    pub fn auth_type(&self) -> (r: AuthType)
        ensures
            r == self.spec_auth_type(),
    {
        match self {
            SsoInternalProviderConfig::Apple { .. } => AuthType::RequestBody,
            _ => AuthType::BasicAuth,
        }
    }

    /// Whether the login flow uses a PKCE verifier.
    pub fn needs_pkce_verifier(&self) -> (r: bool)
        ensures
            r == self.spec_needs_pkce_verifier(),
    {
        match self {
            SsoInternalProviderConfig::Apple { .. } => false,
            _ => true,
        }
    }

    /// The configured mapping from provider roles to gateway roles.
    pub fn role_mappings(&self) -> (r: Option<Vec<(String, String)>>)
        ensures
            self matches SsoInternalProviderConfig::Custom { role_mappings, .. } ==> (match role_mappings {
                Some(m) => r matches Some(v) && v@ == m@,
                None => r is None,
            }),
            !(self is Custom) ==> r is None,
            self.well_formed() ==> (r matches Some(v) ==> keys_unique(v@)),
    {
        match self {
            SsoInternalProviderConfig::Custom { role_mappings, .. } => match role_mappings {
                Some(m) => Some(clone_pairs(m)),
                None => None,
            },
            _ => None,
        }
    }

    /// Further audiences that issued tokens may name.
    pub fn additional_trusted_audiences(&self) -> (r: Option<&Vec<String>>)
        ensures
            self matches SsoInternalProviderConfig::Custom { additional_trusted_audiences, .. }
                ==> (match additional_trusted_audiences {
                Some(a) => r matches Some(v) && *v == a,
                None => r is None,
            }),
            !(self is Custom) ==> r is None,
    {
        match self {
            SsoInternalProviderConfig::Custom { additional_trusted_audiences, .. } => {
                match additional_trusted_audiences {
                    Some(a) => Some(a),
                    None => None,
                }
            },
            _ => None,
        }
    }
}

/// A provider's client posts its credentials in the request body exactly
/// when its login flow does without a PKCE verifier.
pub proof fn law_request_body_auth_iff_no_pkce(p: SsoInternalProviderConfig)
    ensures
        (p.spec_auth_type() == AuthType::RequestBody) <==> !p.spec_needs_pkce_verifier(),
{
}

/// A provider's authorization request asks for the `form_post` response mode
/// exactly when its client posts its credentials in the request body; the
/// other providers add no parameters.
pub proof fn law_form_post_iff_request_body_auth(p: SsoInternalProviderConfig)
    ensures
        p.spec_extra_parameters().contains(("response_mode"@, "form_post"@)) <==> (
        p.spec_auth_type() == AuthType::RequestBody),
        p.spec_auth_type() == AuthType::BasicAuth ==> p.spec_extra_parameters().len() == 0,
{
    if p is Apple {
        assert(p.spec_extra_parameters()[0] == ("response_mode"@, "form_post"@));
    }
}

impl SsoProviderConfig {
    /// The label to show: the configured one, else the provider kind's.
    pub fn label(&self) -> (r: &str)
        ensures
            r@ == match self.label {
                Some(l) => l@,
                None => self.provider.spec_label(),
            },
    {
        match &self.label {
            Some(l) => l.as_str(),
            None => self.provider.label(),
        }
    }
}

/// A provider's configuration is refused only for an unparsable issuer URL
/// or a role mapped twice: a custom provider is accepted exactly where its
/// issuer URL parses and its role mappings are absent or give each provider
/// role once (absent role mappings are never a reason to refuse it), and
/// every other provider is accepted. The requirement is what
/// `check_well_formed` states of its result.
pub proof fn law_only_bad_urls_and_repeated_roles_are_refused(
    cfg: SsoInternalProviderConfig,
    r: Result<(), SsoError>,
)
    requires
        r is Ok <==> cfg.well_formed(),
    ensures
        match cfg {
            SsoInternalProviderConfig::Custom { issuer_url, role_mappings, .. } => (r is Ok) == (
            issuer_url_error(issuer_url@) is None && match role_mappings {
                None => true,
                Some(m) => forall|i: int, j: int|
                    0 <= i < j < m@.len() ==> m@[i].0@ != m@[j].0@,
            }),
            _ => r is Ok,
        },
{
}

} // verus!
