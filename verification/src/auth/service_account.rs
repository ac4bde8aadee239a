//! Service-account credentials with domain-wide delegation.

use crate::auth::oauth2::{pair_views, TokenResponse};
use crate::error::{Error, Result};
use crate::services::gmail::{base64_url_encode, base64url_encoded};
use crate::text::{join_strs, seq_join, str_views};
use vstd::prelude::*;
use vstd::string::StrSliceExecFns;
use vstd::string::StringExecFns;
use vstd::utf8::encode_utf8;

verus! {

/// Google service account credentials.
#[derive(Debug, Clone)]
pub struct ServiceAccountKey {
    pub key_type: String,
    pub project_id: String,
    pub private_key_id: String,
    pub private_key: String,
    pub client_email: String,
    pub client_id: String,
    pub auth_uri: String,
    pub token_uri: String,
    pub auth_provider_x509_cert_url: String,
    pub client_x509_cert_url: String,
}

impl ServiceAccountKey {
    /// Get the service account email.
    pub fn email(&self) -> (r: &str)
        ensures
            r@ == self.client_email@,
    {
        self.client_email.as_str()
    }
}

/// Service account authentication with domain-wide delegation.
#[derive(Debug)]
pub struct ServiceAccountAuth {
    key: ServiceAccountKey,
    subject: Option<String>,
}

impl ServiceAccountAuth {
    /// The key this authenticator signs with.
    pub closed spec fn spec_key(&self) -> ServiceAccountKey {
        self.key
    }

    /// The impersonated user, if any.
    pub closed spec fn spec_subject(&self) -> Option<String> {
        self.subject
    }

    /// Create a new service account authenticator.
    pub fn new(key: ServiceAccountKey) -> (r: Self)
        ensures
            r.spec_key() == key,
            r.spec_subject().is_none(),
    {
        Self { key, subject: None }
    }

    /// Set the subject (impersonated user) for domain-wide delegation.
    pub fn with_subject(self, subject: String) -> (r: Self)
        ensures
            r.spec_key() == self.spec_key(),
            r.spec_subject() == Some(subject),
    {
        let mut s = self;
        s.subject = Some(subject);
        s
    }

    /// The claims of the JWT that asks for an access token for `scopes` at
    /// `now_secs` (Unix seconds): issued by the service account, for the
    /// key's token endpoint, valid for an hour, on behalf of the subject
    /// when one is set.
    pub fn jwt_claims(&self, scopes: &[&str], now_secs: i64) -> (c: JwtClaims)
        requires
            now_secs <= i64::MAX - JWT_LIFETIME_SECS,
        ensures
            c.iss@ == self.spec_key().client_email@,
            c.scope@ == seq_join(str_views(scopes@), " "@),
            c.aud@ == self.spec_key().token_uri@,
            c.iat == now_secs,
            c.exp == now_secs + JWT_LIFETIME_SECS,
            c.sub == self.spec_subject(),
    {
        JwtClaims {
            iss: self.key.client_email.clone(),
            scope: join_strs(scopes, " "),
            aud: self.key.token_uri.clone(),
            iat: now_secs,
            exp: now_secs + JWT_LIFETIME_SECS,
            sub: match &self.subject {
                Some(s) => Some(s.clone()),
                None => None,
            },
        }
    }

    /// The endpoint the signed JWT is posted to.
    pub fn token_endpoint(&self) -> (r: &str)
        ensures
            r@ == self.spec_key().token_uri@,
    {
        self.key.token_uri.as_str()
    }

    /// The signed JWT (the assertion) for the given JSON claims: the
    /// signing input (see `jwt_signing_input`), a dot, and the RS256
    /// signature of the input under the key's private key in unpadded
    /// base64url. A private key that cannot sign RS256 is a configuration
    /// error.
    pub fn jwt_assertion(&self, claims_json: &[u8]) -> (r: Result<String>)
        requires
            claims_json@.len() / 3 * 4 + 4 <= usize::MAX,
        ensures
            match rs256_signature(self.spec_key().private_key@, encode_utf8(jwt_signing_input(claims_json@))) {
                Some(sig) => if sig.len() / 3 * 4 + 4 <= usize::MAX {
                    r matches Ok(a) && a@ == jwt_signing_input(claims_json@) + "."@ + base64url_encoded(sig)
                } else {
                    r matches Err(Error::Other(m)) && m@ == "signature too long to encode"@
                },
                None => r matches Err(Error::Config(m)) && m@ == "invalid service account private key"@,
            },
    {
        proof {
            reveal_strlit("{\"alg\":\"RS256\",\"typ\":\"JWT\"}");
            assert(JWT_HEADER@.len() == 27);
            assert(vstd::utf8::is_ascii_chars(JWT_HEADER@));
            vstd::utf8::is_ascii_chars_encode_utf8(JWT_HEADER@);
        }
        let header = base64_url_encode(JWT_HEADER.as_bytes());
        let claims = base64_url_encode(claims_json);
        let mut input = header;
        input.append(".");
        input.append(claims.as_str());
        assert(input@ == jwt_signing_input(claims_json@));
        match sign_rs256(self.key.private_key.as_str(), input.as_str().as_bytes()) {
            Some(sig) => {
                if sig.len() / 3 > (usize::MAX - 4) / 4 {
                    return Err(Error::Other(String::from_str("signature too long to encode")));
                }
                let encoded = base64_url_encode(sig.as_slice());
                input.append(".");
                input.append(encoded.as_str());
                Ok(input)
            },
            None => Err(Error::Config(String::from_str("invalid service account private key"))),
        }
    }

    /// The form parameters that exchange a signed JWT for an access token.
    pub fn token_request_params(assertion: &str) -> (r: Vec<(String, String)>)
        ensures
            pair_views(r@) == seq![("grant_type"@, JWT_BEARER_GRANT@), ("assertion"@, assertion@)],
    {
        let mut params: Vec<(String, String)> = Vec::new();
        params.push((String::from_str("grant_type"), String::from_str(JWT_BEARER_GRANT)));
        params.push((String::from_str("assertion"), assertion.to_owned()));
        assert(pair_views(params@) =~= seq![("grant_type"@, JWT_BEARER_GRANT@), ("assertion"@, assertion@)]);
        params
    }

    /// The access token of the token endpoint's answer: the token it
    /// returned, or the error the request ended with.
    pub fn token_from_answer(answer: Result<TokenResponse>) -> (r: Result<String>)
        ensures
            match answer {
                Ok(resp) => r == Ok::<String, Error>(resp.access_token),
                Err(e) => r == Err::<String, Error>(e),
            },
    {
        match answer {
            Ok(resp) => Ok(resp.access_token),
            Err(e) => Err(e),
        }
    }
}

/// How long a service-account JWT is valid, in seconds.
pub const JWT_LIFETIME_SECS: i64 = 3600;

/// The JOSE header of an RS256-signed JWT.
pub const JWT_HEADER: &'static str = "{\"alg\":\"RS256\",\"typ\":\"JWT\"}";

/// The OAuth2 grant type of a JWT bearer assertion.
pub const JWT_BEARER_GRANT: &'static str = "urn:ietf:params:oauth:grant-type:jwt-bearer";

/// The claims of a service-account JWT: issuer, requested scopes (space
/// separated), audience (the token endpoint), issue and expiry times in
/// Unix seconds, and the impersonated user.
#[derive(Debug, Clone)]
pub struct JwtClaims {
    pub iss: String,
    pub scope: String,
    pub aud: String,
    pub iat: i64,
    pub exp: i64,
    pub sub: Option<String>,
}

/// The signing input of a JWT with the given JSON claims: the base64url
/// header and claims, joined by a dot.
pub open spec fn jwt_signing_input(claims_json: Seq<u8>) -> Seq<char> {
    base64url_encoded(encode_utf8(JWT_HEADER@)) + "."@ + base64url_encoded(claims_json)
}

/// The RSASSA-PKCS1-v1_5 SHA-256 signature of `message` under the PEM
/// private key `pem`, if that key is an RSA key that can sign.
pub uninterp spec fn rs256_signature(pem: Seq<char>, message: Seq<u8>) -> Option<Seq<u8>>;

/// Signs `message` with RS256 under a PEM private key.
///
/// Parses the first private-key section of the PEM text with
/// `rustls::pki_types::PrivateKeyDer::from_pem_slice`, loads it with
/// `rustls::crypto::ring::sign::any_supported_type`, picks the
/// `RSA_PKCS1_SHA256` scheme and signs; `None` when any step fails. PKCS#1
/// v1.5 signatures are deterministic, so the outcome is named
/// `rs256_signature(pem, message)`, a function of its arguments alone.
#[verifier::external_body]
fn sign_rs256(pem: &str, message: &[u8]) -> (r: Option<Vec<u8>>)
    ensures
        match r {
            Some(sig) => rs256_signature(pem@, message@) == Some(sig@),
            None => rs256_signature(pem@, message@).is_none(),
        },
{
    let der = <rustls::pki_types::PrivateKeyDer<'static> as rustls::pki_types::pem::PemObject>::from_pem_slice(
        pem.as_bytes(),
    ).ok()?;
    let key = rustls::crypto::ring::sign::any_supported_type(&der).ok()?;
    let signer = key.choose_scheme(&[rustls::SignatureScheme::RSA_PKCS1_SHA256])?;
    signer.sign(message).ok()
}

} // verus!
