//! Who is asking: the bearer token of a request, and the identity and roles
//! its verified claims carry.

use vstd::prelude::*;
use vstd::string::*;
use vstd::slice::slice_subrange;
use vstd::utf8::{decode_utf8, valid_utf8, is_leading_byte_width_1};
use crate::text::texts;
use crate::settings::enums::{Role, role_from_claim};

verus! {

/// The identity a request acts as: the 128-bit value of the user's UUID, and
/// the roles granted.
#[derive(Clone, Debug)]
pub struct AuthContext {
    pub user_id: u128,
    pub roles: Vec<Role>,
}

/// The claims of a token.
#[derive(Clone, Debug)]
pub struct JwtClaims {
    pub sub: String,
    pub roles: Vec<String>,
    pub exp: usize,
    pub iat: usize,
}

/// Why a request could not be authenticated.
#[derive(Clone, Copy, Debug, PartialEq, Eq, Structural)]
pub enum AuthError {
    MissingAuthorizationHeader,
    InvalidAuthorizationHeader,
    InvalidToken,
    ExpiredToken,
    InvalidSubject,
    UnsupportedRoleClaim,
}

/// Why the token validator could not be set up.
#[derive(Clone, Copy, Debug, PartialEq, Eq, Structural)]
pub enum AuthInitError {
    InvalidJwtSecret,
}

impl AuthError {
    /// How this error reads.
    pub fn message(&self) -> (r: &'static str)
        ensures
            r@ == (match self {
                AuthError::MissingAuthorizationHeader => "Missing authorization header"@,
                AuthError::InvalidAuthorizationHeader => "Invalid authorization header"@,
                AuthError::InvalidToken => "Invalid token"@,
                AuthError::ExpiredToken => "Expired token"@,
                AuthError::InvalidSubject => "Invalid token subject"@,
                AuthError::UnsupportedRoleClaim => "Unsupported role claim"@,
            }),
    {
        match self {
            AuthError::MissingAuthorizationHeader => "Missing authorization header",
            AuthError::InvalidAuthorizationHeader => "Invalid authorization header",
            AuthError::InvalidToken => "Invalid token",
            AuthError::ExpiredToken => "Expired token",
            AuthError::InvalidSubject => "Invalid token subject",
            AuthError::UnsupportedRoleClaim => "Unsupported role claim",
        }
    }
}

impl AuthInitError {
    /// How this error reads.
    pub fn message(&self) -> (r: &'static str)
        ensures
            r@ == "Invalid JWT base64 secret"@,
    {
        match self {
            AuthInitError::InvalidJwtSecret => "Invalid JWT base64 secret",
        }
    }
}

/// A header byte that reads as text: visible ASCII or a tab.
pub open spec fn visible_ascii(b: u8) -> bool {
    (32 <= b && b < 127) || b == 9
}

/// The bytes of the scheme prefix "Bearer ".
pub open spec fn bearer_prefix() -> Seq<u8> {
    seq![66u8, 101u8, 97u8, 114u8, 101u8, 114u8, 32u8]
}

/// The header is text and starts with the scheme prefix.
pub open spec fn is_bearer_header(header: Seq<u8>) -> bool {
    &&& forall|i: int| 0 <= i < header.len() ==> visible_ascii(#[trigger] header[i])
    &&& header.len() >= 7
    &&& header.subrange(0, 7) == bearer_prefix()
}

/// A header is a bearer header exactly when every byte is visible ASCII
/// (32 to 126) or a tab and it begins with the bytes of "Bearer ".
pub proof fn lemma_bearer_header_bytes(h: Seq<u8>)
    ensures
        is_bearer_header(h) <==> {
            &&& forall|i: int| 0 <= i < h.len() ==> (32 <= #[trigger] h[i] <= 126 || h[i] == 9)
            &&& h.len() >= 7
            &&& h[0] == 66 && h[1] == 101 && h[2] == 97 && h[3] == 114
            &&& h[4] == 101 && h[5] == 114 && h[6] == 32
        },
{
    if h.len() >= 7 && h[0] == 66 && h[1] == 101 && h[2] == 97 && h[3] == 114 && h[4] == 101
        && h[5] == 114 && h[6] == 32 {
        assert(h.subrange(0, 7) =~= bearer_prefix());
    }
    if h.len() >= 7 && h.subrange(0, 7) == bearer_prefix() {
        assert(h[0] == h.subrange(0, 7)[0]);
        assert(h[1] == h.subrange(0, 7)[1]);
        assert(h[2] == h.subrange(0, 7)[2]);
        assert(h[3] == h.subrange(0, 7)[3]);
        assert(h[4] == h.subrange(0, 7)[4]);
        assert(h[5] == h.subrange(0, 7)[5]);
        assert(h[6] == h.subrange(0, 7)[6]);
    }
}

/// Calls `std::str::from_utf8`, which succeeds exactly on valid UTF-8 and then
/// returns a text with exactly those bytes.
#[verifier::external_body]
fn utf8_str(bytes: &[u8]) -> (r: Option<&str>)
    ensures
        r is Some <==> valid_utf8(bytes@),
        r matches Some(s) ==> s.spec_bytes() == bytes@,
{
    std::str::from_utf8(bytes).ok()
}

/// The token of an `Authorization` header: a missing header, a header that
/// is not visible ASCII, or one without the "Bearer " prefix is refused.
pub fn extract_bearer_token(header: Option<&[u8]>) -> (r: Result<String, AuthError>)
    ensures
        match header {
            None => r == Err::<String, AuthError>(AuthError::MissingAuthorizationHeader),
            Some(h) => if is_bearer_header(h@) {
                r matches Ok(t) && t@ == decode_utf8(h@.subrange(7, h@.len() as int))
            } else {
                r == Err::<String, AuthError>(AuthError::InvalidAuthorizationHeader)
            },
        },
{
    let h = match header {
        Some(h) => h,
        None => return Err(AuthError::MissingAuthorizationHeader),
    };
    let n = h.len();
    let mut i: usize = 0;
    while i < n
        invariant
            header == Some(h),
            n == h@.len(),
            i <= n,
            forall|k: int| 0 <= k < i ==> visible_ascii(#[trigger] h@[k]),
        decreases n - i,
    {
        let b = h[i];
        if !((32u8 <= b && b < 127u8) || b == 9u8) {
            assert(!visible_ascii(h@[i as int]));
            return Err(AuthError::InvalidAuthorizationHeader);
        }
        i = i + 1;
    }
    if n < 7 || h[0] != 66u8 || h[1] != 101u8 || h[2] != 97u8 || h[3] != 114u8 || h[4] != 101u8
        || h[5] != 114u8 || h[6] != 32u8 {
        proof {
            if n >= 7 && h@.subrange(0, 7) == bearer_prefix() {
                assert(h@.subrange(0, 7)[0] == h@[0]);
                assert(h@.subrange(0, 7)[1] == h@[1]);
                assert(h@.subrange(0, 7)[2] == h@[2]);
                assert(h@.subrange(0, 7)[3] == h@[3]);
                assert(h@.subrange(0, 7)[4] == h@[4]);
                assert(h@.subrange(0, 7)[5] == h@[5]);
                assert(h@.subrange(0, 7)[6] == h@[6]);
            }
        }
        return Err(AuthError::InvalidAuthorizationHeader);
    }
    assert(h@.subrange(0, 7) =~= bearer_prefix());
    let rest = slice_subrange(h, 7, n);
    proof {
        let rb = rest@;
        assert forall|k: int| 0 <= k < rb.len() implies #[trigger] is_leading_byte_width_1(rb[k]) by {
            assert(rb[k] == h@[k + 7]);
            assert(visible_ascii(h@[k + 7]));
        }
        assert(rb.subrange(0, 0) =~= Seq::<u8>::empty());
        assert(valid_utf8(Seq::<u8>::empty()));
        vstd::utf8::partial_valid_utf8_extend_ascii_block(rb, 0, rb.len() as int);
        assert(rb.subrange(0, rb.len() as int) =~= rb);
    }
    match utf8_str(rest) {
        Some(s) => {
            proof {
                vstd::utf8::encode_utf8_decode_utf8(s@);
            }
            Ok(s.to_owned())
        },
        None => Err(AuthError::InvalidAuthorizationHeader),
    }
}

/// The 128-bit value of the UUID a text denotes, as `uuid::Uuid::parse_str`
/// reads it, or `None` where it denotes none.
pub uninterp spec fn uuid_from_text(s: Seq<char>) -> Option<u128>;

/// Calls `uuid::Uuid::parse_str` and takes `as_u128` of the result; the
/// outcome is named `uuid_from_text`, a function of the text alone.
#[verifier::external_body]
fn parse_uuid(s: &str) -> (r: Option<u128>)
    ensures
        r == uuid_from_text(s@),
{
    uuid::Uuid::parse_str(s).ok().map(|u| u.as_u128())
}

/// Every role claim names a supported role.
pub open spec fn roles_supported(claims: Seq<Seq<char>>) -> bool {
    forall|i: int| 0 <= i < claims.len() ==> role_from_claim(#[trigger] claims[i]) is Some
}

/// The roles named by role claims, in order.
pub open spec fn claimed_roles(claims: Seq<Seq<char>>) -> Seq<Role> {
    Seq::new(claims.len(), |i: int| role_from_claim(claims[i])->0)
}

/// The identity of verified claims: the subject must be a UUID and every
/// role claim a supported role.
pub fn auth_context_from_claims(claims: &JwtClaims) -> (r: Result<AuthContext, AuthError>)
    ensures
        match r {
            Ok(ctx) => uuid_from_text(claims.sub@) == Some(ctx.user_id) && roles_supported(
                texts(claims.roles@),
            ) && ctx.roles@ == claimed_roles(texts(claims.roles@)),
            Err(e) => if uuid_from_text(claims.sub@) is None {
                e == AuthError::InvalidSubject
            } else {
                !roles_supported(texts(claims.roles@)) && e == AuthError::UnsupportedRoleClaim
            },
        },
{
    let user_id = match parse_uuid(claims.sub.as_str()) {
        Some(u) => u,
        None => return Err(AuthError::InvalidSubject),
    };
    let ghost claimed = texts(claims.roles@);
    let n = claims.roles.len();
    let mut roles: Vec<Role> = Vec::new();
    let mut i: usize = 0;
    while i < n
        invariant
            n == claims.roles@.len(),
            claimed == texts(claims.roles@),
            uuid_from_text(claims.sub@) == Some(user_id),
            i <= n,
            roles@.len() == i,
            forall|k: int| 0 <= k < i ==> role_from_claim(#[trigger] claimed[k]) is Some,
            forall|k: int| 0 <= k < i ==> Some(#[trigger] roles@[k]) == role_from_claim(claimed[k]),
        decreases n - i,
    {
        assert(claimed[i as int] == claims.roles@[i as int]@);
        match Role::from_claim(claims.roles[i].as_str()) {
            Ok(role) => roles.push(role),
            Err(_) => {
                assert(role_from_claim(claimed[i as int]) is None);
                return Err(AuthError::UnsupportedRoleClaim);
            },
        }
        i = i + 1;
    }
    assert(roles@ =~= claimed_roles(claimed));
    Ok(AuthContext { user_id, roles })
}

/// Why a token's signature or claims could not be verified.
#[derive(Clone, Copy, Debug, PartialEq, Eq, Structural)]
pub enum JwtDecodeFailure {
    /// The token has expired.
    ExpiredSignature,
    /// Any other failure: bad signature, malformed token or claims.
    Invalid,
}

/// The identity of a request from the outcome of verifying its token: an
/// expired token and any other verification failure are told apart, and
/// verified claims are checked as `auth_context_from_claims` does.
pub fn auth_context_from_decoded(decoded: Result<JwtClaims, JwtDecodeFailure>) -> (r: Result<
    AuthContext,
    AuthError,
>)
    ensures
        match decoded {
            Err(JwtDecodeFailure::ExpiredSignature) => r == Err::<AuthContext, AuthError>(
                AuthError::ExpiredToken,
            ),
            Err(JwtDecodeFailure::Invalid) => r == Err::<AuthContext, AuthError>(
                AuthError::InvalidToken,
            ),
            Ok(claims) => match r {
                Ok(ctx) => uuid_from_text(claims.sub@) == Some(ctx.user_id) && roles_supported(
                    texts(claims.roles@),
                ) && ctx.roles@ == claimed_roles(texts(claims.roles@)),
                Err(e) => if uuid_from_text(claims.sub@) is None {
                    e == AuthError::InvalidSubject
                } else {
                    !roles_supported(texts(claims.roles@)) && e == AuthError::UnsupportedRoleClaim
                },
            },
        },
{
    match decoded {
        Err(JwtDecodeFailure::ExpiredSignature) => Err(AuthError::ExpiredToken),
        Err(JwtDecodeFailure::Invalid) => Err(AuthError::InvalidToken),
        Ok(claims) => auth_context_from_claims(&claims),
    }
}

/// A signature algorithm, as `jsonwebtoken::Algorithm` lists them.
#[derive(Clone, Copy, Debug, PartialEq, Eq, Structural)]
pub enum JwtAlgorithm {
    HS256,
    HS384,
    HS512,
    ES256,
    ES384,
    RS256,
    RS384,
    RS512,
    PS256,
    PS384,
    PS512,
    EdDSA,
}

/// Whether a text is standard base64 (padded, canonical), as the standard
/// engine of the `base64` crate decodes it.
pub uninterp spec fn base64_secret_accepted(secret: Seq<char>) -> bool;

/// The bytes a standard base64 text decodes to.
pub uninterp spec fn base64_decoded(secret: Seq<char>) -> Seq<u8>;

/// Calls `base64::Engine::decode` with `base64::engine::general_purpose::STANDARD`,
/// the decoding that `jsonwebtoken::DecodingKey::from_base64_secret` applies
/// before keeping the bytes as an HMAC key. It succeeds exactly on the texts
/// named by `base64_secret_accepted`, and then gives `base64_decoded` of the
/// text; both depend on the text alone.
#[verifier::external_body]
fn decode_base64_secret(secret: &str) -> (r: Option<Vec<u8>>)
    ensures
        r is Some <==> base64_secret_accepted(secret@),
        r matches Some(b) ==> b@ == base64_decoded(secret@),
{
    base64::Engine::decode(&base64::engine::general_purpose::STANDARD, secret).ok()
}

/// What a token is verified with: the signature algorithm, whether the
/// expiry claim is checked, and the HMAC key.
pub struct JwtValidator {
    algorithm: JwtAlgorithm,
    validate_exp: bool,
    key_bytes: Vec<u8>,
}

/// (algorithm, expiry checked, key bytes)
pub struct JwtValidatorView {
    pub algorithm: JwtAlgorithm,
    pub validate_exp: bool,
    pub key: Seq<u8>,
}

impl View for JwtValidator {
    type V = JwtValidatorView;

    closed spec fn view(&self) -> JwtValidatorView {
        JwtValidatorView {
            algorithm: self.algorithm,
            validate_exp: self.validate_exp,
            key: self.key_bytes@,
        }
    }
}

impl JwtValidator {
    /// A validator for a base64 secret: HS256, expiry checked, and the key the
    /// secret decodes to. A secret that is not standard base64 is refused with
    /// `InvalidJwtSecret`.
    pub fn new(secret: &str) -> (r: Result<JwtValidator, AuthInitError>)
        ensures
            r is Ok <==> base64_secret_accepted(secret@),
            r matches Err(e) ==> e == AuthInitError::InvalidJwtSecret,
            r matches Ok(v) ==> v@.algorithm == JwtAlgorithm::HS256 && v@.validate_exp && v@.key
                == base64_decoded(secret@),
    {
        match decode_base64_secret(secret) {
            Some(key_bytes) => Ok(
                JwtValidator { algorithm: JwtAlgorithm::HS256, validate_exp: true, key_bytes },
            ),
            None => Err(AuthInitError::InvalidJwtSecret),
        }
    }

    /// The algorithm signatures must use.
    pub fn algorithm(&self) -> (r: JwtAlgorithm)
        ensures
            r == self@.algorithm,
    {
        self.algorithm
    }

    /// Whether the expiry claim is checked.
    pub fn validate_exp(&self) -> (r: bool)
        ensures
            r == self@.validate_exp,
    {
        self.validate_exp
    }

    /// The HMAC key signatures are verified with.
    pub fn key_bytes(&self) -> (r: &[u8])
        ensures
            r@ == self@.key,
    {
        self.key_bytes.as_slice()
    }
}

} // verus!
