use vstd::prelude::*;

verus! {

/// The claims of a verified bearer token.
pub struct TokenPayload {
    pub sub: String,
    pub restaurant_name: String,
    pub table_number: u16,
    pub table_count: u16,
    pub exp: usize,
}

/// The query parameters of an authenticated join.
pub struct WsJwtParams {
    pub group_id: String,
}

/// Who joins and where: the token's claims with the group named in the query.
pub struct AuthData {
    pub token_payload: TokenPayload,
    pub group_id: String,
}

/// The identity an authenticated join request carries.
pub struct JwtExtractor(pub AuthData);

/// Why a join request is turned away before any upgrade.
#[derive(Clone, Copy, Debug, PartialEq, Eq, Structural)]
pub enum AuthFailure {
    /// The group identifier could not be read from the query.
    BadRequest,
    /// No `Authorization` header.
    MissingCredential,
    /// The header is not visible ASCII, or not of the bearer scheme.
    MalformedCredential,
    /// The token's signature, algorithm or expiry did not verify.
    InvalidToken,
}

impl AuthFailure {
    /// The HTTP status of the rejection.
    pub fn status(&self) -> (r: u16)
        ensures
            *self == AuthFailure::BadRequest ==> r == 400,
            *self != AuthFailure::BadRequest ==> r == 401,
    {
        match self {
            AuthFailure::BadRequest => 400,
            _ => 401,
        }
    }

    /// The short reason sent with the rejection.
    pub fn reason(&self) -> (r: &'static str)
        ensures
            *self == AuthFailure::BadRequest ==> r@ == "Invalid query params"@,
            *self == AuthFailure::MissingCredential ==> r@ == "Missing Authorization header"@,
            *self == AuthFailure::MalformedCredential ==> r@ == "Invalid Authorization header"@,
            *self == AuthFailure::InvalidToken ==> r@ == "Invalid token"@,
    {
        match self {
            AuthFailure::BadRequest => "Invalid query params",
            AuthFailure::MissingCredential => "Missing Authorization header",
            AuthFailure::MalformedCredential => "Invalid Authorization header",
            AuthFailure::InvalidToken => "Invalid token",
        }
    }
}

/// A header byte that may stand in a text header value: a visible ASCII
/// character, a space or a tab.
pub open spec fn visible_ascii(b: u8) -> bool {
    b == 9 || (32 <= b && b < 127)
}

/// The bytes of the scheme prefix `Bearer `.
pub open spec fn bearer_prefix() -> Seq<u8> {
    seq![66u8, 101u8, 97u8, 114u8, 101u8, 114u8, 32u8]
}

/// The token that an `Authorization` header value carries, if it is text and
/// of the bearer scheme.
pub open spec fn bearer_token(h: Seq<u8>) -> Option<Seq<u8>> {
    if (forall|i: int| 0 <= i < h.len() ==> visible_ascii(#[trigger] h[i]))
        && h.len() >= 7 && h.subrange(0, 7) == bearer_prefix() {
        Some(h.subrange(7, h.len() as int))
    } else {
        None
    }
}

/// A join request whose parameters and credential are well formed, with the
/// token still to be verified.
pub struct BearerRequest {
    pub params: WsJwtParams,
    pub token: Vec<u8>,
}

/// The secret that tokens are verified with.
pub struct SigningSecret {
    pub value: String,
    /// Set when no secret was configured and the development default is in
    /// use; the caller must warn about it.
    pub is_fallback: bool,
}

/// The well-known secret used when none is configured. Fit for development only.
pub const DEVELOPMENT_SECRET: &'static str = "default_secret_key_for_development_only";

/// Whether every byte of `h` is visible ASCII.
fn all_visible(h: &Vec<u8>) -> (r: bool)
    ensures
        r == forall|i: int| 0 <= i < h@.len() ==> visible_ascii(#[trigger] h@[i]),
{
    let mut i: usize = 0;
    while i < h.len()
        invariant
            0 <= i <= h@.len(),
            forall|j: int| 0 <= j < i ==> visible_ascii(#[trigger] h@[j]),
        decreases h@.len() - i,
    {
        let b = h[i];
        if !(b == 9 || (32 <= b && b < 127)) {
            assert(!visible_ascii(h@[i as int]));
            return false;
        }
        i = i + 1;
    }
    true
}

/// Whether `h` starts with `Bearer `.
fn has_bearer_prefix(h: &Vec<u8>) -> (r: bool)
    ensures
        r == (h@.len() >= 7 && h@.subrange(0, 7) == bearer_prefix()),
{
    if h.len() < 7 {
        return false;
    }
    let r = h[0] == 66 && h[1] == 101 && h[2] == 97 && h[3] == 114 && h[4] == 101 && h[5] == 114
        && h[6] == 32;
    assert(r == (h@.subrange(0, 7) =~= bearer_prefix()));
    r
}

/// The bytes of `h` from `start` on.
fn tail_from(h: &Vec<u8>, start: usize) -> (r: Vec<u8>)
    requires
        start <= h@.len(),
    ensures
        r@ == h@.subrange(start as int, h@.len() as int),
{
    let mut out: Vec<u8> = Vec::new();
    let mut i: usize = start;
    while i < h.len()
        invariant
            start <= i <= h@.len(),
            out@ == h@.subrange(start as int, i as int),
        decreases h@.len() - i,
    {
        out.push(h[i]);
        i = i + 1;
        assert(out@ =~= h@.subrange(start as int, i as int));
    }
    out
}

impl JwtExtractor {
    /// Checks a join request up to the token itself: the group must have been
    /// read from the query, and the `Authorization` header must be present,
    /// visible ASCII, and of the bearer scheme.
    pub fn check_request(query: Option<WsJwtParams>, authorization: Option<Vec<u8>>) -> (r: Result<
        BearerRequest,
        AuthFailure,
    >)
        ensures
            query is None ==> r == Err::<BearerRequest, AuthFailure>(AuthFailure::BadRequest),
            query is Some && authorization is None ==> r == Err::<BearerRequest, AuthFailure>(
                AuthFailure::MissingCredential,
            ),
            query is Some && authorization is Some ==> match bearer_token(authorization->0@) {
                Some(t) => r is Ok && r->Ok_0.params == query->0 && r->Ok_0.token@ == t,
                None => r == Err::<BearerRequest, AuthFailure>(AuthFailure::MalformedCredential),
            },
    {
        let params = match query {
            Some(p) => p,
            None => return Err(AuthFailure::BadRequest),
        };
        let header = match authorization {
            Some(h) => h,
            None => return Err(AuthFailure::MissingCredential),
        };
        if !all_visible(&header) || !has_bearer_prefix(&header) {
            return Err(AuthFailure::MalformedCredential);
        }
        let token = tail_from(&header, 7);
        Ok(BearerRequest { params, token })
    }

    /// Completes the check once the token has been verified: `claims` holds
    /// what verification decoded, or `None` when the signature, algorithm or
    /// expiry was rejected.
    pub fn accept(request: BearerRequest, claims: Option<TokenPayload>) -> (r: Result<
        JwtExtractor,
        AuthFailure,
    >)
        ensures
            match claims {
                Some(c) => r == Ok::<JwtExtractor, AuthFailure>(
                    JwtExtractor(AuthData { token_payload: c, group_id: request.params.group_id }),
                ),
                None => r == Err::<JwtExtractor, AuthFailure>(AuthFailure::InvalidToken),
            },
    {
        match claims {
            Some(token_payload) => Ok(
                JwtExtractor(AuthData { token_payload, group_id: request.params.group_id }),
            ),
            None => Err(AuthFailure::InvalidToken),
        }
    }

    /// The secret to verify tokens with: the configured one, else the
    /// development default, flagged so that the caller warns loudly.
    pub fn signing_secret(configured: Option<String>) -> (r: SigningSecret)
        ensures
            match configured {
                Some(s) => r.value == s && !r.is_fallback,
                None => r.value@ == DEVELOPMENT_SECRET@ && r.is_fallback,
            },
    {
        match configured {
            Some(value) => SigningSecret { value, is_fallback: false },
            None => SigningSecret { value: String::from_str(DEVELOPMENT_SECRET), is_fallback: true },
        }
    }
}

} // verus!
