use vstd::prelude::*;
use crate::models::Claims;

verus! {

/// A request whose bearer token was accepted, with the token's claims.
pub struct AuthUser(pub Claims);

/// Why a request was refused by the token guard. Both are answered with
/// status 401.
#[derive(Debug, Clone, Copy, PartialEq, Eq, Structural)]
pub enum AuthRejection {
    /// No `Authorization` header, or one that does not start with `Bearer `.
    MissingToken,
    /// A bearer token that does not decode to valid, unexpired claims.
    InvalidToken,
}

/// The prefix that introduces a bearer token in an `Authorization` header.
pub open spec fn bearer_prefix() -> Seq<char> {
    "Bearer "@
}

/// The token carried by the header text `header`: what follows the prefix
/// `Bearer `, when the header starts with it.
pub open spec fn bearer_token_of(header: Seq<char>) -> Option<Seq<char>> {
    if header.len() >= 7 && header.subrange(0, 7) == bearer_prefix() {
        Some(header.subrange(7, header.len() as int))
    } else {
        None
    }
}

/// The HTTP status of a refusal by the token guard.
pub open spec fn rejection_status() -> u16 {
    401
}

/// The message sent with a refusal by the token guard.
pub open spec fn rejection_text(r: AuthRejection) -> Seq<char> {
    match r {
        AuthRejection::MissingToken => "Token d'authentification manquant ou invalide"@,
        AuthRejection::InvalidToken => "Token invalide ou expiré"@,
    }
}

impl AuthRejection {
    /// The HTTP status of this refusal.
    pub fn status_code(&self) -> (s: u16)
        ensures
            s == rejection_status(),
    {
        401
    }

    /// The error message of this refusal.
    pub fn message(&self) -> (m: String)
        ensures
            m@ == rejection_text(*self),
    {
        match self {
            AuthRejection::MissingToken => "Token d'authentification manquant ou invalide".to_owned(),
            AuthRejection::InvalidToken => "Token invalide ou expiré".to_owned(),
        }
    }
}

/// Extracts the bearer token from the text of the `Authorization` header,
/// if any: the text after `Bearer ` when the header starts with it, and
/// `MissingToken` otherwise (no header, or another scheme).
pub fn bearer_token(header: Option<&str>) -> (r: Result<&str, AuthRejection>)
    ensures
        match header {
            None => r == Err::<&str, AuthRejection>(AuthRejection::MissingToken),
            Some(h) => match bearer_token_of(h@) {
                Some(t) => r is Ok && r->Ok_0@ == t,
                None => r == Err::<&str, AuthRejection>(AuthRejection::MissingToken),
            },
        },
{
    let h = match header {
        None => return Err(AuthRejection::MissingToken),
        Some(h) => h,
    };
    let n = h.unicode_len();
    if n < 7 {
        return Err(AuthRejection::MissingToken);
    }
    let prefix = "Bearer ";
    proof {
        reveal_strlit("Bearer ");
    }
    let mut i: usize = 0;
    while i < 7
        invariant
            0 <= i <= 7,
            header == Some(h),
            n == h@.len(),
            n >= 7,
            prefix@ == bearer_prefix(),
            prefix@.len() == 7,
            forall|j: int| 0 <= j < i ==> h@[j] == prefix@[j],
        decreases 7 - i,
    {
        if h.get_char(i) != prefix.get_char(i) {
            return Err(AuthRejection::MissingToken);
        }
        i = i + 1;
    }
    assert(h@.subrange(0, 7) =~= bearer_prefix());
    Ok(h.substring_char(7, n))
}

impl AuthUser {
    /// The guard's verdict once the token has been decoded: the claims when
    /// decoding succeeded, `InvalidToken` when it failed.
    pub fn from_decoded(decoded: Option<Claims>) -> (r: Result<AuthUser, AuthRejection>)
        ensures
            match decoded {
                Some(c) => r matches Ok(u) && u.0 == c,
                None => r matches Err(e) && e == AuthRejection::InvalidToken,
            },
    {
        match decoded {
            Some(claims) => Ok(AuthUser(claims)),
            None => Err(AuthRejection::InvalidToken),
        }
    }
}

/// A header that starts with `Bearer ` yields exactly the text after it.
pub proof fn lemma_bearer_roundtrip(token: Seq<char>)
    ensures
        bearer_token_of(bearer_prefix() + token) == Some(token),
{
    reveal_strlit("Bearer ");
    let h = bearer_prefix() + token;
    assert(h.subrange(0, 7) =~= bearer_prefix());
    assert(h.subrange(7, h.len() as int) =~= token);
}

/// The token of an accepted header is a suffix that, put back behind the
/// prefix, gives the header again.
pub proof fn lemma_bearer_prefix_restored(header: Seq<char>)
    requires
        bearer_token_of(header) is Some,
    ensures
        bearer_prefix() + bearer_token_of(header)->Some_0 == header,
{
    reveal_strlit("Bearer ");
    assert(bearer_prefix() + header.subrange(7, header.len() as int) =~= header);
}

} // verus!
