//! Request-level decisions: which operation a request names, the handle and
//! passphrase in a decrypt path, the text of a request body, and whether a
//! retrieved secret is a URL to redirect to.

use crate::api::DecryptParams;
use crate::service::ServiceError;
use vstd::prelude::*;
use vstd::utf8::{decode_utf8, valid_utf8};

verus! {

/// The operation a request names.
#[derive(Debug, Clone, Copy, PartialEq, Eq, Structural)]
pub enum Route {
    Health,
    Encrypt,
    Decrypt,
    NotFound,
}

/// `GET /health` and `POST /encrypt` name those operations; any path that
/// starts with `/decrypt/` names a decrypt; anything else is not found.
pub open spec fn route_spec(method: Seq<char>, path: Seq<char>) -> Route {
    if method == "GET"@ && path == "/health"@ {
        Route::Health
    } else if method == "POST"@ && path == "/encrypt"@ {
        Route::Encrypt
    } else if "/decrypt/"@.is_prefix_of(path) {
        Route::Decrypt
    } else {
        Route::NotFound
    }
}

/// Whether two strings hold the same characters.
fn same_text(a: &str, b: &str) -> (r: bool)
    ensures
        r == (a@ == b@),
{
    let n = a.unicode_len();
    if n != b.unicode_len() {
        return false;
    }
    let mut i: usize = 0;
    while i < n
        invariant
            n == a@.len(),
            n == b@.len(),
            i <= n,
            forall|j: int| 0 <= j < i ==> a@[j] == b@[j],
        decreases n - i,
    {
        if a.get_char(i) != b.get_char(i) {
            return false;
        }
        i = i + 1;
    }
    assert(a@ =~= b@);
    true
}

/// Whether `s` starts with `prefix`.
fn has_prefix(s: &str, prefix: &str) -> (r: bool)
    ensures
        r == prefix@.is_prefix_of(s@),
{
    let n = prefix.unicode_len();
    if n > s.unicode_len() {
        return false;
    }
    let mut i: usize = 0;
    while i < n
        invariant
            n == prefix@.len(),
            n <= s@.len(),
            i <= n,
            forall|j: int| 0 <= j < i ==> prefix@[j] == s@[j],
        decreases n - i,
    {
        if prefix.get_char(i) != s.get_char(i) {
            assert(prefix@[i as int] != s@.subrange(0, n as int)[i as int]);
            return false;
        }
        i = i + 1;
    }
    assert(prefix@ =~= s@.subrange(0, n as int));
    true
}

/// The operation that a request's method and path name.
pub fn route(method: &str, path: &str) -> (r: Route)
    ensures
        r == route_spec(method@, path@),
{
    if same_text(method, "GET") && same_text(path, "/health") {
        Route::Health
    } else if same_text(method, "POST") && same_text(path, "/encrypt") {
        Route::Encrypt
    } else if has_prefix(path, "/decrypt/") {
        Route::Decrypt
    } else {
        Route::NotFound
    }
}

/// `s` with every leading copy of a non-empty `prefix` taken off.
pub open spec fn trim_prefix_repeated(s: Seq<char>, prefix: Seq<char>) -> Seq<char>
    decreases s.len(),
{
    if prefix.len() > 0 && prefix.is_prefix_of(s) {
        trim_prefix_repeated(s.subrange(prefix.len() as int, s.len() as int), prefix)
    } else {
        s
    }
}

/// Position `i` of `s` holds a `/`, and no other position does.
pub open spec fn only_slash_at(s: Seq<char>, i: int) -> bool {
    &&& 0 <= i < s.len()
    &&& s[i] == '/'
    &&& forall|j: int| 0 <= j < s.len() && j != i ==> s[j] != '/'
}

/// The handle and passphrase of a decrypt path: with every leading
/// `/decrypt/` taken off, what remains must be two parts split by exactly one
/// `/` (either part may be empty).
pub open spec fn decrypt_path_spec(path: Seq<char>) -> Option<(Seq<char>, Seq<char>)> {
    let rest = trim_prefix_repeated(path, "/decrypt/"@);
    if exists|i: int| only_slash_at(rest, i) {
        let i = choose|i: int| only_slash_at(rest, i);
        Some((rest.subrange(0, i), rest.subrange(i + 1, rest.len() as int)))
    } else {
        None
    }
}

/// Reads the handle and passphrase out of a decrypt path.
pub fn decrypt_path_params(path: &str) -> (r: Option<DecryptParams>)
    ensures
        match decrypt_path_spec(path@) {
            Some((id, key)) => r matches Some(p) && p.id@ == id && p.key@ == key,
            None => r is None,
        },
{
    let prefix = "/decrypt/";
    proof {
        reveal_strlit("/decrypt/");
    }
    let mut rest: &str = path;
    while has_prefix(rest, prefix)
        invariant
            prefix@ == "/decrypt/"@,
            prefix@.len() == 9,
            trim_prefix_repeated(rest@, prefix@) == trim_prefix_repeated(path@, prefix@),
        decreases rest@.len(),
    {
        rest = rest.substring_char(9, rest.unicode_len());
    }
    let ghost trimmed = rest@;
    assert(trimmed == trim_prefix_repeated(path@, "/decrypt/"@));
    let n = rest.unicode_len();
    let mut first: Option<usize> = None;
    let mut many = false;
    let mut i: usize = 0;
    while i < n
        invariant
            n == trimmed.len(),
            rest@ == trimmed,
            i <= n,
            match first {
                None => !many && forall|j: int| 0 <= j < i ==> trimmed[j] != '/',
                Some(k) => {
                    &&& k < i
                    &&& trimmed[k as int] == '/'
                    &&& forall|j: int| 0 <= j < k ==> trimmed[j] != '/'
                    &&& !many ==> forall|j: int| k < j < i ==> trimmed[j] != '/'
                    &&& many ==> exists|j: int| k < j < i && trimmed[j] == '/'
                },
            },
        decreases n - i,
    {
        if rest.get_char(i) == '/' {
            match first {
                None => {
                    first = Some(i);
                },
                Some(k) => {
                    many = true;
                    assert(k < i && trimmed[i as int] == '/');
                },
            }
        }
        i = i + 1;
    }
    match first {
        Some(k) => {
            if many {
                assert forall|x: int| !only_slash_at(trimmed, x) by {
                    let j = choose|j: int| k < j < n && trimmed[j] == '/';
                    if only_slash_at(trimmed, x) {
                        assert(x == k as int || trimmed[k as int] != '/');
                        assert(x == j || trimmed[j] != '/');
                    }
                }
                None
            } else {
                assert(only_slash_at(trimmed, k as int));
                assert forall|x: int| only_slash_at(trimmed, x) implies x == k as int by {
                    assert(x == k as int || trimmed[k as int] != '/');
                }
                let id = rest.substring_char(0, k).to_owned();
                let key = rest.substring_char(k + 1, n).to_owned();
                Some(DecryptParams { id, key })
            }
        },
        None => {
            assert forall|x: int| !only_slash_at(trimmed, x) by {
                if 0 <= x < n {
                    assert(trimmed[x] != '/');
                }
            }
            None
        },
    }
}

/// The body of a request.
pub enum RequestBody {
    Text(String),
    Binary(Vec<u8>),
    Empty,
}

/// Why a request body has no text.
#[derive(Debug, Clone, Copy, PartialEq, Eq, Structural)]
pub enum BodyError {
    InvalidUtf8,
    Empty,
}

impl BodyError {
    /// A short description for the caller.
    pub fn message(&self) -> (r: String)
        ensures
            r@ == (match self {
                BodyError::InvalidUtf8 => "Invalid UTF-8"@,
                BodyError::Empty => "Empty body"@,
            }),
    {
        match self {
            BodyError::InvalidUtf8 => "Invalid UTF-8".to_owned(),
            BodyError::Empty => "Empty body".to_owned(),
        }
    }
}

/// Relies on `String::from_utf8`: it succeeds exactly on valid UTF-8, and then
/// holds the characters those bytes encode.
#[verifier::external_body]
fn utf8_string(bytes: &[u8]) -> (r: Option<String>)
    ensures
        r is Some <==> valid_utf8(bytes@),
        r matches Some(s) ==> s@ == decode_utf8(bytes@),
{
    String::from_utf8(bytes.to_vec()).ok()
}

/// The text of a request body: a text body as it is, a binary body where it
/// is valid UTF-8; an empty body has none.
pub fn extract_body_string(body: &RequestBody) -> (r: Result<String, BodyError>)
    ensures
        match body {
            RequestBody::Text(s) => r matches Ok(t) && t@ == s@,
            RequestBody::Binary(b) => if valid_utf8(b@) {
                r matches Ok(t) && t@ == decode_utf8(b@)
            } else {
                r == Err::<String, BodyError>(BodyError::InvalidUtf8)
            },
            RequestBody::Empty => r == Err::<String, BodyError>(BodyError::Empty),
        },
{
    match body {
        RequestBody::Text(s) => Ok(s.clone()),
        RequestBody::Binary(b) => match utf8_string(b.as_slice()) {
            Some(s) => Ok(s),
            None => Err(BodyError::InvalidUtf8),
        },
        RequestBody::Empty => Err(BodyError::Empty),
    }
}

/// What `url::Url::parse` makes of a text: the serialised URL, or `None`
/// where the text is no URL.
pub uninterp spec fn parsed_url(text: Seq<char>) -> Option<Seq<char>>;

/// Relies on `url::Url::parse` and `Url::as_str`: the serialised URL where the
/// text parses, a result fixed by the text alone.
#[verifier::external_body]
fn parse_url(text: &str) -> (r: Option<String>)
    ensures
        match r {
            Some(u) => parsed_url(text@) == Some(u@),
            None => parsed_url(text@) is None,
        },
{
    match url::Url::parse(text) {
        Ok(u) => Some(u.as_str().to_owned()),
        Err(_) => None,
    }
}

/// How to answer a decrypt request.
pub enum DecryptReply {
    /// Redirect to the URL that the secret holds.
    Redirect(String),
    /// The secret was delivered but is no URL.
    NotAUrl,
    /// The retrieve failed.
    Failed(ServiceError),
}

/// The answer for a delivered secret, given what URL parsing made of it.
pub fn redirect_reply(parsed: Option<String>) -> (r: DecryptReply)
    ensures
        match parsed {
            Some(u) => r matches DecryptReply::Redirect(v) && v@ == u@,
            None => r is NotAUrl,
        },
{
    match parsed {
        Some(u) => DecryptReply::Redirect(u),
        None => DecryptReply::NotAUrl,
    }
}

/// The answer to a decrypt request, given the retrieve's outcome: a secret
/// that parses as a URL is redirected to.
pub fn decrypt_reply(outcome: Result<String, ServiceError>) -> (r: DecryptReply)
    ensures
        match outcome {
            Ok(text) => match parsed_url(text@) {
                Some(u) => r matches DecryptReply::Redirect(v) && v@ == u,
                None => r is NotAUrl,
            },
            Err(e) => r == DecryptReply::Failed(e),
        },
{
    match outcome {
        Ok(text) => redirect_reply(parse_url(text.as_str())),
        Err(e) => DecryptReply::Failed(e),
    }
}

} // verus!
