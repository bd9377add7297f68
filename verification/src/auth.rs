//! HTTP Basic authentication: reading the `Authorization` header into a
//! username and a password, and turning the password check into the
//! authenticated user or the refusal that the client is answered with.

use vstd::prelude::*;
use vstd::utf8::*;
use vstd::slice::slice_subrange;
use crate::encoding::{base64_standard_decode, decode_base64_standard, string_from_utf8};

verus! {

broadcast use vstd::string::group_string_axioms;

/// The user that a request was authenticated as.
#[derive(Debug, Clone)]
pub struct AuthUser {
    pub user_id: i64,
}

/// Why a request could not be authenticated.
#[derive(Debug, PartialEq, Eq, Structural)]
pub enum AuthError {
    MissingCredentials,
    InvalidHeader,
    InvalidScheme,
    InvalidEncoding,
    InvalidFormat,
    Unauthorized,
    InternalError,
}

/// The username and password carried by a Basic `Authorization` header.
#[derive(Debug, Clone)]
pub struct Credentials {
    pub username: String,
    pub password: String,
}

impl AuthError {
    /// The HTTP status code of the refusal.
    pub open spec fn spec_status(self) -> u16 {
        match self {
            AuthError::InternalError => 500,
            _ => 401,
        }
    }

    /// The HTTP status that a refused request is answered with: every
    /// authentication failure is `401 Unauthorized`, except a failure of the
    /// store, which is `500 Internal Server Error`.
    pub fn status(&self) -> (s: u16)
        ensures
            s == self.spec_status(),
            s == 500 <==> *self == AuthError::InternalError,
            s == 401 <==> *self != AuthError::InternalError,
    {
        match self {
            AuthError::InternalError => 500,
            _ => 401,
        }
    }

    /// The text of the `error` field of the JSON body that a refused request
    /// is answered with.
    pub fn message(&self) -> (m: &'static str)
        ensures
            (*self == AuthError::MissingCredentials || *self == AuthError::InvalidHeader
                || *self == AuthError::InvalidScheme) ==> m@
                == "Missing or malformed Authorization header"@,
            (*self == AuthError::InvalidEncoding || *self == AuthError::InvalidFormat) ==> m@
                == "Invalid credentials format"@,
            *self == AuthError::Unauthorized ==> m@ == "Invalid username or password"@,
            *self == AuthError::InternalError ==> m@ == "Internal server error"@,
    {
        match self {
            AuthError::MissingCredentials | AuthError::InvalidHeader | AuthError::InvalidScheme => {
                "Missing or malformed Authorization header"
            },
            AuthError::InvalidEncoding | AuthError::InvalidFormat => "Invalid credentials format",
            AuthError::Unauthorized => "Invalid username or password",
            AuthError::InternalError => "Internal server error",
        }
    }
}

/// A byte that may stand in a header value read as text: a visible ASCII
/// character, a space, or a horizontal tab.
pub open spec fn is_visible_ascii(b: u8) -> bool {
    (32 <= b && b < 127) || b == 9
}

pub open spec fn all_visible_ascii(h: Seq<u8>) -> bool {
    forall|i: int| 0 <= i < h.len() ==> is_visible_ascii(#[trigger] h[i])
}

/// The bytes of `"Basic "`, the scheme that the header must start with.
pub open spec fn basic_scheme() -> Seq<u8> {
    seq![66u8, 97u8, 115u8, 105u8, 99u8, 32u8]
}

pub open spec fn has_basic_scheme(h: Seq<u8>) -> bool {
    h.len() >= 6 && h.take(6) == basic_scheme()
}

/// `i` is the position of the first `':'` in `s`.
pub open spec fn is_first_colon(s: Seq<char>, i: int) -> bool {
    &&& 0 <= i < s.len()
    &&& s[i] == ':'
    &&& forall|j: int| 0 <= j < i ==> s[j] != ':'
}

/// `s` cut at its first `':'`, which belongs to neither part; `None` where
/// `s` holds no `':'`.
pub open spec fn split_at_first_colon(s: Seq<char>) -> Option<(Seq<char>, Seq<char>)> {
    if exists|i: int| is_first_colon(s, i) {
        let i = choose|i: int| is_first_colon(s, i);
        Some((s.take(i), s.skip(i + 1)))
    } else {
        None
    }
}

/// What reading an `Authorization` header (absent, or its raw bytes) yields:
/// the username and the password, or the first step that fails.
pub open spec fn read_authorization(header: Option<Seq<u8>>) -> Result<
    (Seq<char>, Seq<char>),
    AuthError,
> {
    match header {
        None => Err(AuthError::MissingCredentials),
        Some(h) => if !all_visible_ascii(h) {
            Err(AuthError::InvalidHeader)
        } else if !has_basic_scheme(h) {
            Err(AuthError::InvalidScheme)
        } else {
            read_decoded(base64_standard_decode(h.skip(6)))
        },
    }
}

/// What the Base64-decoded credentials (`None` where Base64 decoding failed)
/// yield: the username and the password, or the first step that fails.
pub open spec fn read_decoded(decoded: Option<Seq<u8>>) -> Result<
    (Seq<char>, Seq<char>),
    AuthError,
> {
    match decoded {
        None => Err(AuthError::InvalidEncoding),
        Some(bytes) => if !valid_utf8(bytes) {
            Err(AuthError::InvalidEncoding)
        } else {
            match split_at_first_colon(decode_utf8(bytes)) {
                None => Err(AuthError::InvalidFormat),
                Some(pair) => Ok(pair),
            }
        },
    }
}

/// The bytes of an optional byte vector.
pub open spec fn bytes_view(bytes: Option<Vec<u8>>) -> Option<Seq<u8>> {
    match bytes {
        Some(b) => Some(b@),
        None => None,
    }
}

/// The bytes of a header that may be absent.
pub open spec fn header_view(header: Option<&[u8]>) -> Option<Seq<u8>> {
    match header {
        Some(h) => Some(h@),
        None => None,
    }
}

/// Whether `r` is what `read_authorization` says of the header.
pub open spec fn matches_reading(
    r: Result<Credentials, AuthError>,
    expected: Result<(Seq<char>, Seq<char>), AuthError>,
) -> bool {
    match expected {
        Ok((u, p)) => r matches Ok(c) && c.username@ == u && c.password@ == p,
        Err(e) => r == Err::<Credentials, AuthError>(e),
    }
}

fn byte_is_visible_ascii(b: u8) -> (r: bool)
    ensures
        r == is_visible_ascii(b),
{
    (b >= 32 && b < 127) || b == 9
}

/// Whether the header value can be read as text (what `HeaderValue::to_str`
/// of the `http` crate accepts).
pub fn header_is_text(h: &[u8]) -> (r: bool)
    ensures
        r == all_visible_ascii(h@),
{
    let mut i: usize = 0;
    while i < h.len()
        invariant
            i <= h@.len(),
            forall|j: int| 0 <= j < i ==> is_visible_ascii(#[trigger] h@[j]),
        decreases h@.len() - i,
    {
        if !byte_is_visible_ascii(h[i]) {
            return false;
        }
        i = i + 1;
    }
    true
}

/// Whether the header value starts with `"Basic "`.
pub fn starts_with_basic_scheme(h: &[u8]) -> (r: bool)
    ensures
        r == has_basic_scheme(h@),
{
    if h.len() < 6 {
        return false;
    }
    let ok = h[0] == 66u8 && h[1] == 97u8 && h[2] == 115u8 && h[3] == 105u8 && h[4] == 99u8
        && h[5] == 32u8;
    proof {
        if ok {
            assert(h@.take(6) =~= basic_scheme());
        } else if h@.take(6) == basic_scheme() {
            assert(h@.take(6)[0] == h@[0]);
            assert(h@.take(6)[1] == h@[1]);
            assert(h@.take(6)[2] == h@[2]);
            assert(h@.take(6)[3] == h@[3]);
            assert(h@.take(6)[4] == h@[4]);
            assert(h@.take(6)[5] == h@[5]);
        }
    }
    ok
}

/// Splits `s` at its first `':'` (as `str::split_once(':')` does).
pub fn split_first_colon(s: &str) -> (r: Option<(String, String)>)
    ensures
        match split_at_first_colon(s@) {
            Some((u, p)) => r matches Some((a, b)) && a@ == u && b@ == p,
            None => r is None,
        },
{
    let n = s.unicode_len();
    let mut idx: usize = 0;
    let mut found = false;
    let mut chars = s.chars();
    while idx < n
        invariant_except_break
            !found,
            vstd::std_specs::iter::IteratorSpec::obeys_prophetic_iter_laws(&chars),
            vstd::std_specs::iter::IteratorSpec::remaining(&chars) == s@.skip(idx as int),
        invariant
            n == s@.len(),
            idx <= n,
            forall|j: int| 0 <= j < idx ==> s@[j] != ':',
        ensures
            n == s@.len(),
            idx <= n,
            forall|j: int| 0 <= j < idx ==> s@[j] != ':',
            found ==> idx < n && s@[idx as int] == ':',
            !found ==> idx == n,
        decreases n - idx,
    {
        let ghost before = vstd::std_specs::iter::IteratorSpec::remaining(&chars);
        let next = chars.next();
        proof {
            assert(before[0] == s@[idx as int]);
        }
        match next {
            Some(c) => {
                if c == ':' {
                    found = true;
                    break;
                }
            },
            None => {
                assert(false);
            },
        }
        proof {
            assert(vstd::std_specs::iter::IteratorSpec::remaining(&chars) =~= s@.skip(idx + 1));
        }
        idx = idx + 1;
    }
    if !found {
        proof {
            assert(idx == n);
            assert(!exists|i: int| is_first_colon(s@, i));
        }
        return None;
    }
    proof {
        assert(is_first_colon(s@, idx as int));
        let i = choose|i: int| is_first_colon(s@, i);
        if i < idx {
        } else if i > idx {
            assert(s@[idx as int] != ':');
        }
        assert(i == idx);
    }
    let user = s.substring_char(0, idx).to_owned();
    let pass = s.substring_char(idx + 1, n).to_owned();
    proof {
        assert(s@.subrange(0, idx as int) =~= s@.take(idx as int));
        assert(s@.subrange(idx + 1, n as int) =~= s@.skip(idx + 1));
    }
    Some((user, pass))
}

/// Reads the username and password out of an `Authorization` header, given
/// its raw bytes, or `None` where the request has no such header. The value
/// must be text, start with `"Basic "`, and continue with standard Base64
/// whose decoded bytes are UTF-8 text holding a `':'`; the text before the
/// first `':'` is the username, the rest the password.
pub fn read_credentials(header: Option<&[u8]>) -> (r: Result<Credentials, AuthError>)
    ensures
        matches_reading(r, read_authorization(header_view(header))),
{
    let h = match header {
        None => return Err(AuthError::MissingCredentials),
        Some(h) => h,
    };
    if !header_is_text(h) {
        return Err(AuthError::InvalidHeader);
    }
    if !starts_with_basic_scheme(h) {
        return Err(AuthError::InvalidScheme);
    }
    let encoded = slice_subrange(h, 6, h.len());
    proof {
        assert(encoded@ =~= h@.skip(6));
    }
    let decoded = match decode_base64_standard(encoded) {
        Ok(d) => Some(d),
        Err(_) => None,
    };
    credentials_from_decoded(decoded)
}

/// Reads the username and password out of the Base64-decoded bytes of a Basic
/// header (`None` where Base64 decoding failed): the bytes must be UTF-8 text
/// holding a `':'`; the text before the first `':'` is the username, the rest
/// the password.
pub fn credentials_from_decoded(decoded: Option<Vec<u8>>) -> (r: Result<Credentials, AuthError>)
    ensures
        matches_reading(r, read_decoded(bytes_view(decoded))),
{
    let decoded = match decoded {
        None => return Err(AuthError::InvalidEncoding),
        Some(d) => d,
    };
    let text = match string_from_utf8(decoded) {
        Ok(t) => t,
        Err(_) => return Err(AuthError::InvalidEncoding),
    };
    match split_first_colon(text.as_str()) {
        None => Err(AuthError::InvalidFormat),
        Some((username, password)) => Ok(Credentials { username, password }),
    }
}

/// The user that a request is authenticated as, given the outcome of
/// checking its credentials against the store (the id of the user whose
/// password matched, `None` where no user matched).
pub fn authenticated(check: Result<Option<i64>, crate::store::StoreError>) -> (r: Result<
    AuthUser,
    AuthError,
>)
    ensures
        match check {
            Ok(Some(id)) => r matches Ok(u) && u.user_id == id,
            Ok(None) => r == Err::<AuthUser, AuthError>(AuthError::Unauthorized),
            Err(_) => r == Err::<AuthUser, AuthError>(AuthError::InternalError),
        },
{
    match check {
        Ok(Some(user_id)) => Ok(AuthUser { user_id }),
        Ok(None) => Err(AuthError::Unauthorized),
        Err(_) => Err(AuthError::InternalError),
    }
}

/// A Basic header built from a user and a password reads back as them: the
/// header `"Basic "` followed by standard Base64 (text, as Base64 always is)
/// of the UTF-8 text `user:password` yields exactly that user and password,
/// provided the user holds no `':'`. The password may hold `':'`: only the
/// first one separates the two.
pub proof fn lemma_basic_header_reads_back(
    encoded: Seq<u8>,
    text: Seq<u8>,
    user: Seq<char>,
    password: Seq<char>,
)
    requires
        all_visible_ascii(encoded),
        base64_standard_decode(encoded) == Some(text),
        valid_utf8(text),
        decode_utf8(text) == user + seq![':'] + password,
        !user.contains(':'),
    ensures
        read_authorization(Some(basic_scheme() + encoded)) == Ok::<
            (Seq<char>, Seq<char>),
            AuthError,
        >((user, password)),
{
    let h = basic_scheme() + encoded;
    assert(h.take(6) =~= basic_scheme());
    assert(h.skip(6) =~= encoded);
    assert forall|i: int| 0 <= i < h.len() implies is_visible_ascii(#[trigger] h[i]) by {
        if i >= 6 {
            assert(h[i] == encoded[i - 6]);
        }
    }
    let s = user + seq![':'] + password;
    let k = user.len() as int;
    assert forall|j: int| 0 <= j < k implies s[j] != ':' by {
        assert(s[j] == user[j]);
    }
    assert(is_first_colon(s, k));
    let i = choose|i: int| is_first_colon(s, i);
    if i < k {
        assert(s[i] == ':');
    } else if i > k {
        assert(s[k] == ':');
    }
    assert(s.take(k) =~= user);
    assert(s.skip(k + 1) =~= password);
}

/// The text check accepts exactly the bytes that may stand in a header
/// value read as text: every byte from space (32) to `~` (126), and the
/// horizontal tab (9); every other byte is refused.
pub proof fn lemma_header_text_is_visible_ascii(h: Seq<u8>)
    ensures
        all_visible_ascii(h) <==> forall|i: int|
            0 <= i < h.len() ==> (32 <= #[trigger] h[i] && h[i] <= 126) || h[i] == 9,
{
}

/// A Basic header whose encoded part is printable ASCII (as every Base64
/// text is, whatever letters it holds) reads back as the user and password
/// it encodes: `"Basic "` followed by bytes from 32 to 126 that decode, as
/// standard Base64, to the UTF-8 text `user:password` yields exactly that
/// user and password, where the user holds no `':'`.
pub proof fn lemma_printable_basic_header_reads_back(
    encoded: Seq<u8>,
    text: Seq<u8>,
    user: Seq<char>,
    password: Seq<char>,
)
    requires
        forall|i: int| 0 <= i < encoded.len() ==> 32 <= #[trigger] encoded[i] && encoded[i] <= 126,
        base64_standard_decode(encoded) == Some(text),
        valid_utf8(text),
        decode_utf8(text) == user + seq![':'] + password,
        !user.contains(':'),
    ensures
        read_authorization(Some(basic_scheme() + encoded)) == Ok::<
            (Seq<char>, Seq<char>),
            AuthError,
        >((user, password)),
{
    assert forall|i: int| 0 <= i < encoded.len() implies is_visible_ascii(#[trigger] encoded[i]) by {
    }
    lemma_basic_header_reads_back(encoded, text, user, password);
}

/// Decoded credentials that are UTF-8 text without any `':'` are refused
/// as badly formatted, whatever their length.
pub proof fn lemma_text_without_colon_is_invalid_format(bytes: Seq<u8>)
    requires
        valid_utf8(bytes),
        !decode_utf8(bytes).contains(':'),
    ensures
        read_decoded(Some(bytes)) == Err::<(Seq<char>, Seq<char>), AuthError>(
            AuthError::InvalidFormat,
        ),
{
    let s = decode_utf8(bytes);
    if exists|i: int| is_first_colon(s, i) {
        let i = choose|i: int| is_first_colon(s, i);
        assert(s[i] == ':');
        assert(s.contains(':'));
    }
}

/// Decoded bytes that are not UTF-8 are refused as badly encoded.
pub proof fn lemma_non_utf8_is_invalid_encoding(bytes: Seq<u8>)
    requires
        !valid_utf8(bytes),
    ensures
        read_decoded(Some(bytes)) == Err::<(Seq<char>, Seq<char>), AuthError>(
            AuthError::InvalidEncoding,
        ),
{
}

/// What decoded credentials yield is always their text cut at its first
/// `':'`: the username holds no `':'`, and username, `':'` and password
/// together are the whole text.
pub proof fn lemma_decoded_credentials_are_the_text(bytes: Seq<u8>, user: Seq<char>, password: Seq<char>)
    requires
        read_decoded(Some(bytes)) == Ok::<(Seq<char>, Seq<char>), AuthError>((user, password)),
    ensures
        valid_utf8(bytes),
        decode_utf8(bytes) == user + seq![':'] + password,
        !user.contains(':'),
{
    let s = decode_utf8(bytes);
    let i = choose|i: int| is_first_colon(s, i);
    assert(user == s.take(i));
    assert(password == s.skip(i + 1));
    assert(s =~= s.take(i) + seq![':'] + s.skip(i + 1));
    if user.contains(':') {
        let j = choose|j: int| 0 <= j < user.len() && user[j] == ':';
        assert(s[j] == ':');
    }
}

/// Reading a header never blames the store nor the password: it only ever
/// refuses for the header's own form, and every refusal is a `401`.
pub proof fn lemma_reading_refuses_only_the_form(header: Option<Seq<u8>>)
    ensures
        read_authorization(header) != Err::<(Seq<char>, Seq<char>), AuthError>(
            AuthError::InternalError,
        ),
        read_authorization(header) != Err::<(Seq<char>, Seq<char>), AuthError>(
            AuthError::Unauthorized,
        ),
        read_authorization(header) matches Err(e) ==> e.spec_status() == 401,
{
}

} // verus!
