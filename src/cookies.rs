//! Adding a `Set-Cookie` string to a session's cookie jar.

use vstd::prelude::*;
use crate::text::prefix_before;

verus! {

/// The cookie crate's parsed `Set-Cookie` value.
#[verifier::external_type_specification]
#[verifier::external_body]
pub struct ExRawCookie<'c>(cookie::Cookie<'c>);

/// The cookie crate's error for a malformed cookie string.
#[verifier::external_type_specification]
#[verifier::external_body]
pub struct ExRawCookieParseError(cookie::ParseError);

/// A cookie scoped to the URL it was received from, as the jar keeps it.
#[verifier::external_type_specification]
#[verifier::external_body]
pub struct ExStoredCookie<'a>(cookie_store::Cookie<'a>);

/// Why the jar refused a cookie.
#[verifier::external_type_specification]
#[verifier::external_body]
pub struct ExCookieStoreError(cookie_store::CookieError);

/// The cookie jar.
#[verifier::external_type_specification]
#[verifier::external_body]
pub struct ExCookieStore(cookie_store::CookieStore);

/// A parsed URL.
#[verifier::external_type_specification]
#[verifier::external_body]
pub struct ExUrl(reqwest::Url);

/// The cookies that a jar holds, expired ones included: the value of each,
/// by its (domain, path, name).
pub uninterp spec fn jar_cookies(jar: cookie_store::CookieStore) -> Map<(Seq<char>, Seq<char>, Seq<char>), Seq<char>>;

/// Unicode white space, as `str::trim` strips it.
pub open spec fn is_white_space(c: char) -> bool {
    let n = c as u32;
    ||| 9 <= n <= 13
    ||| n == 32
    ||| n == 0x85
    ||| n == 0xa0
    ||| n == 0x1680
    ||| 0x2000 <= n <= 0x200a
    ||| n == 0x2028
    ||| n == 0x2029
    ||| n == 0x202f
    ||| n == 0x205f
    ||| n == 0x3000
}

/// The first attribute of a `Set-Cookie` value (everything before the first
/// `;`) holds an `=`, and the text before that `=` is not blank: it names a
/// cookie.
pub open spec fn names_a_cookie(cookie_str: Seq<char>) -> bool {
    let first = prefix_before(cookie_str, seq![';']);
    let name = prefix_before(first, seq!['=']);
    &&& first.contains('=')
    &&& exists|i: int| 0 <= i < name.len() && !is_white_space(#[trigger] name[i])
}

/// What an accepted cookie did to the jar.
#[derive(Clone, Copy, Debug, PartialEq, Eq)]
pub enum CookieAction {
    /// Added under a key the jar did not hold.
    Inserted,
    /// Replaced the cookie held under the same key.
    Updated,
    /// Was already expired, and expired the unexpired cookie held under the
    /// same key.
    ExpiredExisting,
}

/// A cookie as the jar keys it: its (domain, path, name) and its value.
#[derive(Clone, Debug)]
pub struct StoredCookie {
    pub domain: String,
    pub path: String,
    pub name: String,
    pub value: String,
}

pub open spec fn cookie_key(c: StoredCookie) -> (Seq<char>, Seq<char>, Seq<char>) {
    (c.domain@, c.path@, c.name@)
}

/// The jar went from `before` to `after` by accepting `cookie` with
/// `action`.
pub open spec fn insert_outcome(
    before: Map<(Seq<char>, Seq<char>, Seq<char>), Seq<char>>,
    after: Map<(Seq<char>, Seq<char>, Seq<char>), Seq<char>>,
    action: CookieAction,
    cookie: StoredCookie,
) -> bool {
    let k = cookie_key(cookie);
    match action {
        CookieAction::Inserted => !before.contains_key(k) && after == before.insert(k, cookie.value@),
        CookieAction::Updated => before.contains_key(k) && after == before.insert(k, cookie.value@),
        CookieAction::ExpiredExisting => before.contains_key(k) && after == before,
    }
}

/// Why a cookie string was not added to the jar.
#[derive(Debug)]
pub enum CookieFailure {
    /// The string is not a well-formed `Set-Cookie` value.
    Parse(cookie::ParseError),
    /// The cookie cannot be scoped to the URL (domain mismatch, non-HTTP
    /// scheme), or is already expired.
    Rejected(cookie_store::CookieError),
}

/// Relies on cookie::Cookie::parse, which reads a `Set-Cookie` value without
/// percent-decoding it, and fails exactly when the first attribute has no
/// `=` (`MissingPair`) or the name before it trims to nothing (`EmptyName`).
#[verifier::external_body]
fn parse_raw_cookie(cookie_str: &str) -> (r: Result<cookie::Cookie<'static>, cookie::ParseError>)
    ensures
        r is Ok <==> names_a_cookie(cookie_str@),
{
    cookie::Cookie::parse(cookie_str.to_string())
}

/// Relies on cookie_store::Cookie::try_from_raw_cookie, which scopes a parsed
/// cookie to the URL it came from.
#[verifier::external_body]
fn scope_cookie(raw: &cookie::Cookie<'static>, url: &reqwest::Url) -> (r: Result<cookie_store::Cookie<'static>, cookie_store::CookieError>) {
    cookie_store::Cookie::try_from_raw_cookie(raw, url)
}

/// Relies on cookie_store::CookieStore::insert, which keys a cookie by
/// `String::from(&domain)`, `String::from(&path)` and its name: a refusal
/// returns before the jar is touched; `Inserted` and `UpdatedExisting` store
/// the cookie under its key; `ExpiredExisting` only marks the cookie held
/// under that key expired.
#[verifier::external_body]
fn insert_cookie(jar: &mut cookie_store::CookieStore, cookie: cookie_store::Cookie<'static>, url: &reqwest::Url) -> (r: (Result<CookieAction, cookie_store::CookieError>, StoredCookie))
    ensures
        r.0 is Err ==> jar_cookies(*final(jar)) == jar_cookies(*old(jar)),
        r.0 is Ok ==> insert_outcome(jar_cookies(*old(jar)), jar_cookies(*final(jar)), r.0->Ok_0, r.1),
{
    let stored = StoredCookie {
        domain: String::from(&cookie.domain),
        path: String::from(&cookie.path),
        name: cookie.name().to_string(),
        value: cookie.value().to_string(),
    };
    let action = match jar.insert(cookie, url) {
        Ok(cookie_store::StoreAction::Inserted) => Ok(CookieAction::Inserted),
        Ok(cookie_store::StoreAction::UpdatedExisting) => Ok(CookieAction::Updated),
        Ok(cookie_store::StoreAction::ExpiredExisting) => Ok(CookieAction::ExpiredExisting),
        Err(e) => Err(e),
    };
    (action, stored)
}

/// Parses `cookie_str` and adds it to `jar`, scoped to `url`. A string that
/// names no cookie fails with `Parse`; a cookie the jar refuses fails with
/// `Rejected`; either way the jar is left as it was. An accepted cookie is
/// held afterwards under the returned key, and no other cookie changes.
pub fn add_cookie(jar: &mut cookie_store::CookieStore, cookie_str: &str, url: &reqwest::Url) -> (r: Result<(CookieAction, StoredCookie), CookieFailure>)
    ensures
        (r matches Err(CookieFailure::Parse(_))) <==> !names_a_cookie(cookie_str@),
        r is Err ==> jar_cookies(*final(jar)) == jar_cookies(*old(jar)),
        r is Ok ==> {
            let (action, stored) = r->Ok_0;
            &&& names_a_cookie(cookie_str@)
            &&& insert_outcome(jar_cookies(*old(jar)), jar_cookies(*final(jar)), action, stored)
            &&& jar_cookies(*final(jar)).contains_key(cookie_key(stored))
        },
{
    let raw = match parse_raw_cookie(cookie_str) {
        Ok(c) => c,
        Err(e) => return Err(CookieFailure::Parse(e)),
    };
    let scoped = match scope_cookie(&raw, url) {
        Ok(c) => c,
        Err(e) => return Err(CookieFailure::Rejected(e)),
    };
    let (action, stored) = insert_cookie(jar, scoped, url);
    match action {
        Ok(a) => Ok((a, stored)),
        Err(e) => Err(CookieFailure::Rejected(e)),
    }
}

/// Two accepted insertions of cookies with different keys, one after the
/// other, lose no update: both cookies are in the jar afterwards, each with
/// its own value unless it only expired an existing one, every cookie held
/// before is still held, and when both stored their cookie the jar is the
/// same whichever went first.
pub proof fn lemma_insertions_keep_cookies(
    before: cookie_store::CookieStore,
    between: cookie_store::CookieStore,
    after: cookie_store::CookieStore,
    first_action: CookieAction,
    first: StoredCookie,
    second_action: CookieAction,
    second: StoredCookie,
)
    requires
        insert_outcome(jar_cookies(before), jar_cookies(between), first_action, first),
        insert_outcome(jar_cookies(between), jar_cookies(after), second_action, second),
        cookie_key(first) != cookie_key(second),
    ensures
        jar_cookies(after).contains_key(cookie_key(first)),
        jar_cookies(after).contains_key(cookie_key(second)),
        jar_cookies(before).dom().subset_of(jar_cookies(after).dom()),
        first_action != CookieAction::ExpiredExisting ==> jar_cookies(after)[cookie_key(first)] == first.value@,
        second_action != CookieAction::ExpiredExisting ==> jar_cookies(after)[cookie_key(second)] == second.value@,
        first_action != CookieAction::ExpiredExisting && second_action != CookieAction::ExpiredExisting
            ==> jar_cookies(after) == jar_cookies(before).insert(cookie_key(second), second.value@).insert(
            cookie_key(first),
            first.value@,
        ),
{
    let b = jar_cookies(before);
    let k1 = cookie_key(first);
    let k2 = cookie_key(second);
    if first_action != CookieAction::ExpiredExisting && second_action != CookieAction::ExpiredExisting {
        assert(jar_cookies(after) =~= b.insert(k2, second.value@).insert(k1, first.value@));
    }
}

} // verus!
