//! The header sets of API calls and of asset downloads.

use vstd::prelude::*;

verus! {

/// Root URL of the site; also the referer that the asset CDN expects.
pub const DEFAULT_URL: &'static str = "https://www.pixiv.net";

/// A header set in its plain form: (name, value) pairs in sending order.
pub open spec fn header_views(h: Seq<(String, String)>) -> Seq<(Seq<char>, Seq<char>)> {
    h.map_values(|p: (String, String)| (p.0@, p.1@))
}

/// A character that a header value may hold: tab, or any character but a
/// control character below space and DEL (a non-ASCII character is sent as
/// UTF-8, all of whose bytes are allowed).
pub open spec fn is_header_char(c: char) -> bool {
    c == '\t' || (c as u32 >= 32 && c as u32 != 127)
}

/// `s` can be sent as a header value.
pub open spec fn is_header_text(s: Seq<char>) -> bool {
    forall|i: int| 0 <= i < s.len() ==> is_header_char(#[trigger] s[i])
}

/// An absent user id, or one that can be sent as a header value.
pub open spec fn user_header_ok(user_id: Option<String>) -> bool {
    match user_id {
        Some(u) => is_header_text(u@),
        None => true,
    }
}

/// Whether `s` can be sent as a header value.
pub fn header_text_ok(s: &str) -> (r: bool)
    ensures
        r == is_header_text(s@),
{
    let n = s.unicode_len();
    let mut i: usize = 0;
    while i < n
        invariant
            n == s@.len(),
            i <= n,
            forall|j: int| 0 <= j < i ==> is_header_char(#[trigger] s@[j]),
        decreases n - i,
    {
        let c = s.get_char(i);
        if !(c == '\t' || (c as u32 >= 32 && c as u32 != 127)) {
            return false;
        }
        i = i + 1;
    }
    true
}

/// Whether an optional user id can be sent as a header value.
pub fn user_header_text_ok(user_id: &Option<String>) -> (r: bool)
    ensures
        r == user_header_ok(*user_id),
{
    match user_id {
        Some(u) => header_text_ok(u.as_str()),
        None => true,
    }
}

/// The text of an optional string.
pub open spec fn opt_text(o: Option<String>) -> Option<Seq<char>> {
    match o {
        Some(s) => Some(s@),
        None => None,
    }
}

/// The headers of an API call with the given referer: `x-user-id` is sent
/// exactly when a user id is configured.
pub open spec fn api_headers(referer: Seq<char>, user_id: Option<Seq<char>>) -> Seq<(Seq<char>, Seq<char>)> {
    let base = seq![
        ("authority"@, "www.pixiv.net"@),
        ("accept"@, "application/json"@),
        ("accept-language"@, "en-US,en;q=0.5"@),
        ("referer"@, referer),
    ];
    match user_id {
        Some(u) => base.push(("x-user-id"@, u)),
        None => base,
    }
}

/// The headers of an asset download: the referer is the site root whatever
/// the asset.
pub open spec fn download_headers() -> Seq<(Seq<char>, Seq<char>)> {
    seq![
        ("accept"@, "*/*"@),
        ("accept-language"@, "en-US,en;q=0.5"@),
        ("referer"@, DEFAULT_URL@),
    ]
}

/// The value of the first header called `name`, if any.
pub open spec fn header_value(h: Seq<(Seq<char>, Seq<char>)>, name: Seq<char>) -> Option<Seq<char>>
    decreases h.len(),
{
    if h.len() == 0 {
        None
    } else if h[0].0 == name {
        Some(h[0].1)
    } else {
        header_value(h.drop_first(), name)
    }
}

fn header(name: &str, value: &str) -> (r: (String, String))
    ensures
        r.0@ == name@,
        r.1@ == value@,
{
    (String::from_str(name), String::from_str(value))
}

/// The headers of an API call with the given referer, with `x-user-id` when
/// `user_id` is present. Both must be valid header values.
pub fn api_header_build(referer_str: &String, user_id: &Option<String>) -> (r: Vec<(String, String)>)
    requires
        is_header_text(referer_str@),
        user_header_ok(*user_id),
    ensures
        header_views(r@) == api_headers(referer_str@, opt_text(*user_id)),
{
    let mut hdr: Vec<(String, String)> = Vec::new();
    hdr.push(header("authority", "www.pixiv.net"));
    hdr.push(header("accept", "application/json"));
    hdr.push(header("accept-language", "en-US,en;q=0.5"));
    hdr.push(header("referer", referer_str.as_str()));
    match user_id {
        Some(u) => {
            hdr.push(header("x-user-id", u.as_str()));
        },
        None => {},
    }
    assert(header_views(hdr@) =~= api_headers(referer_str@, opt_text(*user_id)));
    hdr
}

/// The headers of an asset download.
pub fn download_header_build() -> (r: Vec<(String, String)>)
    ensures
        header_views(r@) == download_headers(),
{
    let mut hdr: Vec<(String, String)> = Vec::new();
    hdr.push(header("accept", "*/*"));
    hdr.push(header("accept-language", "en-US,en;q=0.5"));
    hdr.push(header("referer", DEFAULT_URL));
    assert(header_views(hdr@) =~= download_headers());
    hdr
}

/// An API call made without a user id carries no `x-user-id` header; one
/// made with a user id carries it with exactly that value.
pub proof fn lemma_user_id_header(referer: Seq<char>, user_id: Option<Seq<char>>)
    ensures
        header_value(api_headers(referer, user_id), "x-user-id"@) == user_id,
{
    reveal_strlit("x-user-id");
    reveal_strlit("authority");
    reveal_strlit("accept");
    reveal_strlit("accept-language");
    reveal_strlit("referer");
    let h = api_headers(referer, user_id);
    let name = "x-user-id"@;
    assert(h[0].0[0] != name[0]);
    assert(h[1].0[0] != name[0]);
    assert(h[2].0[0] != name[0]);
    assert(h[3].0[0] != name[0]);
    let t1 = h.drop_first();
    let t2 = t1.drop_first();
    let t3 = t2.drop_first();
    let t4 = t3.drop_first();
    assert(t1[0] == h[1]);
    assert(t2[0] == h[2]);
    assert(t3[0] == h[3]);
    assert(header_value(h, name) == header_value(t1, name));
    assert(header_value(t1, name) == header_value(t2, name));
    assert(header_value(t2, name) == header_value(t3, name));
    assert(header_value(t3, name) == header_value(t4, name));
    if user_id is Some {
        assert(t4[0] == h[4]);
    } else {
        assert(t4.len() == 0);
    }
}

} // verus!
