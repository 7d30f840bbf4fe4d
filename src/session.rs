//! What a session knows of the account it acts for, and the requests that
//! the resource fetchers send.

use vstd::prelude::*;
use crate::bookmark::{bookmark_offset, rest_text, BookMarkArgs, Catagory, BOOKMARK_PAGE_SIZE, MAX_BOOKMARK_PAGE};
use crate::error::ErrType;
use crate::headers::{
    api_header_build, api_headers, header_text_ok, header_views, is_header_text, opt_text,
    user_header_ok, user_header_text_ok, DEFAULT_URL,
};
use crate::text::{decimal_string, decimal_text};

verus! {

/// The user agent every request of a session carries.
pub const DEFAULT_USER_AGENT: &'static str = "Mozilla/5.0 (Windows NT 10.0; Win64; x64) AppleWebKit/537.36 (KHTML, like Gecko) Chrome/114.0.0.0 Safari/537.36 Edg/114.0.1823.43";

/// The authenticated account, if any.
#[derive(Clone, Debug)]
pub struct UserInfo {
    pub user_id: Option<String>,
}

/// The parts of a session that decide what is sent: the site's base URL,
/// the account, and whether fetching an illustration demands an account.
#[derive(Clone, Debug)]
pub struct SessionConfig {
    pub server_url: String,
    pub user_info: UserInfo,
    pub require_user_for_illust: bool,
}

/// A GET request of the API: its URL and its headers, in sending order.
#[derive(Clone, Debug)]
pub struct ApiRequest {
    pub url: String,
    pub headers: Vec<(String, String)>,
}

pub open spec fn illust_url(server: Seq<char>, id: Seq<char>) -> Seq<char> {
    server + "/ajax/illust/"@ + id
}

pub open spec fn illust_pages_url(server: Seq<char>, id: Seq<char>) -> Seq<char> {
    server + "/ajax/illust/"@ + id + "/pages"@
}

pub open spec fn artwork_referer(server: Seq<char>, id: Seq<char>) -> Seq<char> {
    server + "/artworks/"@ + id
}

pub open spec fn bookmarks_url(server: Seq<char>, user: Seq<char>) -> Seq<char> {
    server + "/ajax/user/"@ + user + "/illusts/bookmarks"@
}

pub open spec fn bookmarks_referer(server: Seq<char>, user: Seq<char>, page: int) -> Seq<char> {
    server + "/users/"@ + user + "/bookmarks/artworks?p="@ + decimal_text(page)
}

/// `request` is a GET of `url` whose headers are those of an API call with
/// `referer` on behalf of `user_id`.
pub open spec fn is_api_request(
    request: ApiRequest,
    url: Seq<char>,
    referer: Seq<char>,
    user_id: Option<String>,
) -> bool {
    &&& request.url@ == url
    &&& header_views(request.headers@) == api_headers(referer, opt_text(user_id))
}

fn join3(a: &str, b: &str, c: &str) -> (r: String)
    ensures
        r@ == a@ + b@ + c@,
{
    String::from_str(a).concat(b).concat(c)
}

fn invalid_header_text() -> (r: ErrType)
    ensures
        r is Call,
{
    ErrType::Call(String::from_str("a referer or user id holds a character not allowed in a header"))
}

impl SessionConfig {
    /// A configuration for the site's default URL, acting for `user_id`, in
    /// lenient mode.
    pub fn new(user_id: Option<String>) -> (r: SessionConfig)
        ensures
            r.server_url@ == DEFAULT_URL@,
            r.user_info.user_id == user_id,
            !r.require_user_for_illust,
    {
        SessionConfig {
            server_url: String::from_str(DEFAULT_URL),
            user_info: UserInfo { user_id },
            require_user_for_illust: false,
        }
    }

    /// The request for an illustration's metadata. In strict mode a missing
    /// account is refused with a `Call` error before anything is sent, and so
    /// are a referer or user id that cannot be sent as header values.
    pub fn illust_request(&self, illust_id: &String) -> (r: Result<ApiRequest, ErrType>)
        ensures
            r is Err <==> {
                ||| self.require_user_for_illust && self.user_info.user_id is None
                ||| !is_header_text(artwork_referer(self.server_url@, illust_id@))
                ||| !user_header_ok(self.user_info.user_id)
            },
            r is Err ==> r->Err_0 is Call,
            r is Ok ==> is_api_request(
                r->Ok_0,
                illust_url(self.server_url@, illust_id@),
                artwork_referer(self.server_url@, illust_id@),
                self.user_info.user_id,
            ),
    {
        if self.require_user_for_illust && self.user_info.user_id.is_none() {
            return Err(ErrType::Call(String::from_str("an illustration request needs a user id")));
        }
        let url = join3(self.server_url.as_str(), "/ajax/illust/", illust_id.as_str());
        let referer = join3(self.server_url.as_str(), "/artworks/", illust_id.as_str());
        if !header_text_ok(referer.as_str()) || !user_header_text_ok(&self.user_info.user_id) {
            return Err(invalid_header_text());
        }
        let headers = api_header_build(&referer, &self.user_info.user_id);
        Ok(ApiRequest { url, headers })
    }

    /// The request for the pages of a multi-page illustration. A referer or
    /// user id that cannot be sent as header values is refused with a `Call`
    /// error.
    pub fn illust_page_request(&self, illust_id: &String) -> (r: Result<ApiRequest, ErrType>)
        ensures
            r is Err <==> !is_header_text(artwork_referer(self.server_url@, illust_id@))
                || !user_header_ok(self.user_info.user_id),
            r is Err ==> r->Err_0 is Call,
            r is Ok ==> is_api_request(
                r->Ok_0,
                illust_pages_url(self.server_url@, illust_id@),
                artwork_referer(self.server_url@, illust_id@),
                self.user_info.user_id,
            ),
    {
        let url = join3(self.server_url.as_str(), "/ajax/illust/", illust_id.as_str()).concat("/pages");
        let referer = join3(self.server_url.as_str(), "/artworks/", illust_id.as_str());
        if !header_text_ok(referer.as_str()) || !user_header_text_ok(&self.user_info.user_id) {
            return Err(invalid_header_text());
        }
        let headers = api_header_build(&referer, &self.user_info.user_id);
        Ok(ApiRequest { url, headers })
    }

    /// The request for the 1-based `page` of the account's bookmarks of
    /// visibility `cat`, filtered by `tag`, with its query arguments. A page
    /// below 1, a session without an account, or a referer or user id that
    /// cannot be sent as header values, is refused with a `Call` error before
    /// anything is sent.
    pub fn bookmark_request(&self, cat: &Catagory, tag: &String, page: i64) -> (r: Result<(ApiRequest, BookMarkArgs), ErrType>)
        requires
            page <= MAX_BOOKMARK_PAGE,
        ensures
            r is Err <==> {
                ||| page <= 0
                ||| self.user_info.user_id is None
                ||| !is_header_text(
                    bookmarks_referer(
                        self.server_url@,
                        self.user_info.user_id->Some_0@,
                        page as int,
                    ),
                )
                ||| !user_header_ok(self.user_info.user_id)
            },
            r is Err ==> r->Err_0 is Call,
            r is Ok ==> {
                let (request, args) = r->Ok_0;
                let user = self.user_info.user_id->Some_0;
                &&& is_api_request(
                    request,
                    bookmarks_url(self.server_url@, user@),
                    bookmarks_referer(self.server_url@, user@, page as int),
                    self.user_info.user_id,
                )
                &&& args.offset == bookmark_offset(page as int)
                &&& args.limit == BOOKMARK_PAGE_SIZE
                &&& args.rest@ == rest_text(*cat)
                &&& args.tag@ == tag@
            },
    {
        let args = match BookMarkArgs::for_page(cat, tag, page) {
            Ok(a) => a,
            Err(e) => return Err(e),
        };
        let user = match &self.user_info.user_id {
            Some(u) => u,
            None => return Err(ErrType::Call(String::from_str("a bookmark request needs a user id"))),
        };
        let url = join3(self.server_url.as_str(), "/ajax/user/", user.as_str()).concat("/illusts/bookmarks");
        let page_text = decimal_string(page as i128);
        let referer = join3(self.server_url.as_str(), "/users/", user.as_str())
            .concat("/bookmarks/artworks?p=")
            .concat(page_text.as_str());
        if !header_text_ok(referer.as_str()) || !user_header_text_ok(&self.user_info.user_id) {
            return Err(invalid_header_text());
        }
        let headers = api_header_build(&referer, &self.user_info.user_id);
        Ok((ApiRequest { url, headers }, args))
    }
}

} // verus!
