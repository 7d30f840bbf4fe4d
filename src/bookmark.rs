//! A user's bookmark listing and the arguments of one page of it.

use vstd::prelude::*;
use crate::error::ErrType;
use crate::ids::{id_text, parse_id, JsonId};

verus! {

/// Number of works on one page of a bookmark listing.
pub const BOOKMARK_PAGE_SIZE: i64 = 48;

/// Largest page number whose offset fits in an `i64`.
pub const MAX_BOOKMARK_PAGE: i64 = 192153584101141163;

/// Which of a user's bookmarks to list.
#[derive(Clone, Copy, Debug, PartialEq, Eq)]
pub enum Catagory {
    Public,
    Private,
}

/// The wire value of a bookmark visibility.
pub open spec fn rest_text(cat: Catagory) -> Seq<char> {
    match cat {
        Catagory::Public => "show"@,
        Catagory::Private => "hide"@,
    }
}

impl Catagory {
    /// The wire value: `show` for public, `hide` for private bookmarks.
    pub fn as_str(&self) -> (r: &'static str)
        ensures
            r@ == rest_text(*self),
    {
        match self {
            Catagory::Public => "show",
            Catagory::Private => "hide",
        }
    }
}

/// Query arguments of one page of a bookmark listing.
#[derive(Clone, Debug)]
pub struct BookMarkArgs {
    pub offset: i64,
    pub limit: i64,
    pub rest: String,
    pub tag: String,
}

/// Offset of the first work of the 1-based `page`.
pub open spec fn bookmark_offset(page: int) -> int {
    (page - 1) * (BOOKMARK_PAGE_SIZE as int)
}

/// Number of pages needed to list `total` works.
pub open spec fn page_count_for(total: int) -> int {
    if total <= 0 {
        0
    } else {
        (total + BOOKMARK_PAGE_SIZE - 1) / (BOOKMARK_PAGE_SIZE as int)
    }
}

impl Default for BookMarkArgs {
    /// The first page of the public bookmarks, without a tag filter.
    fn default() -> (r: BookMarkArgs)
        ensures
            r.offset == 0,
            r.limit == BOOKMARK_PAGE_SIZE,
            r.rest@ == rest_text(Catagory::Public),
            r.tag@ == Seq::<char>::empty(),
    {
        BookMarkArgs {
            offset: 0,
            limit: BOOKMARK_PAGE_SIZE,
            rest: String::from_str(Catagory::Public.as_str()),
            tag: String::new(),
        }
    }
}

impl BookMarkArgs {
    /// The arguments of the 1-based `page` of the bookmarks of visibility
    /// `cat`, filtered by `tag` (empty for no filter). A page below 1 is
    /// refused with a `Call` error.
    pub fn for_page(cat: &Catagory, tag: &String, page: i64) -> (r: Result<BookMarkArgs, ErrType>)
        requires
            page <= MAX_BOOKMARK_PAGE,
        ensures
            page <= 0 <==> r is Err,
            r is Err ==> r->Err_0 is Call,
            r is Ok ==> {
                &&& r->Ok_0.offset == bookmark_offset(page as int)
                &&& r->Ok_0.limit == BOOKMARK_PAGE_SIZE
                &&& r->Ok_0.rest@ == rest_text(*cat)
                &&& r->Ok_0.tag@ == tag@
            },
    {
        if page <= 0 {
            return Err(ErrType::Call(String::from_str("bookmark page must be at least 1")));
        }
        Ok(BookMarkArgs {
            offset: (page - 1) * BOOKMARK_PAGE_SIZE,
            limit: BOOKMARK_PAGE_SIZE,
            rest: String::from_str(cat.as_str()),
            tag: tag.clone(),
        })
    }
}

/// The number of the last page of a listing of `total` works (0 when it is
/// empty).
pub fn last_bookmark_page(total: i64) -> (r: i64)
    ensures
        r == page_count_for(total as int),
{
    if total <= 0 {
        0
    } else {
        total / BOOKMARK_PAGE_SIZE + if total % BOOKMARK_PAGE_SIZE == 0 { 0 } else { 1 }
    }
}

/// Bookmark state of a work.
#[derive(Clone, Debug, Default)]
pub struct BookmarkData {
    pub id: String,
    pub private: bool,
}

/// One work of a bookmark listing.
#[derive(Clone, Debug)]
pub struct Work {
    pub id: JsonId,
    pub title: String,
    pub description: String,
    pub illust_type: i64,
    pub tags: Vec<String>,
    pub user_id: JsonId,
    pub user_name: String,
    pub width: i64,
    pub height: i64,
    pub page_count: i64,
    pub bookmark_data: Option<BookmarkData>,
    pub create_date: String,
    pub update_date: String,
    pub is_unlisted: bool,
    pub is_masked: bool,
    pub ai_type: i64,
}

impl Work {
    /// The work's identifier in string form.
    pub fn id(&self) -> (r: String)
        ensures
            r@ == id_text(self.id),
    {
        parse_id(&self.id)
    }

    /// The owner's identifier in string form.
    pub fn user_id(&self) -> (r: String)
        ensures
            r@ == id_text(self.user_id),
    {
        parse_id(&self.user_id)
    }
}

/// One page of a bookmark listing; `total` counts all pages.
#[derive(Debug)]
pub struct Bookmarks {
    pub works: Vec<Work>,
    pub total: i64,
    pub bookmark_tags: serde_json::Value,
}

} // verus!
