//! Illustration metadata and the pages of a multi-page illustration.

use vstd::prelude::*;
use crate::bookmark::BookmarkData;
use crate::urls::{download_url, Urls};

verus! {

/// Translated title and caption, as sent by the server.
#[derive(Debug)]
pub struct TitleCaptionTranslation {
    pub work_title: serde_json::Value,
    pub work_caption: serde_json::Value,
}

/// English translation of a tag.
#[derive(Clone, Debug, Default)]
pub struct Translation {
    pub en: String,
}

/// One tag of an illustration.
#[derive(Clone, Debug, Default)]
pub struct Tag {
    pub tag: String,
    pub locked: bool,
    pub deletable: bool,
    pub user_id: Option<String>,
    pub translation: Option<Translation>,
    pub user_name: Option<String>,
}

/// The tag set of an illustration.
#[derive(Clone, Debug, Default)]
pub struct Tags {
    pub author_id: String,
    pub is_locked: bool,
    pub tags: Vec<Tag>,
    pub writable: bool,
}

/// Metadata of one illustration.
#[derive(Debug)]
pub struct Illust {
    pub id: String,
    pub title: String,
    pub description: String,
    pub illust_type: i64,
    pub create_date: String,
    pub upload_date: String,
    pub urls: Urls,
    pub tags: Tags,
    pub alt: String,
    pub user_id: String,
    pub user_name: String,
    pub user_account: String,
    pub like_data: bool,
    pub width: i64,
    pub height: i64,
    pub page_count: i64,
    pub bookmark_count: i64,
    pub like_count: i64,
    pub comment_count: i64,
    pub response_count: i64,
    pub view_count: i64,
    pub is_original: bool,
    pub image_response_count: i64,
    pub is_bookmarkable: bool,
    pub bookmark_data: Option<BookmarkData>,
    pub title_caption_translation: TitleCaptionTranslation,
    pub is_unlisted: bool,
    pub ai_type: i64,
}

/// One page of a multi-page illustration.
#[derive(Clone, Debug, Default)]
pub struct Illusts {
    pub urls: Urls,
    pub width: i64,
    pub height: i64,
}

impl Illust {
    /// The URL to download for this illustration.
    pub fn download_url(&self) -> (r: String)
        ensures
            r@ == download_url(self.urls.original@, self.illust_type),
    {
        self.urls.resolve_download_url(self.illust_type)
    }

    /// The URLs to download for the pages of this illustration, one per page
    /// and in page order.
    pub fn page_download_urls(&self, pages: &Vec<Illusts>) -> (r: Vec<String>)
        ensures
            r@.len() == pages@.len(),
            forall|i: int|
                0 <= i < pages@.len() ==> #[trigger] r@[i]@ == download_url(
                    pages@[i].urls.original@,
                    self.illust_type,
                ),
    {
        page_download_urls(pages, self.illust_type)
    }
}

/// The URLs to download for a page set of content type `illust_type`, one
/// per page and in page order.
pub fn page_download_urls(pages: &Vec<Illusts>, illust_type: i64) -> (r: Vec<String>)
    ensures
        r@.len() == pages@.len(),
        forall|i: int|
            0 <= i < pages@.len() ==> #[trigger] r@[i]@ == download_url(
                pages@[i].urls.original@,
                illust_type,
            ),
{
    let mut out: Vec<String> = Vec::new();
    let mut i: usize = 0;
    while i < pages.len()
        invariant
            i <= pages@.len(),
            out@.len() == i,
            forall|j: int|
                0 <= j < i ==> #[trigger] out@[j]@ == download_url(
                    pages@[j].urls.original@,
                    illust_type,
                ),
        decreases pages@.len() - i,
    {
        out.push(pages[i].urls.resolve_download_url(illust_type));
        i = i + 1;
    }
    out
}

} // verus!
