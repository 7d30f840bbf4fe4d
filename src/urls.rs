//! Asset URLs of a work, and the rewrite that turns the first preview frame of
//! an animated work into the URL of its frame archive.

use vstd::prelude::*;
use crate::text::{prefix_before, prefix_before_text, replace_all, replace_text};

verus! {

/// Content-type flag of a still image.
pub const ILLUST_TYPE_ILLUST: i64 = 0;

/// Content-type flag of a multi-page work.
pub const ILLUST_TYPE_MANGA: i64 = 1;

/// Content-type flag of an animated ("ugoira") work.
pub const ILLUST_TYPE_UGOIRA: i64 = 2;

/// The CDN URLs of one image. `original` is the one to download.
#[derive(Clone, Debug, Default)]
pub struct Urls {
    pub mini: Option<String>,
    pub thumb: Option<String>,
    pub thumb_mini: Option<String>,
    pub small: String,
    pub regular: String,
    pub original: String,
}

/// The frame-archive URL of an animated work, derived from the URL of its
/// first preview frame: the `/img-original/` segment becomes
/// `/img-zip-ugoira/`, everything from the first `_ugoira0` on is dropped
/// (nothing is dropped when the marker is absent), and
/// `_ugoira1920x1080.zip` is appended.
pub open spec fn ugoira_zip_url(orig: Seq<char>) -> Seq<char> {
    prefix_before(replace_all(orig, "/img-original/"@, "/img-zip-ugoira/"@), "_ugoira0"@)
        + "_ugoira1920x1080.zip"@
}

/// The URL to download for a work of content type `illust_type` whose
/// declared original is `orig`.
pub open spec fn download_url(orig: Seq<char>, illust_type: i64) -> Seq<char> {
    if illust_type == ILLUST_TYPE_UGOIRA {
        ugoira_zip_url(orig)
    } else {
        orig
    }
}

/// Derives the frame-archive URL of an animated work from the URL of its
/// first preview frame.
pub fn ugoira_url_parse(orig: &String) -> (r: String)
    ensures
        r@ == ugoira_zip_url(orig@),
{
    proof {
        reveal_strlit("/img-original/");
    }
    let replaced = replace_text(orig.as_str(), "/img-original/", "/img-zip-ugoira/");
    let prefix = prefix_before_text(replaced.as_str(), "_ugoira0");
    prefix.concat("_ugoira1920x1080.zip")
}

impl Urls {
    /// Rewrites `original` in place to the frame-archive URL; the other
    /// fields are kept.
    pub fn replace_ugoira_url(&mut self)
        ensures
            final(self).original@ == ugoira_zip_url(old(self).original@),
            final(self).mini == old(self).mini,
            final(self).thumb == old(self).thumb,
            final(self).thumb_mini == old(self).thumb_mini,
            final(self).small == old(self).small,
            final(self).regular == old(self).regular,
    {
        self.original = ugoira_url_parse(&self.original);
    }

    /// The URL to download: `original` itself, or its frame-archive URL for
    /// an animated work.
    pub fn resolve_download_url(&self, illust_type: i64) -> (r: String)
        ensures
            r@ == download_url(self.original@, illust_type),
    {
        if illust_type == ILLUST_TYPE_UGOIRA {
            ugoira_url_parse(&self.original)
        } else {
            self.original.clone()
        }
    }
}

} // verus!
