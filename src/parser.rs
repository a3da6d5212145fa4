use vstd::prelude::*;
use vstd::string::StringExecFns;
use vstd::utf8::{decode_utf8, valid_utf8};

use crate::video_id::{extract_video_id, video_id};

verus! {

/// Selector of the element that embeds a video.
pub const VIDEO_SELECTOR: &'static str = "iframe";

/// Selector of an image wrapped in a link.
pub const IMAGE_SELECTOR: &'static str = "a>img";

/// Base that an image's relative source is joined to.
pub const IMAGE_BASE_URL: &'static str = "https://apod.nasa.gov/apod/";

/// Thumbnail returned whenever no media can be resolved.
pub const FALLBACK_URL: &'static str = "https://img.youtube.com/vi/7w8HlfC5Mb8/0.jpg";

/// What comes before a video identifier in its thumbnail URL.
pub const THUMBNAIL_PREFIX: &'static str = "https://img.youtube.com/vi/";

/// What comes after a video identifier in its thumbnail URL.
pub const THUMBNAIL_SUFFIX: &'static str = "/0.jpg";

/// The media reference found in a page.
pub enum ContentLink {
    NotFound,
    Image(String),
    Video(String),
}

/// A media reference as text.
pub enum LinkView {
    NotFound,
    Image(Seq<char>),
    Video(Seq<char>),
}

impl View for ContentLink {
    type V = LinkView;

    open spec fn view(&self) -> LinkView {
        match self {
            ContentLink::NotFound => LinkView::NotFound,
            ContentLink::Image(s) => LinkView::Image(s@),
            ContentLink::Video(s) => LinkView::Video(s@),
        }
    }
}

/// Why a page could not be resolved.
#[derive(PartialEq, Eq, Structural, Debug, Clone, Copy)]
pub enum ResolveError {
    /// The page's bytes are not UTF-8 text.
    NotText,
}

/// The `src` attribute of the first element, in document order, that
/// `selector` matches in the HTML document `html`; `None` where `selector` is
/// not a valid selector, no element matches, or the first match has no `src`.
pub uninterp spec fn first_src_of(html: Seq<char>, selector: Seq<char>) -> Option<Seq<char>>;

/// Relies on scraper's `Html::parse_document`, `Selector::parse`,
/// `Html::select` and `Element::attr`: the `src` of the first match.
#[verifier::external_body]
fn extract_src(html: &str, selector: &str) -> (r: Option<String>)
    ensures
        r.deep_view() == first_src_of(html@, selector@),
{
    let document = scraper::Html::parse_document(html);
    let selector = match scraper::Selector::parse(selector) {
        Ok(selector) => selector,
        Err(_) => return None,
    };
    document.select(&selector).next().and_then(|element| element.value().attr("src")).map(
        str::to_owned,
    )
}

/// Relies on `std::str::from_utf8`: it succeeds exactly on valid UTF-8, and
/// then the text is what the bytes encode.
#[verifier::external_body]
pub(crate) fn utf8_text(bytes: &[u8]) -> (r: Option<&str>)
    ensures
        r is Some <==> valid_utf8(bytes@),
        r matches Some(text) ==> text@ == decode_utf8(bytes@),
{
    std::str::from_utf8(bytes).ok()
}

/// A video takes priority over an image; with neither, nothing is found.
pub open spec fn classify(video_src: Option<Seq<char>>, image_src: Option<Seq<char>>) -> LinkView {
    match video_src {
        Some(v) => LinkView::Video(v),
        None => match image_src {
            Some(i) => LinkView::Image(i),
            None => LinkView::NotFound,
        },
    }
}

/// The media reference of an HTML document.
pub open spec fn content_link_of(html: Seq<char>) -> LinkView {
    classify(first_src_of(html, VIDEO_SELECTOR@), first_src_of(html, IMAGE_SELECTOR@))
}

/// The URL that a media reference resolves to.
pub open spec fn resolved_url(link: LinkView) -> Seq<char> {
    match link {
        LinkView::NotFound => FALLBACK_URL@,
        LinkView::Image(path) => IMAGE_BASE_URL@ + path,
        LinkView::Video(src) => match video_id(src) {
            Some(id) => THUMBNAIL_PREFIX@ + id + THUMBNAIL_SUFFIX@,
            None => FALLBACK_URL@,
        },
    }
}

/// The URL that an HTML document resolves to.
pub open spec fn html_url(html: Seq<char>) -> Seq<char> {
    resolved_url(content_link_of(html))
}

/// The URL that a page's bytes resolve to; `None` where they are not text.
pub open spec fn page_url(bytes: Seq<u8>) -> Option<Seq<char>> {
    if valid_utf8(bytes) {
        Some(html_url(decode_utf8(bytes)))
    } else {
        None
    }
}

/// Classifies the sources found for the video selector and the image selector.
pub fn classify_link(video_src: Option<String>, image_src: Option<String>) -> (r: ContentLink)
    ensures
        r@ == classify(video_src.deep_view(), image_src.deep_view()),
{
    match video_src {
        Some(v) => ContentLink::Video(v),
        None => match image_src {
            Some(i) => ContentLink::Image(i),
            None => ContentLink::NotFound,
        },
    }
}

/// Finds the media reference of an HTML document: the first embedded frame,
/// else the first linked image, else nothing.
pub fn extract_content_link(html: &str) -> (r: ContentLink)
    ensures
        r@ == content_link_of(html@),
{
    let video_src = extract_src(html, VIDEO_SELECTOR);
    if video_src.is_some() {
        return classify_link(video_src, None);
    }
    let image_src = extract_src(html, IMAGE_SELECTOR);
    classify_link(None, image_src)
}

/// The thumbnail URL of a video identifier.
pub fn thumbnail_url(id: &str) -> (r: String)
    ensures
        r@ == THUMBNAIL_PREFIX@ + id@ + THUMBNAIL_SUFFIX@,
{
    let mut r = String::from_str(THUMBNAIL_PREFIX);
    r.append(id);
    r.append(THUMBNAIL_SUFFIX);
    r
}

/// Resolves a media reference: an image joins the base URL, a video becomes
/// the thumbnail of its identifier, anything else the fallback thumbnail.
pub fn resolve_link(link: &ContentLink) -> (r: String)
    ensures
        r@ == resolved_url(link@),
{
    match link {
        ContentLink::NotFound => String::from_str(FALLBACK_URL),
        ContentLink::Image(path) => {
            let mut r = String::from_str(IMAGE_BASE_URL);
            r.append(path.as_str());
            r
        },
        ContentLink::Video(src) => match extract_video_id(src.as_str()) {
            Some(id) => thumbnail_url(id.as_str()),
            None => String::from_str(FALLBACK_URL),
        },
    }
}

/// Resolves an HTML document to the URL of its featured media.
pub fn resolve_html(html: &str) -> (r: String)
    ensures
        r@ == html_url(html@),
{
    let link = extract_content_link(html);
    resolve_link(&link)
}

/// Resolves a page's bytes to the URL of its featured media; fails only where
/// the bytes are not UTF-8 text.
pub fn get_full_url(bytes: &[u8]) -> (r: Result<String, ResolveError>)
    ensures
        r is Err <==> page_url(bytes@) is None,
        r matches Ok(url) ==> page_url(bytes@) == Some(url@),
        r matches Err(e) ==> e == ResolveError::NotText,
{
    match utf8_text(bytes) {
        Some(text) => Ok(resolve_html(text)),
        None => Err(ResolveError::NotText),
    }
}

/// Resolution is a function of the page's bytes alone: equal bytes resolve to
/// equal URLs, however often and in whatever order they are resolved.
pub proof fn lemma_resolution_deterministic(a: Seq<u8>, b: Seq<u8>)
    requires
        a == b,
    ensures
        page_url(a) == page_url(b),
{
}

} // verus!
