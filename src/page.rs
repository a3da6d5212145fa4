use vstd::prelude::*;
use vstd::string::StringExecFns;

verus! {

/// The page up to the Open Graph image URL.
pub const PAGE_HEAD: &'static str = "<html><head>\n<meta property=\"og:image\" content=\"";

/// Between the meta tag's URL and the background's URL.
pub const PAGE_MIDDLE: &'static str =
    "\" />\n</head><body>\n<style>\nbody {\n  background-image: url('";

/// The page after the background's URL.
pub const PAGE_TAIL: &'static str = "');\n}\n</style>\n</body></html>";

/// The HTML page that shows `url` as its Open Graph image and as its background.
pub open spec fn preview_page_of(url: Seq<char>) -> Seq<char> {
    PAGE_HEAD@ + url + PAGE_MIDDLE@ + url + PAGE_TAIL@
}

/// Renders the link-preview page of `url`.
pub fn preview_page(url: &str) -> (r: String)
    ensures
        r@ == preview_page_of(url@),
{
    let mut r = String::from_str(PAGE_HEAD);
    r.append(url);
    r.append(PAGE_MIDDLE);
    r.append(url);
    r.append(PAGE_TAIL);
    r
}

} // verus!
