//! Page-title derivation: the rule that turns a fetched document into the
//! title committed to its tab.

use vstd::prelude::*;
use vstd::string::StrSliceExecFns;
use vstd::string::StringExecFns;

use crate::model::PageResponse;
use crate::text::spec_starts_with;
use crate::text::spec_trim;
use crate::text::starts_with;
use crate::text::trim_whitespace;

verus! {

/// The first text node of the first `title` element of the document, before
/// any trimming, if the document has one.
pub uninterp spec fn html_title_of(body: Seq<char>) -> Option<Seq<char>>;

/// Relies on scraper::Html::parse_document, scraper::Selector::parse and
/// scraper::element_ref::ElementRef::text: the first text node of the first
/// `title` element of the parsed document, a function of the document text
/// alone.
#[verifier::external_body]
fn html_title_text(body: &str) -> (r: Option<String>)
    ensures
        match r {
            Some(t) => html_title_of(body@) == Some(t@),
            None => html_title_of(body@) is None,
        },
{
    let document = scraper::Html::parse_document(body);
    let selector = match scraper::Selector::parse("title") {
        Ok(selector) => selector,
        Err(_) => return None,
    };
    document
        .select(&selector)
        .next()
        .and_then(|element| element.text().next())
        .map(|title| title.to_owned())
}

/// The title an HTML body yields: its first `title` text node, trimmed, and
/// only if that leaves something.
pub open spec fn spec_html_title(body: Seq<char>) -> Option<Seq<char>> {
    match html_title_of(body) {
        Some(raw) => {
            if spec_trim(raw).len() > 0 {
                Some(spec_trim(raw))
            } else {
                None
            }
        },
        None => None,
    }
}

/// The title derived from a fetched page: for a non-HTML MIME type the URL's
/// string form; otherwise the trimmed first `title` text of the body, if any.
pub open spec fn spec_derive_title(page: PageResponse) -> Option<Seq<char>> {
    match page.mime_type {
        Some(mime) => {
            if !spec_starts_with(mime@, "text/html"@) {
                Some(page.url@)
            } else {
                spec_html_title(page.body@)
            }
        },
        None => spec_html_title(page.body@),
    }
}

/// Derives a title for the fetched page, or `None` when the page yields no
/// usable title.
pub fn derive_title(page: &PageResponse) -> (r: Option<String>)
    ensures
        match r {
            Some(title) => spec_derive_title(*page) == Some(title@),
            None => spec_derive_title(*page) is None,
        },
{
    if let Some(mime) = &page.mime_type {
        if !starts_with(mime.as_str(), "text/html") {
            return Some(page.url.clone());
        }
    }
    match html_title_text(page.body.as_str()) {
        Some(raw) => {
            let trimmed = trim_whitespace(raw.as_str());
            if trimmed.unicode_len() > 0 {
                Some(String::from_str(trimmed))
            } else {
                None
            }
        },
        None => None,
    }
}

} // verus!
