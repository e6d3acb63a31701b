//! Elements of an HTML page, selected through `scraper`.

use vstd::prelude::*;

verus! {

/// What the library reads of an element of a page: the text inside it and
/// the values of the attributes that were asked for, `None` for one that
/// the element lacks.
#[derive(Debug, Clone, PartialEq, Eq)]
pub struct PageElement {
    pub text: String,
    pub attributes: Vec<Option<String>>,
}

/// A [`PageElement`] over sequences of characters.
pub struct ElementSpec {
    pub text: Seq<char>,
    pub attributes: Seq<Option<Seq<char>>>,
}

impl DeepView for PageElement {
    type V = ElementSpec;

    open spec fn deep_view(&self) -> ElementSpec {
        ElementSpec { text: self.text@, attributes: self.attributes.deep_view() }
    }
}

/// The element that holds the title of a listing.
pub const TITLE_SELECTOR: &'static str = ".book-title h1";

/// The links to the chapters of a listing.
pub const CHAPTER_SELECTOR: &'static str = ".chapter-list ul a";

/// The longest page that is read, in characters. A character takes at most
/// four bytes, so no page that is read is longer than 2^31 bytes, which is
/// as far as the buffers of the parser grow.
pub const PAGE_LIMIT: usize = 0x1FFF_FFFF;

/// Whether `selector` is one of the two selectors that a listing is read
/// with.
pub open spec fn is_listing_selector(selector: Seq<char>) -> bool {
    selector == TITLE_SELECTOR@ || selector == CHAPTER_SELECTOR@
}

/// The elements of the HTML document `html` that the CSS selector
/// `selector` matches, in the order in which `scraper` yields them, each
/// with its text and with the values of the attributes named in
/// `attributes`, as `scraper` parses the document and the selector. `None`
/// where `scraper` rejects the selector.
pub uninterp spec fn elements_of(
    html: Seq<char>,
    selector: Seq<char>,
    attributes: Seq<Seq<char>>,
) -> Option<Seq<ElementSpec>>;

/// Calls `scraper::Selector::parse`, `scraper::Html::parse_document` and
/// `scraper::Html::select`, and reads each element with
/// `scraper::ElementRef::text` and `scraper::ElementRef::attr`. The parser
/// keeps text in buffers that cannot grow beyond 2^31 bytes and panics where
/// one would have to, and a selector is parsed by a descent as deep as the
/// selector is nested,
/// so the contract leaves out pages above [`PAGE_LIMIT`] and every selector
/// but the two of a listing, which are flat. It claims only that what is
/// handed back is what `scraper` selects for this document, this selector
/// and these attribute names.
#[verifier::external_body]
pub(crate) fn select_elements(html: &str, selector: &str, attributes: &Vec<String>) -> (found:
    Option<Vec<PageElement>>)
    requires
        html@.len() <= PAGE_LIMIT,
        is_listing_selector(selector@),
    ensures
        found.deep_view() == elements_of(html@, selector@, attributes.deep_view()),
{
    let selector = scraper::Selector::parse(selector).ok()?;
    let document = scraper::Html::parse_document(html);
    let read = |element: scraper::ElementRef| PageElement {
        text: element.text().collect::<String>(),
        attributes: attributes.iter().map(|name| element.attr(name).map(String::from)).collect(),
    };
    Some(document.select(&selector).map(read).collect())
}

} // verus!
