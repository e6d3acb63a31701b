//! The catalog of a title: its name and its chapters in reading order.

use vstd::prelude::*;
use vstd::string::StringExecFns;
use crate::error::{Error, StructuralFault};
use crate::page::{
    elements_of,
    select_elements,
    ElementSpec,
    PageElement,
    CHAPTER_SELECTOR,
    PAGE_LIMIT,
    TITLE_SELECTOR,
};
use crate::patterns::{captures_of, group_of, group_text, regex_captures};
use crate::text::{
    decimal_digits,
    decimal_number,
    decimal_text,
    is_numeral,
    numeral,
    parse_decimal,
};

verus! {

/// The address of a listing of the site, from its first character on: the
/// scheme, the site with or without a name before it, `/comic/` and the
/// number of the title. The path may go on behind the number with `/`, or
/// end there, at the end of the address or before `?` or `#`. The group is
/// the number.
pub const LISTING_ADDRESS: &'static str = "^https?://(?:[\\w\\.]+\\.)?manhuagui\\.com/comic/(\\d+)(?:[/?#]|$)";

/// The number that the listing address `address` ends its site with, as it
/// is written; `None` where `address` is no listing address.
pub open spec fn listed_number(address: Seq<char>) -> Option<Seq<char>> {
    match captures_of(LISTING_ADDRESS@, address) {
        Some(groups) => group_text(groups, 1),
        None => None,
    }
}

/// The number that `reference` names. A reference that is a numeral names
/// the number that it stands for; any other reference names a number only
/// as the address of a listing. Nothing is named by a numeral with anything
/// before or behind it, nor by a number that this machine cannot hold.
pub open spec fn id_of(reference: Seq<char>) -> Option<usize> {
    if is_numeral(reference) {
        decimal_number(reference)
    } else {
        match listed_number(reference) {
            Some(digits) => decimal_number(digits),
            None => None,
        }
    }
}

/// Reads the number of a title from a bare number or from the address of its
/// listing.
pub fn parse_id(s: &str) -> (id: Option<usize>)
    ensures
        id == id_of(s@),
{
    if numeral(s) {
        return parse_decimal(s);
    }
    let digits = match regex_captures(LISTING_ADDRESS, s) {
        Some(groups) => group_of(&groups, 1),
        None => None,
    };
    match digits {
        Some(digits) => parse_decimal(digits.as_str()),
        None => None,
    }
}

/// A reference that is a numeral is read as that number, whatever the site's
/// addresses look like; and a reference that begins with a numeral and goes
/// on with anything but digits is no bare number.
pub proof fn bare_number_is_whole(reference: Seq<char>)
    ensures
        is_numeral(reference) ==> id_of(reference) == decimal_number(reference),
        !is_numeral(reference) && listed_number(reference) is None ==> id_of(reference) is None,
{
}

/// The number that `reference` names, or the failure of a reference that
/// names none.
pub fn resolve_reference(reference: &str) -> (result: Result<usize, Error>)
    ensures
        match result {
            Ok(id) => id_of(reference@) == Some(id),
            Err(error) => error == Error::InvalidReference && id_of(reference@) is None,
        },
{
    match parse_id(reference) {
        Some(id) => Ok(id),
        None => Err(Error::InvalidReference),
    }
}

/// The address of the listing of title `id` on `host`.
pub open spec fn listing_address(host: Seq<char>, id: usize) -> Seq<char> {
    host + "/comic/"@ + decimal_digits(id as nat)
}

/// The address of the listing of title `id` on `host`.
pub fn listing_url(host: &str, id: usize) -> (url: String)
    ensures
        url@ == listing_address(host@, id),
{
    host.to_owned().concat("/comic/").concat(decimal_text(id as u64).as_str())
}

/// A chapter of a title: the name it is shown under and the path of its
/// page on the site.
#[derive(Debug, Clone, PartialEq, Eq)]
pub struct ChapterReference {
    pub display_name: String,
    pub relative_path: String,
}

/// A [`ChapterReference`] over sequences of characters.
pub struct ReferenceSpec {
    pub display_name: Seq<char>,
    pub relative_path: Seq<char>,
}

impl DeepView for ChapterReference {
    type V = ReferenceSpec;

    open spec fn deep_view(&self) -> ReferenceSpec {
        ReferenceSpec { display_name: self.display_name@, relative_path: self.relative_path@ }
    }
}

/// The address of the page of a chapter on `host`.
pub fn chapter_url(host: &str, chapter: &ChapterReference) -> (url: String)
    ensures
        url@ == host@ + chapter.relative_path@,
{
    host.to_owned().concat(chapter.relative_path.as_str())
}

/// A title and its chapters, the oldest first.
#[derive(Debug, Clone, PartialEq, Eq)]
pub struct Catalog {
    pub title: String,
    pub chapters: Vec<ChapterReference>,
}

/// A [`Catalog`] over sequences of characters.
pub struct CatalogSpec {
    pub title: Seq<char>,
    pub chapters: Seq<ReferenceSpec>,
}

impl View for Catalog {
    type V = CatalogSpec;

    open spec fn view(&self) -> CatalogSpec {
        CatalogSpec { title: self.title@, chapters: self.chapters.deep_view() }
    }
}

/// The attributes that are read of a chapter link: its name, then its target.
pub open spec fn link_attributes() -> Seq<Seq<char>> {
    seq!["title"@, "href"@]
}

/// Whether a link has both its name and its target.
pub open spec fn is_complete(link: ElementSpec) -> bool {
    link.attributes.len() == 2 && link.attributes[0] is Some && link.attributes[1] is Some
}

/// The chapter that a complete link leads to.
pub open spec fn reference_of(link: ElementSpec) -> ReferenceSpec {
    ReferenceSpec {
        display_name: link.attributes[0].unwrap(),
        relative_path: link.attributes[1].unwrap(),
    }
}

/// The chapters that the links of a listing lead to. The listing shows the
/// newest chapter first, so the chapters are its links from the last to the
/// first. `None` where a link is incomplete.
pub open spec fn chapters_of(links: Seq<ElementSpec>) -> Option<Seq<ReferenceSpec>> {
    if forall|i: int| 0 <= i < links.len() ==> is_complete(#[trigger] links[i]) {
        Some(Seq::new(links.len(), |i: int| reference_of(links[links.len() - 1 - i])))
    } else {
        None
    }
}

/// The catalog that a listing with these title elements and these chapter
/// links holds, or why it holds none.
pub open spec fn catalog_of(titles: Seq<ElementSpec>, links: Seq<ElementSpec>) -> Result<
    CatalogSpec,
    Error,
> {
    if titles.len() == 0 {
        Err(Error::NotFound)
    } else {
        match chapters_of(links) {
            Some(chapters) => Ok(CatalogSpec { title: titles[0].text, chapters }),
            None => Err(Error::Malformed(StructuralFault::LinkIncomplete)),
        }
    }
}

/// The catalog that the listing page `html` holds, or why it holds none. A
/// page above [`PAGE_LIMIT`] is not read at all.
pub open spec fn catalog_spec(html: Seq<char>) -> Result<CatalogSpec, Error> {
    if html.len() > PAGE_LIMIT {
        Err(Error::Malformed(StructuralFault::PageTooLong))
    } else {
        match (
            elements_of(html, TITLE_SELECTOR@, Seq::empty()),
            elements_of(html, CHAPTER_SELECTOR@, link_attributes()),
        ) {
            (Some(titles), Some(links)) => catalog_of(titles, links),
            _ => Err(Error::Malformed(StructuralFault::SelectorRejected)),
        }
    }
}

/// Whether `result` is `model` with each text taken by its characters.
pub open spec fn catalog_matches(result: Result<Catalog, Error>, model: Result<CatalogSpec, Error>) -> bool {
    match result {
        Ok(catalog) => model == Ok::<CatalogSpec, Error>(catalog@),
        Err(error) => model == Err::<CatalogSpec, Error>(error),
    }
}

/// Puts a catalog together from the title elements and the chapter links of
/// a listing, the links in the order of the page. The title is the text of
/// the first title element; a listing without one is not found. The
/// chapters come out in reading order, which is the reverse of the page's.
#[verifier::loop_isolation(false)]
pub fn assemble_catalog(titles: &Vec<PageElement>, links: &Vec<PageElement>) -> (result: Result<
    Catalog,
    Error,
>)
    ensures
        catalog_matches(result, catalog_of(titles.deep_view(), links.deep_view())),
{
    if titles.len() == 0 {
        return Err(Error::NotFound);
    }
    let title = titles[0].text.clone();
    assert(titles.deep_view()[0].text == titles[0].text@);
    let ghost plain = links.deep_view();
    let total = links.len();
    let mut chapters: Vec<ChapterReference> = Vec::new();
    let mut taken: usize = 0;
    while taken < total
        invariant
            taken <= total,
            total == links.len(),
            plain == links.deep_view(),
            chapters.len() == taken,
            forall|i: int| total - taken <= i < total ==> is_complete(#[trigger] plain[i]),
            forall|i: int|
                0 <= i < taken ==> (#[trigger] chapters[i]).deep_view() == reference_of(
                    plain[total - 1 - i],
                ),
        decreases total - taken,
    {
        let link = &links[total - 1 - taken];
        assert(plain[total - 1 - taken] == link.deep_view());
        assert(link.deep_view().attributes.len() == link.attributes.len());
        if link.attributes.len() != 2 {
            return Err(Error::Malformed(StructuralFault::LinkIncomplete));
        }
        assert(link.deep_view().attributes[0] == link.attributes[0].deep_view());
        assert(link.deep_view().attributes[1] == link.attributes[1].deep_view());
        let display_name = match &link.attributes[0] {
            Some(name) => name.clone(),
            None => { return Err(Error::Malformed(StructuralFault::LinkIncomplete)); },
        };
        let relative_path = match &link.attributes[1] {
            Some(path) => path.clone(),
            None => { return Err(Error::Malformed(StructuralFault::LinkIncomplete)); },
        };
        chapters.push(ChapterReference { display_name, relative_path });
        taken = taken + 1;
    }
    assert(chapters.deep_view() =~= chapters_of(plain).unwrap());
    Ok(Catalog { title, chapters })
}

impl Catalog {
    /// Reads the catalog of a title from its listing page. The length of
    /// the page is looked at first, so that no page is parsed that the
    /// parser cannot hold.
    pub fn from_page(html: &str) -> (result: Result<Catalog, Error>)
        ensures
            catalog_matches(result, catalog_spec(html@)),
    {
        if html.unicode_len() > PAGE_LIMIT {
            return Err(Error::Malformed(StructuralFault::PageTooLong));
        }
        let no_attributes: Vec<String> = Vec::new();
        let mut link_names: Vec<String> = Vec::new();
        link_names.push(String::from_str("title"));
        link_names.push(String::from_str("href"));
        assert(no_attributes.deep_view() =~= Seq::<Seq<char>>::empty());
        assert(link_names.deep_view() =~= link_attributes());
        let titles = select_elements(html, TITLE_SELECTOR, &no_attributes);
        let links = select_elements(html, CHAPTER_SELECTOR, &link_names);
        match (titles, links) {
            (Some(titles), Some(links)) => assemble_catalog(&titles, &links),
            _ => Err(Error::Malformed(StructuralFault::SelectorRejected)),
        }
    }
}

} // verus!
