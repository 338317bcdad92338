//! Reading the fetched HTML documents with `scraper`: the entry page's
//! pronunciation and the supplement fragment's content elements.
use vstd::prelude::*;
use scraper::{ElementRef, Html, Selector};
use crate::describe::{concat, describe, description_of};
use crate::describe::concat_runs;
use crate::model::{ContentElement, DescriptionBlock, ExampleItem, LookupError, blocks_view, strings_view};
use crate::text::string_of;

verus! {

#[verifier::external_type_specification]
#[verifier::external_body]
pub struct ExHtml(Html);

#[verifier::external_type_specification]
#[verifier::external_body]
pub struct ExSelector(Selector);

#[verifier::external_type_specification]
#[verifier::external_body]
pub struct ExElementRef<'a>(ElementRef<'a>);

/// Relies on `scraper::Selector::parse`: compiles a CSS selector, `None`
/// where it does not parse; a compound of plain class selectors parses.
#[verifier::external_body]
fn compile_selector(css: &str) -> (r: Option<Selector>)
    ensures
        css@ == ".desc_ruby"@ || css@ == ".desc_ex"@ || css@ == ".txt_refer.on"@ ==> r is Some,
{
    Selector::parse(css).ok()
}

/// Relies on `scraper::Html::parse_fragment`: the tree of an HTML fragment.
#[verifier::external_body]
fn parse_fragment(html: &str) -> Html {
    Html::parse_fragment(html)
}

/// Relies on `scraper::Html::root_element`: the root `<html>` element.
#[verifier::external_body]
fn root_element(doc: &Html) -> ElementRef<'_> {
    doc.root_element()
}

/// Relies on `scraper::ElementRef::child_elements`: the element children, in
/// order.
#[verifier::external_body]
fn child_elements<'a>(e: &ElementRef<'a>) -> Vec<ElementRef<'a>> {
    e.child_elements().collect()
}

/// Relies on `scraper::ElementRef::attr`: the value of an attribute.
#[verifier::external_body]
fn attribute(e: &ElementRef<'_>, name: &str) -> Option<String> {
    e.attr(name).map(str::to_owned)
}

/// Relies on `scraper::ElementRef::text`: the descendant text nodes, in
/// document order.
#[verifier::external_body]
fn text_runs(e: &ElementRef<'_>) -> Vec<String> {
    e.text().map(str::to_owned).collect()
}

/// Relies on `scraper::ElementRef::select`: the descendants that match a
/// selector, in document order.
#[verifier::external_body]
fn select_in<'a>(e: &ElementRef<'a>, sel: &Selector) -> Vec<ElementRef<'a>> {
    e.select(sel).collect()
}

/// The text nodes under the first element of the HTML document `html` that
/// the CSS selector `css` matches, in document order; `None` where no element
/// matches or the selector does not parse.
pub uninterp spec fn first_match_runs(html: Seq<char>, css: Seq<char>) -> Option<Seq<Seq<char>>>;

/// Relies on `scraper::Html::parse_document`, `scraper::Selector::parse`,
/// `scraper::Html::select` and `scraper::ElementRef::text`: the text nodes
/// under the first matching element, a function of the two texts alone.
#[verifier::external_body]
fn first_match_text(html: &str, css: &str) -> (r: Option<Vec<String>>)
    ensures
        match r {
            Some(v) => first_match_runs(html@, css@) == Some(strings_view(v@)),
            None => first_match_runs(html@, css@) is None,
        },
{
    let doc = Html::parse_document(html);
    let sel = Selector::parse(css).ok()?;
    let found = doc.select(&sel).next()?;
    Some(found.text().map(str::to_owned).collect())
}

/// The structural matchers that the lookup reads documents with: the
/// selector of an entry page's reading field, and the compiled selectors of
/// the phonetic annotation, reading example and active cross-reference of a
/// supplement fragment.
pub struct Hanja {
    pub read: String,
    pub ruby: Selector,
    pub reading: Selector,
    pub refer: Selector,
}

impl Hanja {
    /// Builds the matchers.
    pub fn new() -> (r: Hanja)
        ensures
            r.read@ == ".txt_read"@,
    {
        let ruby = compile_selector(".desc_ruby").unwrap();
        let reading = compile_selector(".desc_ex").unwrap();
        let refer = compile_selector(".txt_refer.on").unwrap();
        Hanja { read: ".txt_read".to_owned(), ruby, reading, refer }
    }
}

/// The text runs of the first descendant of `e` that matches `sel`, if any.
fn first_runs(e: &ElementRef<'_>, sel: &Selector) -> Option<Vec<String>> {
    let found = select_in(e, sel);
    if found.len() > 0 {
        Some(text_runs(&found[0]))
    } else {
        None
    }
}

/// What the description rules read from one content element.
fn read_element(e: &ElementRef<'_>, h: &Hanja) -> ContentElement {
    let class = attribute(e, "class");
    let text = text_runs(e);
    let children = child_elements(e);
    let mut items: Vec<ExampleItem> = Vec::new();
    let mut i: usize = 0;
    while i < children.len()
        invariant
            i <= children@.len(),
        decreases children@.len() - i,
    {
        let ruby = first_runs(&children[i], &h.ruby);
        let reading = first_runs(&children[i], &h.reading);
        items.push(ExampleItem { ruby, reading });
        i = i + 1;
    }
    let found = select_in(e, &h.refer);
    let mut refers: Vec<Vec<String>> = Vec::new();
    let mut j: usize = 0;
    while j < found.len()
        invariant
            j <= found@.len(),
        decreases found@.len() - j,
    {
        refers.push(text_runs(&found[j]));
        j = j + 1;
    }
    ContentElement { class, text, items, refers }
}

/// The content elements of a fragment: the children of each child of its
/// root, in document order.
fn content_elements(fragment: &str, h: &Hanja) -> Vec<ContentElement> {
    let doc = parse_fragment(fragment);
    let root = root_element(&doc);
    let wrappers = child_elements(&root);
    let mut out: Vec<ContentElement> = Vec::new();
    let mut i: usize = 0;
    while i < wrappers.len()
        invariant
            i <= wrappers@.len(),
        decreases wrappers@.len() - i,
    {
        let inner = child_elements(&wrappers[i]);
        let mut j: usize = 0;
        while j < inner.len()
            invariant
                j <= inner@.len(),
            decreases inner@.len() - j,
        {
            out.push(read_element(&inner[j], h));
            j = j + 1;
        }
        i = i + 1;
    }
    out
}

/// The description blocks of a supplement fragment: the description rules
/// applied to its content elements.
pub fn parse_description(fragment: &str, h: &Hanja) -> (r: Vec<DescriptionBlock>)
    ensures
        exists|es: Seq<ContentElement>| blocks_view(r@) == #[trigger] description_of(es),
{
    let elems = content_elements(fragment, h);
    let r = describe(&elems);
    assert(blocks_view(r@) == description_of(elems@));
    r
}

/// The pronunciation on an entry page: the joined text of its first
/// element that the reading selector matches, or `UnexpectedStructure` where
/// the page has none.
pub fn extract_reading(page: &str, h: &Hanja) -> (r: Result<String, LookupError>)
    ensures
        match first_match_runs(page@, h.read@) {
            Some(runs) => r matches Ok(s) && s@ == concat(runs),
            None => r == Err::<String, LookupError>(LookupError::UnexpectedStructure),
        },
{
    match first_match_text(page, h.read.as_str()) {
        Some(runs) => Ok(string_of(&concat_runs(&runs))),
        None => Err(LookupError::UnexpectedStructure),
    }
}

/// Reading an entry page is deterministic: any two results that
/// `extract_reading` may return for one page and one reading selector agree.
pub proof fn reading_is_deterministic(
    page: Seq<char>,
    css: Seq<char>,
    first: Result<String, LookupError>,
    second: Result<String, LookupError>,
)
    requires
        match first_match_runs(page, css) {
            Some(runs) => first matches Ok(s) && s@ == concat(runs),
            None => first == Err::<String, LookupError>(LookupError::UnexpectedStructure),
        },
        match first_match_runs(page, css) {
            Some(runs) => second matches Ok(s) && s@ == concat(runs),
            None => second == Err::<String, LookupError>(LookupError::UnexpectedStructure),
        },
    ensures
        first is Ok <==> second is Ok,
        first is Ok ==> first->Ok_0@ == second->Ok_0@,
        first is Err ==> first == second,
{
}

} // verus!
