//! The addresses a lookup fetches, and the reply that ends it.
use vstd::prelude::*;
use crate::format::{format_entry, formatted};
use crate::markup::{Hanja, extract_reading, first_match_runs, parse_description};
use crate::describe::{concat, description_of};
use crate::model::{ContentElement, LookupError, ParsedEntry, blocks_view};
use crate::search::{resolve_entry, resolved};
use crate::text::{chars_of, push_chars, string_of};

verus! {

/// The address of the dictionary's search page.
pub const SEARCH_URL: &'static str = "https://dic.daum.net/search.do";

/// The search page's query parameters for `query`: the hanja dictionary and
/// the query text.
pub fn search_params(query: &str) -> (r: Vec<(String, String)>)
    ensures
        r@.len() == 2,
        r@[0].0@ == "dic"@ && r@[0].1@ == "hanja"@,
        r@[1].0@ == "q"@ && r@[1].1@ == query@,
{
    let mut r: Vec<(String, String)> = Vec::new();
    r.push(("dic".to_owned(), "hanja".to_owned()));
    r.push(("q".to_owned(), query.to_owned()));
    r
}

/// The address of entry `id`'s page.
pub fn entry_url(id: &str) -> (r: String)
    ensures
        r@ == entry_address(id@),
{
    let mut out = chars_of("https://dic.daum.net/word/view.do?wordid=");
    push_chars(&mut out, &chars_of(id));
    string_of(&out)
}

/// The address of entry `id`'s supplementary examples; it is served only to
/// a request whose referer is `entry_url(id)`.
pub fn supplement_url(id: &str) -> (r: String)
    ensures
        r@ == examples_address(id@),
{
    let mut out = chars_of("https://dic.daum.net/word/view_supword.do?suptype=KUMSUNG_HH&wordid=");
    push_chars(&mut out, &chars_of(id));
    string_of(&out)
}

/// The final reply to `query`: the formatted entry, or "No result" where the
/// search found none; `None` for a failure that the caller reports itself.
pub fn reply_text(query: &str, outcome: &Result<ParsedEntry, LookupError>) -> (r: Option<String>)
    ensures
        match outcome {
            Ok(e) => r matches Some(s) && s@ == formatted(query@, e.reading@, blocks_view(e.blocks@)),
            Err(LookupError::NotFound) => r matches Some(s) && s@ == "No result"@,
            Err(_) => r is None,
        },
{
    match outcome {
        Ok(e) => Some(format_entry(query, e)),
        Err(LookupError::NotFound) => Some("No result".to_owned()),
        Err(_) => None,
    }
}

/// The address of entry `id`'s page.
pub open spec fn entry_address(id: Seq<char>) -> Seq<char> {
    "https://dic.daum.net/word/view.do?wordid="@ + id
}

/// The address of entry `id`'s supplementary examples.
pub open spec fn examples_address(id: Seq<char>) -> Seq<char> {
    "https://dic.daum.net/word/view_supword.do?suptype=KUMSUNG_HH&wordid="@ + id
}

/// Whether `req` fetches entry `id`'s page.
pub open spec fn is_entry_request(req: Request, id: Seq<char>) -> bool {
    req.url@ == entry_address(id) && req.params@.len() == 0 && req.referer is None
}

/// Whether `req` fetches entry `id`'s examples, with its page as referer.
pub open spec fn is_examples_request(req: Request, id: Seq<char>) -> bool {
    req.url@ == examples_address(id) && req.params@.len() == 0 && match req.referer {
        Some(f) => f@ == entry_address(id),
        None => false,
    }
}

/// An outbound request: its address, its query parameters and its referer.
#[derive(Debug, PartialEq, Eq)]
pub struct Request {
    pub url: String,
    pub params: Vec<(String, String)>,
    pub referer: Option<String>,
}

/// Where a lookup stands: waiting for the search page, for the entry page
/// of the resolved entry, or for that entry's supplementary examples.
#[derive(Debug, PartialEq, Eq)]
pub enum Lookup {
    Searching { query: String },
    ReadingEntry { query: String, id: String },
    ReadingExamples { query: String, id: String, reading: String },
}

/// What a lookup does next: fetch a page and go on, or finish.
#[derive(Debug, PartialEq, Eq)]
pub enum Step {
    Fetch(Lookup, Request),
    Done(Result<ParsedEntry, LookupError>),
}

impl Lookup {
    /// Starts a lookup of `query`: it first fetches the search page.
    pub fn start(query: &str) -> (r: (Lookup, Request))
        ensures
            r.0 == (Lookup::Searching { query: r.0->Searching_query }),
            (r.0->Searching_query)@ == query@,
            r.1.url@ == SEARCH_URL@,
            r.1.params@.len() == 2,
            r.1.params@[0].0@ == "dic"@ && r.1.params@[0].1@ == "hanja"@,
            r.1.params@[1].0@ == "q"@ && r.1.params@[1].1@ == query@,
            r.1.referer is None,
    {
        let request = Request { url: SEARCH_URL.to_owned(), params: search_params(query), referer: None };
        (Lookup::Searching { query: query.to_owned() }, request)
    }

    /// Takes the page that the last request fetched, or the failure of that
    /// request, and decides the next step. A failure ends the lookup; the
    /// search page either names an entry, whose page is fetched next, or
    /// ends it as not found; the entry page gives the reading, after which
    /// the examples are fetched with the entry page as referer; the examples
    /// complete the entry.
    pub fn advance(self, page: Result<String, LookupError>, h: &Hanja) -> (r: Step)
        ensures
            match page {
                Err(e) => r == Step::Done(Err(e)),
                Ok(p) => match self {
                    Lookup::Searching { query } => match resolved(p@, query@) {
                        None => r == Step::Done(Err(LookupError::NotFound)),
                        Some(id) => (match r {
                            Step::Fetch(Lookup::ReadingEntry { query: q2, id: i2 }, req) => q2
                                == query && i2@ == id && is_entry_request(req, id),
                            _ => false,
                        }),
                    },
                    Lookup::ReadingEntry { query, id } => match first_match_runs(p@, h.read@) {
                        None => r == Step::Done(Err(LookupError::UnexpectedStructure)),
                        Some(runs) => (match r {
                            Step::Fetch(Lookup::ReadingExamples { query: q2, id: i2, reading }, req) =>
                                q2 == query && i2 == id && reading@ == concat(runs)
                                && is_examples_request(req, id@),
                            _ => false,
                        }),
                    },
                    Lookup::ReadingExamples { query: _, id: _, reading } => (match r {
                        Step::Done(Ok(e)) => e.reading == reading && exists|es: Seq<ContentElement>|
                            blocks_view(e.blocks@) == #[trigger] description_of(es),
                        _ => false,
                    }),
                },
            },
    {
        let p = match page {
            Ok(p) => p,
            Err(e) => return Step::Done(Err(e)),
        };
        match self {
            Lookup::Searching { query } => match resolve_entry(p.as_str(), query.as_str()) {
                Some(id) => {
                    let request = Request { url: entry_url(id.as_str()), params: Vec::new(), referer: None };
                    Step::Fetch(Lookup::ReadingEntry { query, id }, request)
                },
                None => Step::Done(Err(LookupError::NotFound)),
            },
            Lookup::ReadingEntry { query, id } => match extract_reading(p.as_str(), h) {
                Ok(reading) => {
                    let request = Request {
                        url: supplement_url(id.as_str()),
                        params: Vec::new(),
                        referer: Some(entry_url(id.as_str())),
                    };
                    Step::Fetch(Lookup::ReadingExamples { query, id, reading }, request)
                },
                Err(_) => Step::Done(Err(LookupError::UnexpectedStructure)),
            },
            Lookup::ReadingExamples { query, id, reading } => {
                let blocks = parse_description(p.as_str(), h);
                Step::Done(Ok(ParsedEntry { reading, blocks }))
            },
        }
    }
}

} // verus!
