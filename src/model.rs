//! The data that the description rules read from a supplement fragment, and
//! the blocks and entries that they produce.
use vstd::prelude::*;

verus! {

/// One child of an example list, as the rules read it: the text runs of its
/// first phonetic-annotation element and of its first reading-example
/// element, each where the child has one.
#[derive(Debug, PartialEq, Eq)]
pub struct ExampleItem {
    pub ruby: Option<Vec<String>>,
    pub reading: Option<Vec<String>>,
}

/// One content element of a supplement fragment, as the rules read it: its
/// `class` attribute, the text runs under it in document order, its list
/// children, and the text runs of each active cross-reference under it.
#[derive(Debug, PartialEq, Eq)]
pub struct ContentElement {
    pub class: Option<String>,
    pub text: Vec<String>,
    pub items: Vec<ExampleItem>,
    pub refers: Vec<Vec<String>>,
}

/// One rendered piece of an entry's description.
#[derive(Debug, PartialEq, Eq)]
pub enum DescriptionBlock {
    /// Free usage text, with its continuation already joined on.
    PlainExample { text: String },
    /// A cited phrase with its optional reading and source.
    PhraseExample { phrase: String, reading: Option<String>, source: Option<String> },
    /// A "see also" list.
    CrossReference { items: Vec<String> },
}

/// What a lookup found: the pronunciation and the description blocks.
#[derive(Debug, PartialEq, Eq)]
pub struct ParsedEntry {
    pub reading: String,
    pub blocks: Vec<DescriptionBlock>,
}

/// The mathematical value of a `DescriptionBlock`.
pub enum BlockView {
    Plain(Seq<char>),
    Phrase(Seq<char>, Option<Seq<char>>, Option<Seq<char>>),
    Cross(Seq<Seq<char>>),
}

/// The characters of an optional string.
pub open spec fn opt_view(o: Option<String>) -> Option<Seq<char>> {
    match o {
        Some(s) => Some(s@),
        None => None,
    }
}

/// The characters of each string.
pub open spec fn strings_view(v: Seq<String>) -> Seq<Seq<char>> {
    v.map_values(|s: String| s@)
}

impl View for DescriptionBlock {
    type V = BlockView;

    open spec fn view(&self) -> BlockView {
        match self {
            DescriptionBlock::PlainExample { text } => BlockView::Plain(text@),
            DescriptionBlock::PhraseExample { phrase, reading, source } => BlockView::Phrase(
                phrase@,
                opt_view(*reading),
                opt_view(*source),
            ),
            DescriptionBlock::CrossReference { items } => BlockView::Cross(strings_view(items@)),
        }
    }
}

/// The values of a sequence of blocks.
pub open spec fn blocks_view(v: Seq<DescriptionBlock>) -> Seq<BlockView> {
    v.map_values(|b: DescriptionBlock| b@)
}

/// Why a lookup produced no entry.
#[derive(Clone, Copy, Debug, PartialEq, Eq, Structural)]
pub enum LookupError {
    /// The search page's first result does not match the query.
    NotFound,
    /// A request failed.
    NetworkError,
    /// A fetched page lacks a part that every entry has.
    UnexpectedStructure,
}

} // verus!
