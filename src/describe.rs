//! The description rules: turning the content elements of a supplement
//! fragment into an ordered sequence of description blocks.
use vstd::prelude::*;
use crate::model::{BlockView, ContentElement, DescriptionBlock, ExampleItem, blocks_view, strings_view};
use crate::text::{chars_of, push_chars, string_of, trim, trim_chars};

verus! {

/// The non-breaking space that encloses a source citation.
pub open spec fn nbsp() -> char {
    '\u{a0}'
}

/// The text runs joined in order.
pub open spec fn concat(runs: Seq<Seq<char>>) -> Seq<char>
    decreases runs.len(),
{
    if runs.len() == 0 {
        Seq::empty()
    } else {
        concat(runs.drop_last()) + runs.last()
    }
}

/// The text of an element: its runs joined and trimmed.
pub open spec fn extracted(runs: Seq<String>) -> Seq<char> {
    trim(concat(strings_view(runs)))
}

/// Whether a run is a source citation: it begins and ends with a
/// non-breaking space.
pub open spec fn is_citation(run: Seq<char>) -> bool {
    run.len() > 0 && run[0] == nbsp() && run.last() == nbsp()
}

/// The runs that are not citations, joined in document order.
pub open spec fn phrase_of(runs: Seq<Seq<char>>) -> Seq<char>
    decreases runs.len(),
{
    if runs.len() == 0 {
        Seq::empty()
    } else if is_citation(runs.last()) {
        phrase_of(runs.drop_last())
    } else {
        phrase_of(runs.drop_last()) + runs.last()
    }
}

/// The last citation run, trimmed.
pub open spec fn source_of(runs: Seq<Seq<char>>) -> Option<Seq<char>>
    decreases runs.len(),
{
    if runs.len() == 0 {
        None
    } else if is_citation(runs.last()) {
        Some(trim(runs.last()))
    } else {
        source_of(runs.drop_last())
    }
}

/// The block for one list child, where it has a phonetic annotation.
pub open spec fn item_block(it: ExampleItem) -> Option<BlockView> {
    match it.ruby {
        Some(r) => Some(
            BlockView::Phrase(
                trim(phrase_of(strings_view(r@))),
                match it.reading {
                    Some(x) => Some(extracted(x@)),
                    None => None,
                },
                source_of(strings_view(r@)),
            ),
        ),
        None => None,
    }
}

/// The blocks for the children of an example list, in order.
pub open spec fn item_blocks(items: Seq<ExampleItem>) -> Seq<BlockView>
    decreases items.len(),
{
    if items.len() == 0 {
        Seq::empty()
    } else {
        item_blocks(items.drop_last()) + match item_block(items.last()) {
            Some(b) => seq![b],
            None => Seq::empty(),
        }
    }
}

/// Whether an element's `class` attribute is exactly `name`.
pub open spec fn class_is(e: ContentElement, name: Seq<char>) -> bool {
    match e.class {
        Some(c) => c@ == name,
        None => false,
    }
}

/// The blocks for the content elements from position `i` on. A plain
/// example takes the element after it, if any, as its continuation; an
/// example list gives a block for each annotated child; a cross-reference
/// gives the text of each active reference; any other element gives nothing.
pub open spec fn blocks_from(es: Seq<ContentElement>, i: int) -> Seq<BlockView>
    decreases es.len() - i,
{
    if i < 0 || i >= es.len() {
        Seq::empty()
    } else if class_is(es[i], "wrap_ex"@) {
        if i + 1 < es.len() {
            seq![BlockView::Plain(extracted(es[i].text@) + seq![' '] + extracted(es[i + 1].text@))]
                + blocks_from(es, i + 2)
        } else {
            seq![BlockView::Plain(extracted(es[i].text@))]
        }
    } else if class_is(es[i], "item_example"@) {
        item_blocks(es[i].items@) + blocks_from(es, i + 1)
    } else if class_is(es[i], "ex_refer"@) {
        seq![BlockView::Cross(es[i].refers@.map_values(|r: Vec<String>| extracted(r@)))]
            + blocks_from(es, i + 1)
    } else {
        blocks_from(es, i + 1)
    }
}

/// The blocks of a whole fragment.
pub open spec fn description_of(es: Seq<ContentElement>) -> Seq<BlockView> {
    blocks_from(es, 0)
}

/// The text runs joined in order.
pub fn concat_runs(runs: &Vec<String>) -> (r: Vec<char>)
    ensures
        r@ == concat(strings_view(runs@)),
{
    let mut out: Vec<char> = Vec::new();
    let mut i: usize = 0;
    while i < runs.len()
        invariant
            i <= runs@.len(),
            out@ == concat(strings_view(runs@.subrange(0, i as int))),
        decreases runs@.len() - i,
    {
        let c = chars_of(runs[i].as_str());
        push_chars(&mut out, &c);
        proof {
            let pre = runs@.subrange(0, i as int);
            let next = runs@.subrange(0, i + 1);
            assert(strings_view(next).drop_last() =~= strings_view(pre));
        }
        i = i + 1;
    }
    assert(runs@.subrange(0, runs@.len() as int) == runs@);
    out
}

/// The text of an element: its runs joined and trimmed.
pub fn extract_text(runs: &Vec<String>) -> (r: Vec<char>)
    ensures
        r@ == extracted(runs@),
{
    let c = concat_runs(runs);
    trim_chars(&c)
}

/// Whether a run is a source citation.
pub fn is_citation_run(run: &Vec<char>) -> (r: bool)
    ensures
        r == is_citation(run@),
{
    run.len() > 0 && run[0] == '\u{a0}' && run[run.len() - 1] == '\u{a0}'
}

/// The block for a list child with a phonetic annotation whose text runs are
/// `ruby`, and with the runs of its reading example, if any.
pub fn phrase_example(ruby: &Vec<String>, reading: &Option<Vec<String>>) -> (r: DescriptionBlock)
    ensures
        item_block(ExampleItem { ruby: Some(*ruby), reading: *reading }) == Some(r@),
{
    let mut phrase: Vec<char> = Vec::new();
    let mut from: Option<Vec<char>> = None;
    let mut i: usize = 0;
    while i < ruby.len()
        invariant
            i <= ruby@.len(),
            phrase@ == phrase_of(strings_view(ruby@.subrange(0, i as int))),
            match from {
                Some(f) => source_of(strings_view(ruby@.subrange(0, i as int))) == Some(f@),
                None => source_of(strings_view(ruby@.subrange(0, i as int))) is None,
            },
        decreases ruby@.len() - i,
    {
        let run = chars_of(ruby[i].as_str());
        proof {
            let pre = ruby@.subrange(0, i as int);
            let next = ruby@.subrange(0, i + 1);
            assert(strings_view(next).drop_last() =~= strings_view(pre));
        }
        if is_citation_run(&run) {
            from = Some(trim_chars(&run));
        } else {
            push_chars(&mut phrase, &run);
        }
        i = i + 1;
    }
    assert(ruby@.subrange(0, ruby@.len() as int) == ruby@);
    let phrase = string_of(&trim_chars(&phrase));
    let reading = match reading {
        Some(x) => Some(string_of(&extract_text(x))),
        None => None,
    };
    let source = match from {
        Some(f) => Some(string_of(&f)),
        None => None,
    };
    DescriptionBlock::PhraseExample { phrase, reading, source }
}

/// The blocks for the children of an example list, appended to `out`.
pub fn push_example_blocks(out: &mut Vec<DescriptionBlock>, items: &Vec<ExampleItem>)
    ensures
        blocks_view(final(out)@) == blocks_view(old(out)@) + item_blocks(items@),
{
    let mut i: usize = 0;
    while i < items.len()
        invariant
            i <= items@.len(),
            blocks_view(out@) == blocks_view(old(out)@) + item_blocks(items@.subrange(0, i as int)),
        decreases items@.len() - i,
    {
        let ghost pre = items@.subrange(0, i as int);
        let ghost next = items@.subrange(0, i + 1);
        assert(next.drop_last() == pre);
        assert(next.last() == items@[i as int]);
        let ghost before = out@;
        match &items[i].ruby {
            Some(r) => {
                let b = phrase_example(r, &items[i].reading);
                out.push(b);
                assert(blocks_view(out@) =~= blocks_view(before) + seq![b@]);
            },
            None => {},
        }
        i = i + 1;
    }
    assert(items@.subrange(0, items@.len() as int) == items@);
}

/// The cross-reference block for the runs of each active reference.
pub fn cross_reference(refers: &Vec<Vec<String>>) -> (r: DescriptionBlock)
    ensures
        r@ == BlockView::Cross(refers@.map_values(|x: Vec<String>| extracted(x@))),
{
    let mut items: Vec<String> = Vec::new();
    let mut i: usize = 0;
    while i < refers.len()
        invariant
            i <= refers@.len(),
            strings_view(items@) =~= refers@.subrange(0, i as int).map_values(
                |x: Vec<String>| extracted(x@),
            ),
        decreases refers@.len() - i,
    {
        let t = string_of(&extract_text(&refers[i]));
        let ghost before = items@;
        items.push(t);
        proof {
            assert(strings_view(items@) =~= strings_view(before).push(t@));
            assert(refers@.subrange(0, i + 1).map_values(|x: Vec<String>| extracted(x@))
                =~= refers@.subrange(0, i as int).map_values(|x: Vec<String>| extracted(x@)).push(
                extracted(refers@[i as int]@),
            ));
        }
        i = i + 1;
    }
    assert(refers@.subrange(0, refers@.len() as int) == refers@);
    DescriptionBlock::CrossReference { items }
}

/// Whether an element's `class` attribute is exactly `name`.
pub fn has_class(e: &ContentElement, name: &str) -> (r: bool)
    ensures
        r == class_is(*e, name@),
{
    match &e.class {
        Some(c) => c.eq(&name.to_owned()),
        None => false,
    }
}

/// The description blocks of a fragment whose content elements are `elems`,
/// in order.
pub fn describe(elems: &Vec<ContentElement>) -> (r: Vec<DescriptionBlock>)
    ensures
        blocks_view(r@) == description_of(elems@),
{
    let n = elems.len();
    let mut out: Vec<DescriptionBlock> = Vec::new();
    let mut i: usize = 0;
    assert(blocks_view(out@) =~= Seq::<BlockView>::empty());
    while i < n
        invariant
            n == elems@.len(),
            i <= n,
            blocks_view(out@) + blocks_from(elems@, i as int) == description_of(elems@),
        decreases n - i,
    {
        let ghost before = out@;
        let ghost es = elems@;
        let ghost i0 = i;
        if has_class(&elems[i], "wrap_ex") {
            let mut t = extract_text(&elems[i].text);
            if i + 1 < n {
                t.push(' ');
                let u = extract_text(&elems[i + 1].text);
                push_chars(&mut t, &u);
                assert(t@ =~= extracted(es[i as int].text@) + seq![' '] + extracted(
                    es[i + 1].text@,
                ));
                let b = DescriptionBlock::PlainExample { text: string_of(&t) };
                out.push(b);
                assert(blocks_view(out@) =~= blocks_view(before) + seq![b@]);
                assert(blocks_from(es, i as int) == seq![b@] + blocks_from(es, i + 2));
                i = i + 2;
            } else {
                let b = DescriptionBlock::PlainExample { text: string_of(&t) };
                out.push(b);
                assert(blocks_view(out@) =~= blocks_view(before) + seq![b@]);
                assert(blocks_from(es, i + 1) =~= Seq::<BlockView>::empty());
                i = i + 1;
            }
        } else if has_class(&elems[i], "item_example") {
            push_example_blocks(&mut out, &elems[i].items);
            i = i + 1;
        } else if has_class(&elems[i], "ex_refer") {
            let b = cross_reference(&elems[i].refers);
            out.push(b);
            assert(blocks_view(out@) =~= blocks_view(before) + seq![b@]);
            i = i + 1;
        } else {
            i = i + 1;
        }
        assert(blocks_view(out@) + blocks_from(es, i as int) =~= blocks_view(before) + blocks_from(
            es,
            i0 as int,
        ));
    }
    assert(blocks_view(out@) =~= blocks_view(out@) + blocks_from(elems@, i as int));
    out
}

/// The description rules are deterministic: any two results that
/// `describe` may return for one sequence of content elements have the same
/// blocks.
pub proof fn description_is_deterministic(
    elems: Seq<ContentElement>,
    first: Seq<DescriptionBlock>,
    second: Seq<DescriptionBlock>,
)
    requires
        blocks_view(first) == description_of(elems),
        blocks_view(second) == description_of(elems),
    ensures
        blocks_view(first) == blocks_view(second),
{
}

} // verus!
