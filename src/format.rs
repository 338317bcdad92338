//! Rendering a parsed entry as display text.
use vstd::prelude::*;
use crate::describe::{concat, extracted, is_citation, item_block, phrase_of, source_of};
use crate::model::{BlockView, DescriptionBlock, ExampleItem, ParsedEntry, blocks_view, strings_view};
use crate::text::{chars_of, push_chars, string_of, trim, trim_chars};

verus! {

/// The glyph that opens a cross-reference line.
pub open spec fn refer_marker() -> Seq<char> {
    "<:rui:1363124010136764516>"@
}

/// The text of one block, ending in a line break.
pub open spec fn rendered(b: BlockView) -> Seq<char> {
    match b {
        BlockView::Plain(t) => t + "\n"@,
        BlockView::Phrase(p, r, s) => "> "@ + p + match r {
            Some(x) => "("@ + x + ")"@,
            None => Seq::empty(),
        } + match s {
            Some(x) => " 《"@ + x + "》"@,
            None => Seq::empty(),
        } + "\n"@,
        BlockView::Cross(items) => refer_marker() + " "@ + concat(items) + "\n"@,
    }
}

/// The texts of the blocks, in order.
pub open spec fn rendered_all(bs: Seq<BlockView>) -> Seq<char>
    decreases bs.len(),
{
    if bs.len() == 0 {
        Seq::empty()
    } else {
        rendered_all(bs.drop_last()) + rendered(bs.last())
    }
}

/// The display text for `query`: a heading with the query, the trimmed
/// reading in bold, then every block.
pub open spec fn formatted(query: Seq<char>, reading: Seq<char>, blocks: Seq<BlockView>) -> Seq<
    char,
> {
    "# "@ + query + "\n**"@ + trim(reading) + "**\n"@ + rendered_all(blocks)
}

/// Appends the text of `b` to `out`.
pub fn render_block(out: &mut Vec<char>, b: &DescriptionBlock)
    ensures
        final(out)@ == old(out)@ + rendered(b@),
{
    let ghost start = out@;
    match b {
        DescriptionBlock::PlainExample { text } => {
            push_chars(out, &chars_of(text.as_str()));
            push_chars(out, &chars_of("\n"));
            assert(out@ =~= start + rendered(b@));
        },
        DescriptionBlock::PhraseExample { phrase, reading, source } => {
            push_chars(out, &chars_of("> "));
            push_chars(out, &chars_of(phrase.as_str()));
            match reading {
                Some(x) => {
                    push_chars(out, &chars_of("("));
                    push_chars(out, &chars_of(x.as_str()));
                    push_chars(out, &chars_of(")"));
                },
                None => {},
            }
            match source {
                Some(x) => {
                    push_chars(out, &chars_of(" 《"));
                    push_chars(out, &chars_of(x.as_str()));
                    push_chars(out, &chars_of("》"));
                },
                None => {},
            }
            push_chars(out, &chars_of("\n"));
            assert(out@ =~= start + rendered(b@));
        },
        DescriptionBlock::CrossReference { items } => {
            push_chars(out, &chars_of("<:rui:1363124010136764516>"));
            push_chars(out, &chars_of(" "));
            let mut i: usize = 0;
            let ghost head = out@;
            while i < items.len()
                invariant
                    i <= items@.len(),
                    out@ == head + concat(strings_view(items@.subrange(0, i as int))),
                decreases items@.len() - i,
            {
                push_chars(out, &chars_of(items[i].as_str()));
                proof {
                    assert(strings_view(items@.subrange(0, i + 1)).drop_last() =~= strings_view(
                        items@.subrange(0, i as int),
                    ));
                }
                i = i + 1;
            }
            assert(items@.subrange(0, items@.len() as int) == items@);
            push_chars(out, &chars_of("\n"));
            assert(out@ =~= start + rendered(b@));
        },
    }
}

/// The display text of `entry` for `query`: a heading line with the query,
/// the trimmed reading in bold, and each block's text in order.
pub fn format_entry(query: &str, entry: &ParsedEntry) -> (r: String)
    ensures
        r@ == formatted(query@, entry.reading@, blocks_view(entry.blocks@)),
{
    let mut out: Vec<char> = Vec::new();
    push_chars(&mut out, &chars_of("# "));
    push_chars(&mut out, &chars_of(query));
    push_chars(&mut out, &chars_of("\n**"));
    push_chars(&mut out, &trim_chars(&chars_of(entry.reading.as_str())));
    push_chars(&mut out, &chars_of("**\n"));
    let ghost head = out@;
    let mut i: usize = 0;
    while i < entry.blocks.len()
        invariant
            i <= entry.blocks@.len(),
            out@ == head + rendered_all(blocks_view(entry.blocks@.subrange(0, i as int))),
        decreases entry.blocks@.len() - i,
    {
        render_block(&mut out, &entry.blocks[i]);
        proof {
            assert(blocks_view(entry.blocks@.subrange(0, i + 1)).drop_last() =~= blocks_view(
                entry.blocks@.subrange(0, i as int),
            ));
        }
        i = i + 1;
    }
    assert(entry.blocks@.subrange(0, entry.blocks@.len() as int) == entry.blocks@);
    assert(out@ =~= formatted(query@, entry.reading@, blocks_view(entry.blocks@)));
    string_of(&out)
}

/// Formatting the same entry twice gives byte-identical text: any two
/// results that `format_entry` may return for one query and entry are equal.
pub proof fn formatting_is_repeatable(query: Seq<char>, entry: ParsedEntry, first: String, second: String)
    requires
        first@ == formatted(query, entry.reading@, blocks_view(entry.blocks@)),
        second@ == formatted(query, entry.reading@, blocks_view(entry.blocks@)),
    ensures
        first@ == second@,
{
}

/// With no citation among the runs, the phrase is all of them joined.
proof fn lemma_phrase_without_citation(runs: Seq<Seq<char>>)
    requires
        forall|i: int| 0 <= i < runs.len() ==> !is_citation(#[trigger] runs[i]),
    ensures
        phrase_of(runs) == concat(runs),
        source_of(runs) is None,
    decreases runs.len(),
{
    if runs.len() > 0 {
        lemma_phrase_without_citation(runs.drop_last());
    }
}

/// With exactly one citation, at `k`, the phrase is the other runs joined and
/// the source is that run trimmed.
proof fn lemma_phrase_one_citation(runs: Seq<Seq<char>>, k: int)
    requires
        0 <= k < runs.len(),
        is_citation(runs[k]),
        forall|i: int| 0 <= i < runs.len() && i != k ==> !is_citation(#[trigger] runs[i]),
    ensures
        phrase_of(runs) == concat(runs.remove(k)),
        source_of(runs) == Some(trim(runs[k])),
    decreases runs.len(),
{
    let init = runs.drop_last();
    if k == runs.len() - 1 {
        lemma_phrase_without_citation(init);
        assert(runs.remove(k) =~= init);
    } else {
        lemma_phrase_one_citation(init, k);
        assert(runs.remove(k).drop_last() =~= init.remove(k));
        assert(runs.remove(k).last() == runs.last());
    }
}

/// An annotated list child whose annotation has exactly one citation run
/// and which has a reading example renders as a bullet, the other runs
/// joined and trimmed, the reading in parentheses and the citation between
/// the glyph pair, on one line.
pub proof fn one_citation_example_line(item: ExampleItem, k: int)
    requires
        item.ruby is Some,
        item.reading is Some,
        0 <= k < item.ruby->0@.len(),
        is_citation(item.ruby->0@[k]@),
        forall|i: int|
            0 <= i < item.ruby->0@.len() && i != k ==> !is_citation(#[trigger] item.ruby->0@[i]@),
    ensures
        item_block(item) is Some,
        rendered(item_block(item)->0) == "> "@ + trim(concat(strings_view(item.ruby->0@).remove(k)))
            + "("@ + extracted(item.reading->0@) + ")"@ + " 《"@ + trim(item.ruby->0@[k]@) + "》"@
            + "\n"@,
{
    let runs = strings_view(item.ruby->0@);
    assert forall|i: int| 0 <= i < runs.len() && i != k implies !is_citation(#[trigger] runs[i]) by {
        assert(runs[i] == item.ruby->0@[i]@);
    }
    lemma_phrase_one_citation(runs, k);
}

} // verus!
