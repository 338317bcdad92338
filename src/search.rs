//! Resolving a search-results page to the identifier of its first entry.
use vstd::prelude::*;
use crate::text::{chars_of, find_chars, find_from, occurs_at, split_once, string_of};

verus! {

/// The text that stands right before an entry identifier in a result link.
pub open spec fn link_marker() -> Seq<char> {
    "/word/view.do?wordid="@
}

/// The text that stands right before a result's rendered headword.
pub open spec fn headword_marker() -> Seq<char> {
    "class=\"txt_emph1\">"@
}

/// Whether `s` starts with `p`.
pub open spec fn starts_with(s: Seq<char>, p: Seq<char>) -> bool {
    p.len() <= s.len() && s.subrange(0, p.len() as int) == p
}

/// The entry that a search page resolves to: the identifier of the first
/// result link, up to the next `"`, provided the first headword after it
/// starts with the query. Only the first candidate is considered.
pub open spec fn resolved(page: Seq<char>, query: Seq<char>) -> Option<Seq<char>> {
    match split_once(page, link_marker()) {
        Some((_, after)) => match split_once(after, seq!['"']) {
            Some((id, rest)) => match split_once(rest, headword_marker()) {
                Some((_, head)) => if starts_with(head, query) {
                    Some(id)
                } else {
                    None
                },
                None => None,
            },
            None => None,
        },
        None => None,
    }
}

/// Searching a suffix of `s` is searching `s` from further on.
proof fn lemma_find_shift(s: Seq<char>, pat: Seq<char>, a: int, k: int)
    requires
        0 <= a <= s.len(),
        0 <= k,
    ensures
        find_from(s.subrange(a, s.len() as int), pat, k) == (match find_from(s, pat, a + k) {
            Some(i) => Some(i - a),
            None => None::<int>,
        }),
    decreases s.len() + 1 - a - k,
{
    let t = s.subrange(a, s.len() as int);
    if k + pat.len() > t.len() {
    } else {
        assert(t.subrange(k, k + pat.len()) == s.subrange(a + k, a + k + pat.len()));
        if !occurs_at(t, pat, k) {
            lemma_find_shift(s, pat, a, k + 1);
        }
    }
}

/// Searches `s` from `start` for `pat`, stated over the suffix that begins there.
fn find_in_rest(s: &Vec<char>, pat: &Vec<char>, start: usize) -> (r: Option<usize>)
    requires
        start <= s@.len(),
    ensures
        match r {
            Some(i) => start <= i && i + pat@.len() <= s@.len() && find_from(s@.subrange(start as int, s@.len() as int), pat@, 0)
                == Some(i - start),
            None => find_from(s@.subrange(start as int, s@.len() as int), pat@, 0) is None,
        },
{
    proof {
        lemma_find_shift(s@, pat@, start as int, 0);
    }
    let r = find_chars(s, pat, start);
    proof {
        if let Some(i) = r {
            assert(find_from(s@, pat@, start as int) == Some(i as int));
            lemma_find_from_at_least(s@, pat@, start as int);
        }
    }
    r
}

proof fn lemma_find_from_at_least(s: Seq<char>, pat: Seq<char>, k: int)
    ensures
        match find_from(s, pat, k) {
            Some(i) => k <= i && i + pat.len() <= s.len(),
            None => true,
        },
    decreases s.len() + 1 - k,
{
    if k < 0 || k + pat.len() > s.len() {
    } else if occurs_at(s, pat, k) {
    } else {
        lemma_find_from_at_least(s, pat, k + 1);
    }
}

/// The entry identifier that a search page resolves to for `query`, or
/// `None` when the page holds no result link or its first headword does not
/// start with the query.
pub fn resolve_entry(page: &str, query: &str) -> (r: Option<String>)
    ensures
        match r {
            Some(id) => resolved(page@, query@) == Some(id@),
            None => resolved(page@, query@) is None,
        },
{
    let p = chars_of(page);
    let q = chars_of(query);
    let link = chars_of("/word/view.do?wordid=");
    let quote = chars_of("\"");
    let head = chars_of("class=\"txt_emph1\">");
    let n = p.len();
    proof {
        reveal_strlit("/word/view.do?wordid=");
        reveal_strlit("\"");
        reveal_strlit("class=\"txt_emph1\">");
        assert(quote@ == seq!['"']);
        lemma_find_shift(p@, link@, 0, 0);
        assert(p@.subrange(0, p@.len() as int) == p@);
        lemma_find_from_at_least(p@, link@, 0);
    }
    let a = match find_chars(&p, &link, 0) {
        Some(i) => i + link.len(),
        None => return None,
    };
    let ghost after = p@.subrange(a as int, p@.len() as int);
    let b = match find_in_rest(&p, &quote, a) {
        Some(i) => i,
        None => return None,
    };
    proof {
        lemma_find_from_at_least(after, quote@, 0);
    }
    let mut id: Vec<char> = Vec::new();
    let mut k: usize = a;
    while k < b
        invariant
            a <= k <= b < p@.len(),
            id@ == p@.subrange(a as int, k as int),
        decreases b - k,
    {
        id.push(p[k]);
        k = k + 1;
        assert(id@ == p@.subrange(a as int, k as int));
    }
    let c = b + 1;
    let ghost rest = p@.subrange(c as int, p@.len() as int);
    proof {
        assert(after.subrange(0, b - a) == id@);
        assert(after.subrange(b - a + 1, after.len() as int) == rest);
    }
    let d = match find_in_rest(&p, &head, c) {
        Some(i) => i + head.len(),
        None => return None,
    };
    proof {
        lemma_find_from_at_least(rest, head@, 0);
        assert(rest.subrange(d - c, rest.len() as int) == p@.subrange(d as int, p@.len() as int));
        lemma_find_shift(p@, q@, d as int, 0);
        if q@.len() <= p@.len() - d {
            assert(p@.subrange(d as int, p@.len() as int).subrange(0, q@.len() as int)
                =~= p@.subrange(d as int, d + q@.len()));
        }
    }
    if q.len() <= p.len() - d && crate::text::matches_at(&p, &q, d) {
        Some(string_of(&id))
    } else {
        None
    }
}

/// A pattern absent from `s` is absent from every position on.
proof fn lemma_absent_from(s: Seq<char>, pat: Seq<char>, k: int)
    requires
        find_from(s, pat, 0) is None,
        0 <= k,
    ensures
        find_from(s, pat, k) is None,
    decreases k,
{
    if k > 0 {
        lemma_absent_from(s, pat, k - 1);
        if !(k - 1 + pat.len() > s.len()) {
            assert(!occurs_at(s, pat, k - 1));
        }
    }
}

/// A search page without any headword marker resolves to nothing, whatever
/// the query.
pub proof fn no_headword_is_not_found(page: Seq<char>, query: Seq<char>)
    requires
        find_from(page, headword_marker(), 0) is None,
    ensures
        resolved(page, query) is None,
{
    if let Some((_, after)) = split_once(page, link_marker()) {
        let a = find_from(page, link_marker(), 0)->0;
        lemma_find_from_at_least(page, link_marker(), 0);
        if let Some((id, rest)) = split_once(after, seq!['"']) {
            let b = find_from(after, seq!['"'], 0)->0;
            lemma_find_from_at_least(after, seq!['"'], 0);
            let c = a + link_marker().len() + b + 1;
            assert(rest == page.subrange(c, page.len() as int));
            lemma_absent_from(page, headword_marker(), c);
            lemma_find_shift(page, headword_marker(), c, 0);
        }
    }
}

} // verus!
