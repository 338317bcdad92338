use hanja_lookup::describe::{describe, extract_text, is_citation_run};
use hanja_lookup::format::format_entry;
use hanja_lookup::lookup::{
    entry_url, reply_text, search_params, supplement_url, Lookup, Request, Step, SEARCH_URL,
};
use hanja_lookup::markup::{extract_reading, parse_description, Hanja};
use hanja_lookup::model::{ContentElement, DescriptionBlock, ExampleItem, LookupError, ParsedEntry};
use hanja_lookup::search::resolve_entry;
use hanja_lookup::text::{find_chars, trim_chars};

const MARKER: &str = "<:rui:1363124010136764516>";

fn s(x: &str) -> String {
    x.to_string()
}

fn runs(xs: &[&str]) -> Vec<String> {
    xs.iter().map(|x| x.to_string()).collect()
}

fn element(class: Option<&str>, text: &[&str]) -> ContentElement {
    ContentElement { class: class.map(s), text: runs(text), items: vec![], refers: vec![] }
}

fn render(blocks: Vec<DescriptionBlock>) -> String {
    let entry = ParsedEntry { reading: s(""), blocks };
    let out = format_entry("q", &entry);
    out.strip_prefix("# q\n****\n").unwrap().to_string()
}

fn hanja() -> Hanja {
    Hanja::new()
}

#[test]
fn search_page_without_marker_is_not_found() {
    assert_eq!(resolve_entry("<html><body>nothing here</body></html>", "水"), None);
    assert_eq!(resolve_entry("", "水"), None);
}

#[test]
fn search_page_without_headword_is_not_found() {
    let page = r#"<a href="/word/view.do?wordid=hhw000123">x</a>"#;
    assert_eq!(resolve_entry(page, "水"), None);
}

#[test]
fn prefix_headword_is_accepted() {
    let page = r#"<a href="/word/view.do?wordid=hhw000123" class="link"><span class="txt_emph1">水道</span>"#;
    assert_eq!(resolve_entry(page, "水"), Some(s("hhw000123")));
}

#[test]
fn exact_headword_is_accepted() {
    let page = r#"x/word/view.do?wordid=abc"y class="txt_emph1">水</span>"#;
    assert_eq!(resolve_entry(page, "水"), Some(s("abc")));
}

#[test]
fn other_headword_is_rejected() {
    let page = r#"/word/view.do?wordid=abc" class="txt_emph1">道水</span>"#;
    assert_eq!(resolve_entry(page, "水"), None);
}

#[test]
fn only_first_candidate_is_considered() {
    let page = r#"/word/view.do?wordid=first" class="txt_emph1">火</span>/word/view.do?wordid=second" class="txt_emph1">水</span>"#;
    assert_eq!(resolve_entry(page, "水"), None);
}

#[test]
fn unterminated_link_is_not_found() {
    assert_eq!(resolve_entry("/word/view.do?wordid=abc", "a"), None);
}

#[test]
fn trims_unicode_whitespace() {
    let v: Vec<char> = "\u{a0} \t水道\n\u{3000}".chars().collect();
    let r: String = trim_chars(&v).into_iter().collect();
    assert_eq!(r, "水道");
    let e: Vec<char> = " \u{a0} ".chars().collect();
    assert!(trim_chars(&e).is_empty());
}

#[test]
fn finds_first_occurrence() {
    let s1: Vec<char> = "abcabc".chars().collect();
    let p: Vec<char> = "ca".chars().collect();
    assert_eq!(find_chars(&s1, &p, 0), Some(2));
    assert_eq!(find_chars(&s1, &p, 3), None);
}

#[test]
fn extracted_text_is_joined_and_trimmed() {
    let r: String = extract_text(&runs(&["  a", "b ", " "])).into_iter().collect();
    assert_eq!(r, "ab");
}

#[test]
fn citation_needs_both_ends() {
    let both: Vec<char> = "\u{a0}論語\u{a0}".chars().collect();
    let left: Vec<char> = "\u{a0}論語".chars().collect();
    let right: Vec<char> = "論語\u{a0}".chars().collect();
    let single: Vec<char> = "\u{a0}".chars().collect();
    assert!(is_citation_run(&both));
    assert!(!is_citation_run(&left));
    assert!(!is_citation_run(&right));
    assert!(is_citation_run(&single));
    assert!(!is_citation_run(&vec![]));
}

#[test]
fn plain_example_joins_next_element() {
    let elems = vec![
        element(Some("wrap_ex"), &[" first ", "part"]),
        element(Some("item_example"), &["second "]),
        element(Some("wrap_ex"), &["last"]),
    ];
    let out = render(describe(&elems));
    assert_eq!(out, "first part second\nlast\n");
}

#[test]
fn plain_example_at_end_stands_alone() {
    let elems = vec![element(Some("wrap_ex"), &["  only  "])];
    assert_eq!(render(describe(&elems)), "only\n");
}

#[test]
fn unknown_elements_are_skipped() {
    let elems = vec![element(None, &["x"]), element(Some("other"), &["y"]), element(Some("wrap_ex extra"), &["z"])];
    assert!(describe(&elems).is_empty());
}

#[test]
fn example_list_gives_phrase_blocks() {
    let mut list = element(Some("item_example"), &[]);
    list.items = vec![
        ExampleItem {
            ruby: Some(runs(&["水", "\u{a0}論語\u{a0}", "道 "])),
            reading: Some(runs(&[" 수", "도 "])),
        },
        ExampleItem { ruby: None, reading: Some(runs(&["skipped"])) },
        ExampleItem { ruby: Some(runs(&[" 山", "\u{a0}x"])), reading: None },
    ];
    let out = render(describe(&vec![list]));
    assert_eq!(out, "> 水道(수도) 《論語》\n> 山\u{a0}x\n");
}

#[test]
fn last_citation_wins() {
    let mut list = element(Some("item_example"), &[]);
    list.items = vec![ExampleItem {
        ruby: Some(runs(&["\u{a0}A\u{a0}", "p", "\u{a0}B\u{a0}"])),
        reading: None,
    }];
    let blocks = describe(&vec![list]);
    match &blocks[0] {
        DescriptionBlock::PhraseExample { phrase, reading, source } => {
            assert_eq!(phrase, "p");
            assert_eq!(reading, &None);
            assert_eq!(source, &Some(s("B")));
        }
        _ => panic!("expected a phrase example"),
    }
}

#[test]
fn cross_reference_joins_without_separator() {
    let mut refer = element(Some("ex_refer"), &[]);
    refer.refers = vec![runs(&[" A "]), runs(&["B"])];
    assert_eq!(render(describe(&vec![refer])), format!("{MARKER} AB\n"));
}

#[test]
fn fragment_plain_example_with_continuation() {
    let html = r#"<div><div class="wrap_ex"> 물 <b>수</b> </div><p> water </p><div class="wrap_ex">end</div></div>"#;
    let blocks = parse_description(html, &hanja());
    assert_eq!(render(blocks), "물 수 water\nend\n");
}

#[test]
fn fragment_example_list() {
    let html = [
        r#"<div><ul class="item_example">"#,
        r#"<li><span class="desc_ruby">水<span>&nbsp;論語&nbsp;</span>道</span><span class="desc_ex"> 수도 </span></li>"#,
        r#"<li>no annotation</li>"#,
        r#"</ul></div>"#,
    ]
    .concat();
    let html = html.as_str();
    let blocks = parse_description(html, &hanja());
    assert_eq!(render(blocks), "> 水道(수도) 《論語》\n");
}

#[test]
fn fragment_cross_reference() {
    let html = [
        r#"<div><div class="ex_refer">"#,
        r#"<span class="txt_refer on">A</span><span class="txt_refer">X</span><span class="txt_refer on"> B </span>"#,
        r#"</div></div>"#,
    ]
    .concat();
    let html = html.as_str();
    let blocks = parse_description(html, &hanja());
    assert_eq!(render(blocks), format!("{MARKER} AB\n"));
}

#[test]
fn parsing_is_deterministic() {
    let html = r#"<div><div class="wrap_ex">a</div><p>b</p><div class="ex_refer"><span class="txt_refer on">C</span></div></div>"#;
    let h = hanja();
    assert_eq!(render(parse_description(html, &h)), render(parse_description(html, &h)));
}

#[test]
fn reading_is_read_from_entry_page() {
    let page = r#"<html><body><span class="txt_read"> <b>물</b> 수 </span><span class="txt_read">x</span></body></html>"#;
    assert_eq!(extract_reading(page, &hanja()), Ok(s(" 물 수 ")));
}

#[test]
fn missing_reading_is_unexpected_structure() {
    let page = "<html><body><p>nothing</p></body></html>";
    assert_eq!(extract_reading(page, &hanja()), Err(LookupError::UnexpectedStructure));
}

#[test]
fn formats_heading_reading_and_blocks() {
    let entry = ParsedEntry {
        reading: s("  물 수 \n"),
        blocks: vec![
            DescriptionBlock::PlainExample { text: s("a b") },
            DescriptionBlock::PhraseExample { phrase: s("水道"), reading: Some(s("수도")), source: None },
            DescriptionBlock::PhraseExample { phrase: s("p"), reading: None, source: Some(s("S")) },
            DescriptionBlock::CrossReference { items: vec![s("A"), s("B")] },
        ],
    };
    let out = format_entry("水", &entry);
    assert_eq!(out, format!("# 水\n**물 수**\na b\n> 水道(수도)\n> p 《S》\n{MARKER} AB\n"));
}

#[test]
fn empty_reading_passes_through() {
    let entry = ParsedEntry { reading: s(""), blocks: vec![] };
    assert_eq!(format_entry("水", &entry), "# 水\n****\n");
}

#[test]
fn formatting_twice_is_identical() {
    let entry = ParsedEntry {
        reading: s("수"),
        blocks: vec![DescriptionBlock::CrossReference { items: vec![s("A")] }],
    };
    assert_eq!(format_entry("水", &entry), format_entry("水", &entry));
}

#[test]
fn builds_request_addresses() {
    assert_eq!(entry_url("hhw1"), "https://dic.daum.net/word/view.do?wordid=hhw1");
    assert_eq!(
        supplement_url("hhw1"),
        "https://dic.daum.net/word/view_supword.do?suptype=KUMSUNG_HH&wordid=hhw1"
    );
    assert_eq!(SEARCH_URL, "https://dic.daum.net/search.do");
    assert_eq!(search_params("水"), vec![(s("dic"), s("hanja")), (s("q"), s("水"))]);
}

#[test]
fn replies_for_each_outcome() {
    let entry = ParsedEntry { reading: s("수"), blocks: vec![] };
    assert_eq!(reply_text("水", &Ok(entry)), Some(s("# 水\n**수**\n")));
    assert_eq!(reply_text("水", &Err(LookupError::NotFound)), Some(s("No result")));
    assert_eq!(reply_text("水", &Err(LookupError::NetworkError)), None);
    assert_eq!(reply_text("水", &Err(LookupError::UnexpectedStructure)), None);
}

#[test]
fn lookup_runs_search_entry_and_examples() {
    let h = hanja();
    let (lookup, request) = Lookup::start("水");
    assert_eq!(lookup, Lookup::Searching { query: s("水") });
    assert_eq!(
        request,
        Request {
            url: s(SEARCH_URL),
            params: vec![(s("dic"), s("hanja")), (s("q"), s("水"))],
            referer: None
        }
    );
    let search = r#"<a href="/word/view.do?wordid=hhw7" class="x"><span class="txt_emph1">水</span>"#;
    let (lookup, request) = match lookup.advance(Ok(s(search)), &h) {
        Step::Fetch(l, r) => (l, r),
        Step::Done(o) => panic!("unexpected end: {o:?}"),
    };
    assert_eq!(lookup, Lookup::ReadingEntry { query: s("水"), id: s("hhw7") });
    assert_eq!(request.url, "https://dic.daum.net/word/view.do?wordid=hhw7");
    assert_eq!(request.referer, None);
    let entry = r#"<html><body><span class="txt_read">물 수</span></body></html>"#;
    let (lookup, request) = match lookup.advance(Ok(s(entry)), &h) {
        Step::Fetch(l, r) => (l, r),
        Step::Done(o) => panic!("unexpected end: {o:?}"),
    };
    assert_eq!(
        request.url,
        "https://dic.daum.net/word/view_supword.do?suptype=KUMSUNG_HH&wordid=hhw7"
    );
    assert_eq!(request.referer, Some(s("https://dic.daum.net/word/view.do?wordid=hhw7")));
    assert!(request.params.is_empty());
    let examples = r#"<div><div class="wrap_ex">a</div><p>b</p></div>"#;
    match lookup.advance(Ok(s(examples)), &h) {
        Step::Done(Ok(entry)) => {
            assert_eq!(format_entry("水", &entry), "# 水\n**물 수**\na b\n");
        }
        other => panic!("unexpected step: {other:?}"),
    }
}

#[test]
fn lookup_ends_on_each_failure() {
    let h = hanja();
    let (lookup, _) = Lookup::start("水");
    assert_eq!(lookup.advance(Ok(s("no results")), &h), Step::Done(Err(LookupError::NotFound)));
    let (lookup, _) = Lookup::start("水");
    assert_eq!(
        lookup.advance(Err(LookupError::NetworkError), &h),
        Step::Done(Err(LookupError::NetworkError))
    );
    let at_entry = Lookup::ReadingEntry { query: s("水"), id: s("x") };
    assert_eq!(
        at_entry.advance(Ok(s("<p>changed</p>")), &h),
        Step::Done(Err(LookupError::UnexpectedStructure))
    );
}

#[test]
fn single_citation_example_line() {
    let mut list = element(Some("item_example"), &[]);
    list.items = vec![ExampleItem {
        ruby: Some(runs(&["天地", "\u{a0}千字文\u{a0}"])),
        reading: Some(runs(&[" 천지 "])),
    }];
    assert_eq!(render(describe(&vec![list])), "> 天地(천지) 《千字文》\n");
}

#[test]
fn reading_selector_is_the_reading_field() {
    assert_eq!(Hanja::new().read, ".txt_read");
    let page = r#"<div class="other txt_read">a<i>b</i></div>"#;
    assert_eq!(extract_reading(page, &hanja()), Ok(s("ab")));
}
