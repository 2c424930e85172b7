//! Reading HTML documents: title, plain text, outgoing links.
use vstd::prelude::*;
use crate::text::{
    chars_of, find_ci, first_ci, has_token, has_token_exec, is_ws, is_ws_exec, str_eq,
    string_from_chars, string_of_range, trim_range, trimmed,
};
use crate::weburl::{joined_url, resolve_url};
use vstd::utf8::encode_utf8;

verus! {

/// For each element of `html` that `selector` matches, in document order,
/// the values of its attributes `first` and `second`.
pub uninterp spec fn selected_attrs(
    html: Seq<char>,
    selector: Seq<char>,
    first: Seq<char>,
    second: Seq<char>,
) -> Seq<(Option<Seq<char>>, Option<Seq<char>>)>;

pub open spec fn pair_view(p: (Option<String>, Option<String>)) -> (Option<Seq<char>>, Option<Seq<char>>) {
    (
        match p.0 {
            Some(s) => Some(s@),
            None => None,
        },
        match p.1 {
            Some(s) => Some(s@),
            None => None,
        },
    )
}

/// Relies on `scraper::Html::parse_document`, `scraper::Selector::parse` and
/// `Html::select`, reading `Element::attr` twice per match; a selector that
/// does not parse matches nothing.
#[verifier::external_body]
pub(crate) fn select_attrs(html: &str, selector: &str, first: &str, second: &str) -> (r: Vec<
    (Option<String>, Option<String>),
>)
    ensures
        r@.map_values(|p: (Option<String>, Option<String>)| pair_view(p)) == selected_attrs(
            html@,
            selector@,
            first@,
            second@,
        ),
{
    let document = scraper::Html::parse_document(html);
    let Ok(sel) = scraper::Selector::parse(selector) else {
        return Vec::new();
    };
    document.select(&sel).map(|e| {
        (e.value().attr(first).map(|v| v.to_string()), e.value().attr(second).map(|v| v.to_string()))
    }).collect()
}

/// The nodes under the root element of `html`, in document order: the text
/// of each text node, `None` for the other nodes.
pub uninterp spec fn text_nodes_of(html: Seq<char>) -> Seq<Option<Seq<char>>>;

pub open spec fn opt_views(v: Seq<Option<String>>) -> Seq<Option<Seq<char>>> {
    v.map_values(|t: Option<String>| opt_view(t))
}

/// Relies on `scraper::Html::parse_document`, walking the descendants of the
/// root element and reading `Node::as_text` of each.
#[verifier::external_body]
pub(crate) fn text_nodes(html: &str) -> (r: Vec<Option<String>>)
    ensures
        opt_views(r@) == text_nodes_of(html@),
{
    let document = scraper::Html::parse_document(html);
    document.root_element().descendants().map(|n| n.value().as_text().map(|t| t.to_string())).collect()
}

/// `a` comes no later than `b` in lexicographic order of bytes.
pub open spec fn bytes_le(a: Seq<u8>, b: Seq<u8>) -> bool
    decreases a.len(),
{
    if a.len() == 0 {
        true
    } else if b.len() == 0 {
        false
    } else if a[0] != b[0] {
        a[0] < b[0]
    } else {
        bytes_le(a.drop_first(), b.drop_first())
    }
}

/// `a` comes no later than `b` in the order of `str`: lexicographic over
/// their UTF-8 bytes.
pub open spec fn text_le(a: Seq<char>, b: Seq<char>) -> bool {
    bytes_le(encode_utf8(a), encode_utf8(b))
}

/// Relies on `slice::sort` on `String`: the same strings, in ascending order
/// of `str`'s `Ord`, which orders strings lexicographically by their bytes.
#[verifier::external_body]
fn sort_strings(v: &mut Vec<String>)
    ensures
        views(final(v)@).to_multiset() == views(old(v)@).to_multiset(),
        forall|i: int, j: int|
            0 <= i < j < final(v)@.len() ==> #[trigger] text_le(
                views(final(v)@)[i],
                views(final(v)@)[j],
            ),
{
    v.sort();
}

/// The text of each text node, each preceded by one space.
pub open spec fn spaced_join(nodes: Seq<Option<Seq<char>>>) -> Seq<char>
    decreases nodes.len(),
{
    if nodes.len() == 0 {
        Seq::empty()
    } else {
        match nodes.last() {
            Some(t) => spaced_join(nodes.drop_last()) + seq![' '] + t,
            None => spaced_join(nodes.drop_last()),
        }
    }
}

/// White space collapsed: runs become one space, none at either end.
/// `pending` says a run was just seen, `started` that a word was emitted.
pub open spec fn collapse(s: Seq<char>, pending: bool, started: bool) -> Seq<char>
    decreases s.len(),
{
    if s.len() == 0 {
        Seq::empty()
    } else if is_ws(s[0]) {
        collapse(s.drop_first(), true, started)
    } else if pending && started {
        seq![' ', s[0]] + collapse(s.drop_first(), false, true)
    } else {
        seq![s[0]] + collapse(s.drop_first(), false, true)
    }
}

/// The plain text of a document: its text nodes in order, separated by
/// white space, with white space normalised.
pub open spec fn plain_text_of(html: Seq<char>) -> Seq<char> {
    collapse(spaced_join(text_nodes_of(html)), false, false)
}

fn collapse_ws(s: &Vec<char>) -> (r: Vec<char>)
    ensures
        r@ == collapse(s@, false, false),
{
    let mut out: Vec<char> = Vec::new();
    let mut pending = false;
    let mut i: usize = 0;
    proof {
        assert(s@.skip(0) =~= s@);
    }
    while i < s.len()
        invariant
            i <= s.len(),
            out@ + collapse(s@.skip(i as int), pending, out.len() > 0) == collapse(s@, false, false),
        decreases s.len() - i,
    {
        let ghost t = s@.skip(i as int);
        let ghost before = out@;
        let ghost p0 = pending;
        let ghost st0 = out.len() > 0;
        proof {
            assert(t[0] == s@[i as int]);
            assert(t.drop_first() =~= s@.skip(i + 1));
        }
        let c = s[i];
        if is_ws_exec(c) {
            pending = true;
        } else {
            let ghost rest = collapse(s@.skip(i + 1), false, true);
            if pending && out.len() > 0 {
                out.push(' ');
                out.push(c);
                proof {
                    assert(out@ =~= before + seq![' ', c]);
                    assert(out@ + rest =~= before + (seq![' ', c] + rest));
                }
            } else {
                out.push(c);
                proof {
                    assert(out@ =~= before + seq![c]);
                    assert(out@ + rest =~= before + (seq![c] + rest));
                }
            }
            pending = false;
        }
        i = i + 1;
    }
    proof {
        assert(s@.skip(i as int).len() == 0);
        assert(out@ + Seq::<char>::empty() =~= out@);
    }
    out
}

/// Plain text of a document, for indexing.
pub fn remove_html_tags(html: &str) -> (r: String)
    ensures
        r@ == plain_text_of(html@),
{
    let nodes = text_nodes(html);
    let mut all: Vec<char> = Vec::new();
    let mut i: usize = 0;
    let ghost views = opt_views(nodes@);
    while i < nodes.len()
        invariant
            i <= nodes.len(),
            views == opt_views(nodes@),
            all@ == spaced_join(views.take(i as int)),
        decreases nodes.len() - i,
    {
        let ghost before = all@;
        proof {
            assert(views.take(i + 1).drop_last() =~= views.take(i as int));
            assert(views.take(i + 1).last() == opt_view(nodes@[i as int]));
        }
        if let Some(text) = &nodes[i] {
            let node = chars_of(text.as_str());
            all.push(' ');
            let mut k: usize = 0;
            while k < node.len()
                invariant
                    k <= node.len(),
                    all@ == before + seq![' '] + node@.take(k as int),
                decreases node.len() - k,
            {
                all.push(node[k]);
                proof {
                    assert(node@.take(k + 1) =~= node@.take(k as int).push(node@[k as int]));
                }
                k = k + 1;
            }
            proof {
                assert(node@.take(k as int) =~= node@);
            }
        }
        i = i + 1;
    }
    proof {
        assert(views.take(i as int) =~= views);
    }
    let text = collapse_ws(&all);
    string_from_chars(text.as_slice())
}

/// What a reference resolves to against `base`: the joined URL, or the
/// reference itself when joining fails.
pub open spec fn resolved(base: Seq<char>, href: Seq<char>) -> Seq<char> {
    match joined_url(base, href) {
        Some(j) => j,
        None => href,
    }
}

/// The link an anchor (rel, href) contributes: none when `rel` has a
/// `nofollow` token (white-space separated, any case) or the trimmed
/// `href` is empty.
pub open spec fn link_of(a: (Option<Seq<char>>, Option<Seq<char>>), base: Seq<char>) -> Option<Seq<char>> {
    match a.1 {
        None => None,
        Some(h) => if a.0 matches Some(rel) && has_token(rel, "nofollow"@, false) {
            None
        } else if trimmed(h).len() == 0 {
            None
        } else {
            Some(resolved(base, trimmed(h)))
        },
    }
}

/// The links of a sequence of anchors, in order, repeats included.
pub open spec fn links_of(anchors: Seq<(Option<Seq<char>>, Option<Seq<char>>)>, base: Seq<char>) -> Seq<Seq<char>>
    decreases anchors.len(),
{
    if anchors.len() == 0 {
        Seq::empty()
    } else {
        links_of(anchors.drop_last(), base) + match link_of(anchors.last(), base) {
            Some(l) => seq![l],
            None => Seq::empty(),
        }
    }
}

/// The (rel, href) attributes of the `<a href>` elements of a document.
pub open spec fn anchors_of(html: Seq<char>) -> Seq<(Option<Seq<char>>, Option<Seq<char>>)> {
    selected_attrs(html, "a[href]"@, "rel"@, "href"@)
}

fn link_of_exec(a: &(Option<String>, Option<String>), base_url: &str) -> (r: Option<String>)
    ensures
        opt_view(r) == link_of(pair_view(*a), base_url@),
{
    let href = match &a.1 {
        Some(h) => h,
        None => {
            return None;
        },
    };
    if let Some(rel) = &a.0 {
        let rc = chars_of(rel.as_str());
        let nf = chars_of("nofollow");
        if has_token_exec(&rc, &nf, false) {
            return None;
        }
    }
    let hc = chars_of(href.as_str());
    let (lo, hi) = trim_range(&hc, 0, hc.len());
    proof {
        assert(hc@.subrange(0, hc@.len() as int) =~= hc@);
    }
    if lo == hi {
        return None;
    }
    let t = string_of_range(&hc, lo, hi);
    Some(resolve_url(base_url, t.as_str()))
}

pub open spec fn opt_view(o: Option<String>) -> Option<Seq<char>> {
    match o {
        Some(s) => Some(s@),
        None => None,
    }
}

pub open spec fn views(v: Seq<String>) -> Seq<Seq<char>> {
    v.map_values(|t: String| t@)
}

fn contains_str(v: &Vec<String>, x: &String) -> (r: bool)
    ensures
        r == views(v@).contains(x@),
{
    let mut i: usize = 0;
    while i < v.len()
        invariant
            i <= v.len(),
            forall|k: int| 0 <= k < i ==> views(v@)[k] != x@,
        decreases v.len() - i,
    {
        if str_eq(v[i].as_str(), x.as_str()) {
            assert(views(v@)[i as int] == x@);
            return true;
        }
        i = i + 1;
    }
    false
}

/// Outgoing links of a document: each `<a href>` without `nofollow` in its
/// `rel`, resolved against `base_url`, each link once, in ascending order.
pub fn extract_links(html: &str, base_url: &str) -> (r: Vec<String>)
    ensures
        views(r@).no_duplicates(),
        forall|i: int, j: int|
            0 <= i < j < r@.len() ==> #[trigger] text_le(views(r@)[i], views(r@)[j]),
        forall|x: Seq<char>|
            views(r@).contains(x) <==> links_of(anchors_of(html@), base_url@).contains(x),
{
    let anchors = select_attrs(html, "a[href]", "rel", "href");
    let ghost av = anchors@.map_values(|p: (Option<String>, Option<String>)| pair_view(p));
    let mut cand: Vec<String> = Vec::new();
    let mut i: usize = 0;
    while i < anchors.len()
        invariant
            i <= anchors.len(),
            av == anchors@.map_values(|p: (Option<String>, Option<String>)| pair_view(p)),
            av == anchors_of(html@),
            views(cand@) == links_of(av.take(i as int), base_url@),
        decreases anchors.len() - i,
    {
        let ghost before = views(cand@);
        proof {
            assert(av.take(i + 1).drop_last() =~= av.take(i as int));
            assert(av.take(i + 1).last() == pair_view(anchors@[i as int]));
        }
        match link_of_exec(&anchors[i], base_url) {
            Some(l) => {
                cand.push(l);
                proof {
                    assert(views(cand@) =~= before + seq![l@]);
                }
            },
            None => {
                proof {
                    assert(before + Seq::<Seq<char>>::empty() =~= before);
                }
            },
        }
        i = i + 1;
    }
    proof {
        assert(av.take(i as int) =~= av);
    }
    let mut out: Vec<String> = Vec::new();
    let mut j: usize = 0;
    while j < cand.len()
        invariant
            j <= cand.len(),
            views(out@).no_duplicates(),
            forall|x: Seq<char>|
                views(out@).contains(x) <==> views(cand@).take(j as int).contains(x),
        decreases cand.len() - j,
    {
        let ghost before = views(out@);
        proof {
            assert(views(cand@).take(j + 1) =~= views(cand@).take(j as int).push(cand@[j as int]@));
        }
        let ghost tj = views(cand@).take(j as int);
        let ghost y = cand@[j as int]@;
        let present = contains_str(&out, &cand[j]);
        if !present {
            out.push(cand[j].clone());
            proof {
                assert(views(out@) =~= before.push(y));
            }
        }
        proof {
            assert forall|x: Seq<char>| views(out@).contains(x) <==> tj.push(y).contains(x) by {
                if tj.push(y).contains(x) {
                    let k = choose|k: int| 0 <= k < tj.push(y).len() && tj.push(y)[k] == x;
                    if k < tj.len() {
                        assert(tj[k] == x);
                        assert(tj.contains(x));
                    }
                    if !present {
                        if k < tj.len() {
                            assert(before.contains(x));
                            let m = choose|m: int| 0 <= m < before.len() && before[m] == x;
                            assert(views(out@)[m] == x);
                        } else {
                            assert(views(out@)[before.len() as int] == x);
                        }
                    }
                }
                if views(out@).contains(x) {
                    let m = choose|m: int| 0 <= m < views(out@).len() && views(out@)[m] == x;
                    if m < before.len() {
                        assert(before[m] == x);
                        assert(before.contains(x));
                        let k = choose|k: int| 0 <= k < tj.len() && tj[k] == x;
                        assert(tj.push(y)[k] == x);
                    } else {
                        assert(tj.push(y)[tj.len() as int] == x);
                    }
                }
            }
        }
        j = j + 1;
    }
    proof {
        assert(views(cand@).take(j as int) =~= views(cand@));
    }
    let ghost unsorted = views(out@);
    sort_strings(&mut out);
    proof {
        let sorted = views(out@);
        unsorted.lemma_multiset_has_no_duplicates();
        assert forall|x: Seq<char>| sorted.to_multiset().contains(x) implies sorted.to_multiset().count(
            x,
        ) == 1 by {
            vstd::seq_lib::to_multiset_contains(sorted, x);
            vstd::seq_lib::to_multiset_contains(unsorted, x);
        }
        sorted.lemma_multiset_has_no_duplicates_conv();
        assert forall|x: Seq<char>| sorted.contains(x) <==> unsorted.contains(x) by {
            vstd::seq_lib::to_multiset_contains(sorted, x);
            vstd::seq_lib::to_multiset_contains(unsorted, x);
        }
    }
    out
}

/// The trimmed text between the first `open` tag (up to its `>`) and the
/// next `close`, matched ignoring case; `None` when a part is missing or the
/// text is blank.
pub open spec fn tag_text(s: Seq<char>, open: Seq<char>, close: Seq<char>) -> Option<Seq<char>> {
    match first_ci(s, open, 0) {
        None => None,
        Some(start) => match first_ci(s, ">"@, start) {
            None => None,
            Some(gt) => match first_ci(s, close, gt + 1) {
                None => None,
                Some(end) => {
                    let t = trimmed(s.subrange(gt + 1, end));
                    if t.len() > 0 {
                        Some(t)
                    } else {
                        None
                    }
                },
            },
        },
    }
}

/// The title of a document: the text of its first `<title>`, else of its
/// first `<h1>`.
pub open spec fn title_of(s: Seq<char>) -> Option<Seq<char>> {
    match tag_text(s, "<title"@, "</title>"@) {
        Some(t) => Some(t),
        None => tag_text(s, "<h1"@, "</h1>"@),
    }
}

fn tag_text_exec(s: &Vec<char>, open: &str, close: &str) -> (r: Option<String>)
    ensures
        match r {
            Some(t) => tag_text(s@, open@, close@) == Some(t@),
            None => tag_text(s@, open@, close@) is None,
        },
{
    let open_c = chars_of(open);
    let close_c = chars_of(close);
    let gt_c = chars_of(">");
    let start = match find_ci(s, &open_c, 0) {
        Some(i) => i,
        None => {
            return None;
        },
    };
    let gt = match find_ci(s, &gt_c, start) {
        Some(i) => i,
        None => {
            return None;
        },
    };
    proof {
        reveal_strlit(">");
        assert(gt_c@.len() == 1);
        assert(crate::text::matches_at(s@, gt_c@, gt as int));
        assert(gt + 1 <= s.len());
    }
    let end = match find_ci(s, &close_c, gt + 1) {
        Some(i) => i,
        None => {
            return None;
        },
    };
    proof {
        assert(crate::text::matches_at(s@, gt_c@, gt as int));
        assert(crate::text::matches_at(s@, close_c@, end as int));
    }
    let (a, b) = trim_range(s, gt + 1, end);
    if a < b {
        Some(string_of_range(s, a, b))
    } else {
        None
    }
}

/// Title extraction: the first non-blank `<title>`, failing that the first
/// non-blank `<h1>`.
pub fn extract_title(html: &str) -> (r: Option<String>)
    ensures
        match r {
            Some(t) => title_of(html@) == Some(t@),
            None => title_of(html@) is None,
        },
{
    let s = chars_of(html);
    match tag_text_exec(&s, "<title", "</title>") {
        Some(t) => Some(t),
        None => tag_text_exec(&s, "<h1", "</h1>"),
    }
}

} // verus!
