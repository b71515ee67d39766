//! HTML documents through scraper: the elements a CSS selector matches, as
//! plain values.

use crate::metrics::views_of;
use vstd::prelude::*;

verus! {

/// An element: its tag name, the text nodes below it in document order,
/// and its attributes.
#[derive(Debug)]
pub struct HtmlElement {
    pub name: String,
    pub texts: Vec<String>,
    pub attrs: Vec<(String, String)>,
}

/// An element matched by a selector, with what each inner selector matches
/// below it, in document order.
#[derive(Debug)]
pub struct HtmlMatch {
    pub element: HtmlElement,
    pub inner: Vec<Vec<HtmlElement>>,
}

/// The mathematical content of an [`HtmlElement`].
pub struct HtmlElementView {
    pub name: Seq<char>,
    pub texts: Seq<Seq<char>>,
    pub attrs: Seq<(Seq<char>, Seq<char>)>,
}

/// The mathematical content of an [`HtmlMatch`].
pub struct HtmlMatchView {
    pub element: HtmlElementView,
    pub inner: Seq<Seq<HtmlElementView>>,
}

/// The view of an element.
pub open spec fn element_view(e: HtmlElement) -> HtmlElementView {
    HtmlElementView {
        name: e.name@,
        texts: views_of(e.texts@),
        attrs: e.attrs@.map_values(|a: (String, String)| (a.0@, a.1@)),
    }
}

/// The view of a match.
pub open spec fn match_view(m: HtmlMatch) -> HtmlMatchView {
    HtmlMatchView {
        element: element_view(m.element),
        inner: m.inner@.map_values(|v: Vec<HtmlElement>| v@.map_values(|e: HtmlElement| element_view(e))),
    }
}

/// The view of an optional list of matches.
pub open spec fn matches_view(r: Option<Vec<HtmlMatch>>) -> Option<Seq<HtmlMatchView>> {
    match r {
        Some(v) => Some(v@.map_values(|m: HtmlMatch| match_view(m))),
        None => None,
    }
}

/// The views of a list of elements.
pub open spec fn elements_view(s: Seq<HtmlElement>) -> Seq<HtmlElementView> {
    s.map_values(|e: HtmlElement| element_view(e))
}

#[verifier::external_type_specification]
#[verifier::external_body]
pub struct ExHtml(scraper::Html);

/// A document parsed by scraper, with the text it was parsed from.
pub struct HtmlDoc {
    doc: scraper::Html,
    source: Ghost<Seq<char>>,
}

impl HtmlDoc {
    /// The text the document was parsed from.
    pub closed spec fn source(&self) -> Seq<char> {
        self.source@
    }
}

/// scraper: `Html::parse_document` on `html`. The document remembers the
/// text it came from; nothing else is claimed of it here.
#[verifier::external_body]
fn parse_document(html: &str) -> (d: HtmlDoc)
    ensures
        d.source() == html@,
{
    HtmlDoc { doc: scraper::Html::parse_document(html), source: Ghost(html@) }
}

/// Whether scraper's `Selector::parse` accepts a selector.
pub uninterp spec fn selector_parses(selector: Seq<char>) -> bool;

/// scraper: whether `Selector::parse(selector)` succeeds. Named by
/// [`selector_parses`].
#[verifier::external_body]
fn selector_ok(selector: &str) -> (r: bool)
    ensures
        r == selector_parses(selector@),
{
    scraper::Selector::parse(selector).is_ok()
}

/// The elements that `selector` matches in the document parsed from `html`.
pub uninterp spec fn doc_select_of(html: Seq<char>, selector: Seq<char>) -> Seq<HtmlElementView>;

/// scraper: the elements `Html::select` yields for `selector`, in document
/// order, each as its name, text nodes (`ElementRef::text`) and attributes
/// (`Element::attrs`). Named by [`doc_select_of`]; the selector parses.
#[verifier::external_body]
fn doc_select(doc: &HtmlDoc, selector: &str) -> (r: Vec<HtmlElement>)
    requires
        selector_parses(selector@),
    ensures
        elements_view(r@) == doc_select_of(doc.source(), selector@),
{
    let sel = scraper::Selector::parse(selector).unwrap();
    doc.doc.select(&sel).map(|e| HtmlElement {
        name: e.value().name().to_string(),
        texts: e.text().map(|t| t.to_string()).collect(),
        attrs: e.value().attrs().map(|(k, v)| (k.to_string(), v.to_string())).collect(),
    }).collect()
}

/// The elements that `inner` matches below the `index`-th element that
/// `selector` matches in the document parsed from `html`.
pub uninterp spec fn doc_select_below_of(html: Seq<char>, selector: Seq<char>, index: usize, inner: Seq<char>) -> Seq<HtmlElementView>;

/// scraper: the elements `ElementRef::select` yields for `inner` below the
/// `index`-th match of `selector`, converted as [`doc_select`] does. Named
/// by [`doc_select_below_of`]; both selectors parse and that match exists.
#[verifier::external_body]
fn doc_select_below(doc: &HtmlDoc, selector: &str, index: usize, inner: &str) -> (r: Vec<HtmlElement>)
    requires
        selector_parses(selector@),
        selector_parses(inner@),
        index < doc_select_of(doc.source(), selector@).len(),
    ensures
        elements_view(r@) == doc_select_below_of(doc.source(), selector@, index, inner@),
{
    let sel = scraper::Selector::parse(selector).unwrap();
    let sub = scraper::Selector::parse(inner).unwrap();
    let found = doc.doc.select(&sel).nth(index).unwrap();
    found.select(&sub).map(|e| HtmlElement {
        name: e.value().name().to_string(),
        texts: e.text().map(|t| t.to_string()).collect(),
        attrs: e.value().attrs().map(|(k, v)| (k.to_string(), v.to_string())).collect(),
    }).collect()
}

/// The element children of the first element that `selector` matches in the
/// document parsed from `html`; none when nothing matches.
pub uninterp spec fn doc_children_of(html: Seq<char>, selector: Seq<char>) -> Seq<HtmlElementView>;

/// scraper: `ElementRef::child_elements` of the first match of `selector`
/// (an empty list when there is none), converted as [`doc_select`] does.
/// Named by [`doc_children_of`]; the selector parses.
#[verifier::external_body]
fn doc_children(doc: &HtmlDoc, selector: &str) -> (r: Vec<HtmlElement>)
    requires
        selector_parses(selector@),
    ensures
        elements_view(r@) == doc_children_of(doc.source(), selector@),
{
    let sel = scraper::Selector::parse(selector).unwrap();
    doc.doc.select(&sel).take(1).flat_map(|f| f.child_elements()).map(|e| HtmlElement {
        name: e.value().name().to_string(),
        texts: e.text().map(|t| t.to_string()).collect(),
        attrs: e.value().attrs().map(|(k, v)| (k.to_string(), v.to_string())).collect(),
    }).collect()
}

/// The elements that `inner` matches below the `index`-th element child of
/// the first match of `selector` in the document parsed from `html`.
pub uninterp spec fn doc_child_select_of(html: Seq<char>, selector: Seq<char>, index: usize, inner: Seq<char>) -> Seq<HtmlElementView>;

/// scraper: the elements `ElementRef::select` yields for `inner` below the
/// `index`-th element child of the first match of `selector`, converted as
/// [`doc_select`] does. Named by [`doc_child_select_of`]; both selectors
/// parse and that child exists.
#[verifier::external_body]
fn doc_child_select(doc: &HtmlDoc, selector: &str, index: usize, inner: &str) -> (r: Vec<HtmlElement>)
    requires
        selector_parses(selector@),
        selector_parses(inner@),
        index < doc_children_of(doc.source(), selector@).len(),
    ensures
        elements_view(r@) == doc_child_select_of(doc.source(), selector@, index, inner@),
{
    let sel = scraper::Selector::parse(selector).unwrap();
    let sub = scraper::Selector::parse(inner).unwrap();
    let child = doc.doc.select(&sel).next().unwrap().child_elements().nth(index).unwrap();
    child.select(&sub).map(|e| HtmlElement {
        name: e.value().name().to_string(),
        texts: e.text().map(|t| t.to_string()).collect(),
        attrs: e.value().attrs().map(|(k, v)| (k.to_string(), v.to_string())).collect(),
    }).collect()
}

/// Whether a selector and all inner selectors parse.
pub open spec fn all_parse(selector: Seq<char>, inner: Seq<Seq<char>>) -> bool {
    selector_parses(selector) && forall|j: int| 0 <= j < inner.len() ==> selector_parses(#[trigger] inner[j])
}

/// The elements of one level: the matches of `selector`, or the element
/// children of its first match.
pub open spec fn level_of(html: Seq<char>, selector: Seq<char>, children: bool) -> Seq<HtmlElementView> {
    if children {
        doc_children_of(html, selector)
    } else {
        doc_select_of(html, selector)
    }
}

/// What `inner` matches below the `index`-th element of a level.
pub open spec fn below_of(html: Seq<char>, selector: Seq<char>, children: bool, index: usize, inner: Seq<char>) -> Seq<HtmlElementView> {
    if children {
        doc_child_select_of(html, selector, index, inner)
    } else {
        doc_select_below_of(html, selector, index, inner)
    }
}

/// The elements of a level, each with what each inner selector matches
/// below it; `None` where a selector does not parse.
pub open spec fn gathered_of(html: Seq<char>, selector: Seq<char>, inner: Seq<Seq<char>>, children: bool) -> Option<Seq<HtmlMatchView>> {
    if all_parse(selector, inner) {
        let els = level_of(html, selector, children);
        Some(Seq::new(els.len(), |i: int| HtmlMatchView {
            element: els[i],
            inner: Seq::new(inner.len(), |j: int| below_of(html, selector, children, i as usize, inner[j])),
        }))
    } else {
        None
    }
}

/// What `html_select` finds: every element `selector` matches, in document
/// order, with the elements each of `inner` matches below it.
pub open spec fn html_select_of(html: Seq<char>, selector: Seq<char>, inner: Seq<Seq<char>>) -> Option<Seq<HtmlMatchView>> {
    gathered_of(html, selector, inner, false)
}

/// What `html_children` finds: the element children of the first element
/// `selector` matches, with the elements each of `inner` matches below them.
pub open spec fn html_children_of(html: Seq<char>, selector: Seq<char>, inner: Seq<Seq<char>>) -> Option<Seq<HtmlMatchView>> {
    gathered_of(html, selector, inner, true)
}

fn gather(html: &str, selector: &str, inner: &Vec<String>, children: bool) -> (r: Option<Vec<HtmlMatch>>)
    ensures
        matches_view(r) == gathered_of(html@, selector@, views_of(inner@), children),
{
    let ghost iv = views_of(inner@);
    if !selector_ok(selector) {
        return None;
    }
    let mut j: usize = 0;
    while j < inner.len()
        invariant
            j <= inner@.len(),
            iv == views_of(inner@),
            forall|k: int| 0 <= k < j ==> selector_parses(#[trigger] iv[k]),
        decreases inner@.len() - j,
    {
        if !selector_ok(inner[j].as_str()) {
            assert(!selector_parses(iv[j as int]));
            return None;
        }
        j = j + 1;
    }
    assert(all_parse(selector@, iv));
    let doc = parse_document(html);
    let mut rest = if children {
        doc_children(&doc, selector)
    } else {
        doc_select(&doc, selector)
    };
    let ghost els = level_of(html@, selector@, children);
    let n = rest.len();
    assert(elements_view(rest@).len() == rest@.len());
    assert(els.subrange(0, n as int) =~= els);
    let mut out: Vec<HtmlMatch> = Vec::new();
    let mut i: usize = 0;
    while i < n
        invariant
            i <= n,
            n == els.len(),
            doc.source() == html@,
            all_parse(selector@, iv),
            iv == views_of(inner@),
            els == level_of(html@, selector@, children),
            elements_view(rest@) == els.subrange(i as int, n as int),
            out@.len() == i,
            forall|m: int| 0 <= m < i ==> match_view(#[trigger] out@[m]) == (HtmlMatchView {
                element: els[m],
                inner: Seq::new(iv.len(), |q: int| below_of(html@, selector@, children, m as usize, iv[q])),
            }),
        decreases n - i,
    {
        let mut subs: Vec<Vec<HtmlElement>> = Vec::new();
        let mut k: usize = 0;
        while k < inner.len()
            invariant
                k <= inner@.len(),
                i < n,
                n == els.len(),
                doc.source() == html@,
                all_parse(selector@, iv),
                iv == views_of(inner@),
                els == level_of(html@, selector@, children),
                subs@.len() == k,
                forall|q: int| 0 <= q < k ==> elements_view((#[trigger] subs@[q])@) == below_of(html@, selector@, children, i, iv[q]),
            decreases inner@.len() - k,
        {
            assert(selector_parses(iv[k as int]));
            let below = if children {
                doc_child_select(&doc, selector, i, inner[k].as_str())
            } else {
                doc_select_below(&doc, selector, i, inner[k].as_str())
            };
            subs.push(below);
            k = k + 1;
        }
        let ghost before = rest@;
        assert(elements_view(before).len() == before.len());
        assert(elements_view(before)[0] == element_view(before[0]));
        let element = rest.remove(0);
        assert(element_view(element) == elements_view(before)[0]);
        assert(elements_view(rest@) =~= els.subrange(i + 1, n as int)) by {
            assert(rest@ =~= before.subrange(1, before.len() as int));
            assert forall|q: int| 0 <= q < rest@.len() implies #[trigger] elements_view(rest@)[q] == els.subrange(i + 1, n as int)[q] by {
                assert(elements_view(before)[q + 1] == element_view(before[q + 1]));
                assert(els.subrange(i as int, n as int)[q + 1] == els.subrange(i + 1, n as int)[q]);
            }
        }
        let m = HtmlMatch { element, inner: subs };
        assert(match_view(m).inner =~= Seq::new(iv.len(), |q: int| below_of(html@, selector@, children, i, iv[q])));
        out.push(m);
        i = i + 1;
    }
    let ghost want = gathered_of(html@, selector@, iv, children);
    assert(matches_view(Some(out)) == want) by {
        assert(out@.map_values(|m: HtmlMatch| match_view(m)) =~= want->0);
    }
    Some(out)
}

/// Every element `selector` matches in `html`, in document order, with the
/// elements each of `inner` matches below it; `None` where a selector does
/// not parse.
pub fn html_select(html: &str, selector: &str, inner: &Vec<String>) -> (r: Option<Vec<HtmlMatch>>)
    ensures
        matches_view(r) == html_select_of(html@, selector@, views_of(inner@)),
{
    gather(html, selector, inner, false)
}

/// The element children of the first element `selector` matches in `html`
/// (none when nothing matches), each with the elements each of `inner`
/// matches below it; `None` where a selector does not parse.
pub fn html_children(html: &str, selector: &str, inner: &Vec<String>) -> (r: Option<Vec<HtmlMatch>>)
    ensures
        matches_view(r) == html_children_of(html@, selector@, views_of(inner@)),
{
    gather(html, selector, inner, true)
}

/// The concatenation of the pieces.
pub open spec fn concat_spec(parts: Seq<Seq<char>>) -> Seq<char>
    decreases parts.len(),
{
    if parts.len() == 0 {
        Seq::empty()
    } else {
        concat_spec(parts.drop_last()) + parts.last()
    }
}

/// The concatenated text of an element (`text().collect::<String>()`).
pub fn text_of(e: &HtmlElement) -> (r: String)
    ensures
        r@ == concat_spec(views_of(e.texts@)),
{
    let ghost ts = views_of(e.texts@);
    let mut r = String::new();
    let mut i: usize = 0;
    while i < e.texts.len()
        invariant
            i <= e.texts@.len(),
            ts == views_of(e.texts@),
            r@ == concat_spec(ts.subrange(0, i as int)),
        decreases e.texts@.len() - i,
    {
        r.append(e.texts[i].as_str());
        assert(ts.subrange(0, i + 1).drop_last() =~= ts.subrange(0, i as int));
        i = i + 1;
    }
    assert(ts.subrange(0, e.texts@.len() as int) =~= ts);
    r
}

/// The value of attribute `name`, the first one with that name.
pub open spec fn attr_spec(attrs: Seq<(Seq<char>, Seq<char>)>, name: Seq<char>) -> Option<Seq<char>>
    decreases attrs.len(),
{
    if attrs.len() == 0 {
        None
    } else if attrs[0].0 == name {
        Some(attrs[0].1)
    } else {
        attr_spec(attrs.subrange(1, attrs.len() as int), name)
    }
}

/// The value of an attribute of an element.
pub fn attr_of(e: &HtmlElement, name: &str) -> (r: Option<String>)
    ensures
        crate::text::opt_view(r) == attr_spec(e.attrs@.map_values(|a: (String, String)| (a.0@, a.1@)), name@),
{
    let ghost av = e.attrs@.map_values(|a: (String, String)| (a.0@, a.1@));
    let mut i: usize = 0;
    assert(av.subrange(0, av.len() as int) =~= av);
    while i < e.attrs.len()
        invariant
            i <= e.attrs@.len(),
            av == e.attrs@.map_values(|a: (String, String)| (a.0@, a.1@)),
            attr_spec(av.subrange(i as int, av.len() as int), name@) == attr_spec(av, name@),
        decreases e.attrs@.len() - i,
    {
        let ghost rest = av.subrange(i as int, av.len() as int);
        assert(rest[0] == av[i as int]);
        if crate::text::str_eq(e.attrs[i].0.as_str(), name) {
            return Some(e.attrs[i].1.clone());
        }
        assert(rest.subrange(1, rest.len() as int) =~= av.subrange(i + 1, av.len() as int));
        i = i + 1;
    }
    None
}

} // verus!
