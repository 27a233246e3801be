//! The model names that a catalogue page lists.
//!
//! The page is HTML; `scraper` parses it and picks the anchors. What is done
//! with their `href` values is decided here: which of them name a model, and
//! the order and uniqueness of the names handed back.

use crate::text::{
    ascending, has_char, lemma_text_lt_irreflexive, lemma_text_lt_total,
    lemma_text_lt_transitive, sorts_before, strip_prefix, text_lt, texts,
};
use scraper::error::SelectorErrorKind;
use scraper::{Html, Selector};
use vstd::prelude::*;
use vstd::string::*;

verus! {

/// The page that lists the models that can be pulled.
pub const OLLAMA_LIBRARY_URL: &'static str = "https://ollama.ai/library";

/// The path under which the catalogue links to a model's own page.
pub const LIBRARY_PREFIX: &'static str = "/library/";

/// The CSS selector for the anchors that lead below [`LIBRARY_PREFIX`].
pub const LIBRARY_SELECTOR: &'static str = "a[href^='/library/']";

/// The attribute of an anchor that holds its target.
pub const HREF: &'static str = "href";

#[verifier::external_type_specification]
#[verifier::external_body]
pub struct ExHtml(scraper::Html);

#[verifier::external_type_specification]
#[verifier::external_body]
pub struct ExSelector(scraper::Selector);

#[verifier::external_type_specification]
#[verifier::external_body]
pub struct ExSelectorErrorKind(scraper::error::SelectorErrorKind);

/// The document that `scraper::Html::parse_document` builds from `text`.
pub uninterp spec fn html_document(text: Seq<char>) -> Html;

/// The selector that `scraper::Selector::parse` builds from `text`, if it
/// accepts it.
pub uninterp spec fn css_selector(text: Seq<char>) -> Option<Selector>;

/// For each element of `document` that `selector` matches, in the order
/// `scraper::Html::select` yields them, the value of its attribute `attr`.
pub uninterp spec fn selected_attr(document: Html, selector: Selector, attr: Seq<char>) -> Seq<
    Option<Seq<char>>,
>;

/// The texts of a list of attribute values.
pub open spec fn attr_texts(v: Seq<Option<String>>) -> Seq<Option<Seq<char>>> {
    Seq::new(
        v.len(),
        |i: int|
            match v[i] {
                Some(s) => Some(s@),
                None => None,
            },
    )
}

/// `scraper::Html::parse_document`. Parsing HTML never fails; the contract
/// only gives the document its name.
#[verifier::external_body]
fn parse_document(text: &str) -> (r: Html)
    ensures
        r == html_document(text@),
{
    Html::parse_document(text)
}

/// `scraper::Selector::parse`. The contract gives the outcome its name and
/// says nothing of which texts are accepted.
#[verifier::external_body]
fn parse_selector(text: &str) -> (r: Result<Selector, SelectorErrorKind>)
    ensures
        r is Ok <==> css_selector(text@) is Some,
        r is Ok ==> r->Ok_0 == css_selector(text@)->Some_0,
{
    Selector::parse(text)
}

/// `scraper::Html::select`, with each matched element turned into the value
/// of its attribute `attr` (`scraper::node::Element::attr`), absent where the
/// element has none.
#[verifier::external_body]
fn select_attr(document: &Html, selector: &Selector, attr: &str) -> (r: Vec<Option<String>>)
    ensures
        attr_texts(r@) == selected_attr(*document, *selector, attr@),
{
    document.select(selector).map(|element| element.value().attr(attr).map(String::from)).collect()
}

/// The model that a link target names: what follows [`LIBRARY_PREFIX`],
/// provided no further `/` occurs in it. Targets elsewhere, and targets
/// deeper below a model's page, name none.
pub open spec fn library_name_of(href: Seq<char>) -> Option<Seq<char>> {
    let rest = href.skip(LIBRARY_PREFIX@.len() as int);
    if LIBRARY_PREFIX@.is_prefix_of(href) && !rest.contains('/') {
        Some(rest)
    } else {
        None
    }
}

/// The model that an anchor names, if it has a target and the target names one.
pub open spec fn anchor_name(href: Option<Seq<char>>) -> Option<Seq<char>> {
    match href {
        Some(target) => library_name_of(target),
        None => None,
    }
}

/// Whether some anchor among `hrefs` names the model `name`.
pub open spec fn lists(hrefs: Seq<Option<Seq<char>>>, name: Seq<char>) -> bool {
    exists|i: int| 0 <= i < hrefs.len() && anchor_name(#[trigger] hrefs[i]) == Some(name)
}

/// Whether `names` is the catalogue of `hrefs`: exactly the models the
/// anchors name, each once, in ascending order.
pub open spec fn is_catalog(names: Seq<Seq<char>>, hrefs: Seq<Option<Seq<char>>>) -> bool {
    &&& ascending(names)
    &&& forall|name: Seq<char>| names.contains(name) <==> lists(hrefs, name)
}

/// The model that the link target `href` names, if any.
pub fn library_name(href: &str) -> (r: Option<String>)
    ensures
        r is Some <==> library_name_of(href@) is Some,
        r is Some ==> r->Some_0@ == library_name_of(href@)->Some_0,
{
    match strip_prefix(href, LIBRARY_PREFIX) {
        Some(rest) => {
            if has_char(rest, '/') {
                None
            } else {
                Some(String::from_str(rest))
            }
        },
        None => None,
    }
}

/// Puts `name` into an ascending list at its place, unless it is there already.
fn insert_name(names: &mut Vec<String>, name: String)
    requires
        ascending(texts(old(names)@)),
    ensures
        ascending(texts(final(names)@)),
        forall|n: Seq<char>|
            texts(final(names)@).contains(n) <==> (texts(old(names)@).contains(n) || n == name@),
{
    let ghost before = texts(names@);
    let mut p: usize = 0;
    while p < names.len() && sorts_before(names[p].as_str(), name.as_str())
        invariant
            p <= names.len(),
            names@ == old(names)@,
            before == texts(names@),
            forall|k: int| 0 <= k < p ==> text_lt(#[trigger] before[k], name@),
        decreases names.len() - p,
    {
        assert(before[p as int] == names[p as int]@);
        p += 1;
    }
    if p < names.len() && names[p] == name {
        assert(before[p as int] == name@);
        return ;
    }
    proof {
        assert forall|k: int| p <= k < before.len() implies text_lt(name@, #[trigger] before[k]) by {
            lemma_text_lt_total(name@, before[p as int]);
            if k > p {
                lemma_text_lt_transitive(name@, before[p as int], before[k]);
            }
        }
    }
    names.insert(p, name);
    proof {
        let after = texts(names@);
        assert(after =~= before.insert(p as int, name@));
        assert forall|i: int, j: int| 0 <= i < j < after.len() implies text_lt(
            #[trigger] after[i],
            #[trigger] after[j],
        ) by {
            let oi = if i < p { i } else { i - 1 };
            let oj = if j < p { j } else { j - 1 };
            if i != p && j != p {
                assert(after[i] == before[oi]);
                assert(after[j] == before[oj]);
            } else if i == p {
                assert(after[j] == before[oj]);
            } else {
                assert(after[i] == before[oi]);
            }
        }
        assert forall|n: Seq<char>| after.contains(n) <==> (before.contains(n) || n == name@) by {
            if after.contains(n) {
                let i = choose|i: int| 0 <= i < after.len() && after[i] == n;
                if i < p {
                    assert(before[i] == n);
                } else if i > p {
                    assert(before[i - 1] == n);
                }
            }
            if before.contains(n) {
                let i = choose|i: int| 0 <= i < before.len() && before[i] == n;
                if i < p {
                    assert(after[i] == n);
                } else {
                    assert(after[i + 1] == n);
                }
            }
            if n == name@ {
                assert(after[p as int] == n);
            }
        }
    }
}

/// The catalogue of a list of link targets: the models they name, without
/// repetition, in ascending order.
pub fn models_from_hrefs(hrefs: &Vec<Option<String>>) -> (r: Vec<String>)
    ensures
        is_catalog(texts(r@), attr_texts(hrefs@)),
{
    let ghost all = attr_texts(hrefs@);
    let mut names: Vec<String> = Vec::new();
    let mut i: usize = 0;
    while i < hrefs.len()
        invariant
            i <= hrefs.len(),
            all == attr_texts(hrefs@),
            is_catalog(texts(names@), all.take(i as int)),
        decreases hrefs.len() - i,
    {
        let ghost seen = all.take(i as int);
        let ghost next = all.take(i + 1);
        let ghost held = texts(names@);
        proof {
            assert forall|n: Seq<char>| lists(next, n) <==> (lists(seen, n) || anchor_name(all[i as int])
                == Some(n)) by {
                if lists(next, n) {
                    let k = choose|k: int| 0 <= k < next.len() && anchor_name(#[trigger] next[k]) == Some(n);
                    if k < i {
                        assert(seen[k] == next[k]);
                    }
                }
                if lists(seen, n) {
                    let k = choose|k: int| 0 <= k < seen.len() && anchor_name(#[trigger] seen[k]) == Some(n);
                    assert(next[k] == seen[k]);
                }
                if anchor_name(all[i as int]) == Some(n) {
                    assert(next[i as int] == all[i as int]);
                }
            }
        }
        match &hrefs[i] {
            Some(target) => {
                match library_name(target.as_str()) {
                    Some(name) => {
                        insert_name(&mut names, name);
                    },
                    None => {},
                }
            },
            None => {},
        }
        i += 1;
    }
    assert(all.take(i as int) =~= all);
    names
}

/// The catalogue depends on nothing but which models the anchors name: two
/// lists of anchors that name the same models have the same catalogue,
/// whatever the order and the number of the anchors. In particular a list
/// of anchors has one catalogue only.
pub proof fn lemma_catalog_unique(
    a: Seq<Seq<char>>,
    first: Seq<Option<Seq<char>>>,
    b: Seq<Seq<char>>,
    second: Seq<Option<Seq<char>>>,
)
    requires
        is_catalog(a, first),
        is_catalog(b, second),
        forall|name: Seq<char>| lists(first, name) <==> lists(second, name),
    ensures
        a == b,
{
    lemma_ascending_same_members(a, b);
}

/// Two ascending lists with the same members are equal.
pub proof fn lemma_ascending_same_members(a: Seq<Seq<char>>, b: Seq<Seq<char>>)
    requires
        ascending(a),
        ascending(b),
        forall|n: Seq<char>| a.contains(n) <==> b.contains(n),
    ensures
        a == b,
    decreases a.len(),
{
    if a.len() == 0 {
        if b.len() > 0 {
            assert(b.contains(b[0]));
        }
        assert(a =~= b);
    } else {
        assert(a.contains(a[0]));
        let k = choose|k: int| 0 <= k < b.len() && b[k] == a[0];
        assert(b.contains(b[0]));
        let m = choose|m: int| 0 <= m < a.len() && a[m] == b[0];
        if k > 0 {
            // b[0] < b[k] == a[0] <= a[m] == b[0]
            if m > 0 {
                lemma_text_lt_transitive(b[0], a[0], a[m]);
            }
            lemma_text_lt_irreflexive(b[0]);
        }
        let ta = a.skip(1);
        let tb = b.skip(1);
        assert forall|n: Seq<char>| ta.contains(n) <==> tb.contains(n) by {
            if ta.contains(n) {
                let i = choose|i: int| 0 <= i < ta.len() && ta[i] == n;
                assert(a[i + 1] == n);
                assert(a.contains(n));
                let j = choose|j: int| 0 <= j < b.len() && b[j] == n;
                if j == 0 {
                    lemma_text_lt_irreflexive(n);
                }
                assert(tb[j - 1] == n);
            }
            if tb.contains(n) {
                let i = choose|i: int| 0 <= i < tb.len() && tb[i] == n;
                assert(b[i + 1] == n);
                assert(b.contains(n));
                let j = choose|j: int| 0 <= j < a.len() && a[j] == n;
                if j == 0 {
                    lemma_text_lt_irreflexive(n);
                }
                assert(ta[j - 1] == n);
            }
        }
        assert forall|i: int, j: int| 0 <= i < j < ta.len() implies text_lt(
            #[trigger] ta[i],
            #[trigger] ta[j],
        ) by {
            assert(ta[i] == a[i + 1] && ta[j] == a[j + 1]);
        }
        assert forall|i: int, j: int| 0 <= i < j < tb.len() implies text_lt(
            #[trigger] tb[i],
            #[trigger] tb[j],
        ) by {
            assert(tb[i] == b[i + 1] && tb[j] == b[j + 1]);
        }
        lemma_ascending_same_members(ta, tb);
        assert(a =~= seq![a[0]] + ta);
        assert(b =~= seq![b[0]] + tb);
    }
}

/// The catalogue of a page: the models that its anchors below
/// [`LIBRARY_PREFIX`] name, without repetition, in ascending order.
///
/// The anchors are found by `scraper` with [`LIBRARY_SELECTOR`]. The result
/// is `None` exactly when `scraper` does not accept that selector.
pub fn catalog_models(body: &str) -> (r: Option<Vec<String>>)
    ensures
        r is Some <==> css_selector(LIBRARY_SELECTOR@) is Some,
        r is Some ==> is_catalog(
            texts(r->Some_0@),
            selected_attr(html_document(body@), css_selector(LIBRARY_SELECTOR@)->Some_0, HREF@),
        ),
{
    match parse_selector(LIBRARY_SELECTOR) {
        Ok(selector) => {
            let document = parse_document(body);
            let hrefs = select_attr(&document, &selector, HREF);
            Some(models_from_hrefs(&hrefs))
        },
        Err(_) => None,
    }
}

} // verus!
