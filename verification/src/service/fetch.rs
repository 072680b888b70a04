//! The page fetcher, without the network: from a page's URL and the HTML that
//! was read from it to its details and its links.
//!
//! The HTML is parsed by `scraper` and links are resolved by `url`; what is
//! done with their answers is this module's own.

use crate::domain::page::{Page, PageDetails, PageDetailsView, PageView};
use crate::text::{
    lemma_text_before_irreflexive, lemma_text_before_transitive, opt_text, order_of, starts_with,
    text_before, texts, trim, trimmed, Order,
};
use scraper::{Html, Selector};
use url::{ParseError, Url};
use vstd::prelude::*;
use vstd::string::StringExecFns;

verus! {

/// Selects the links of a page.
pub const LINK_SELECTOR: &'static str = "a";

/// The attribute that holds the target of a link.
pub const LINK_ATTRIBUTE: &'static str = "href";

/// Selects the title of a page.
pub const TITLE_SELECTOR: &'static str = "title";

/// Selects the title that a page offers for previews.
pub const OG_TITLE_SELECTOR: &'static str = "meta[property=\"og:title\"]";

/// Selects the description that a page offers for previews.
pub const OG_DESCRIPTION_SELECTOR: &'static str = "meta[property=\"og:description\"]";

/// The attribute that holds what a `meta` element says.
pub const CONTENT_ATTRIBUTE: &'static str = "content";

/// What a link over plain HTTP begins with.
pub const HTTP_PREFIX: &'static str = "http://";

/// What a link over HTTPS begins with.
pub const HTTPS_PREFIX: &'static str = "https://";

/// The error with which `url` refuses a URL. Nothing of it is read here but
/// its description.
#[verifier::external_type_specification]
#[verifier::external_body]
pub struct ExParseError(ParseError);

/// Whether `url::Url::parse` accepts the text as an absolute URL.
pub uninterp spec fn url_parses(url: Seq<char>) -> bool;

/// What `url::Url::join` makes of `link` on the URL that `url::Url::parse`
/// reads from `base`, written out as text; nothing if either refuses.
pub uninterp spec fn joined_url(base: Seq<char>, link: Seq<char>) -> Option<Seq<char>>;

/// For each element of the document that `scraper::Html::parse_document`
/// reads from `body` and that `scraper::Html::select` finds for `selector`,
/// in the order in which it finds them, the value of `attribute` if the
/// element has it; nothing if `scraper::Selector::parse` refuses `selector`.
pub uninterp spec fn selected_attributes(
    body: Seq<char>,
    selector: Seq<char>,
    attribute: Seq<char>,
) -> Option<Seq<Option<Seq<char>>>>;

/// For each element that `scraper::Html::select` finds for `selector` in the
/// document read from `body`, in the order in which it finds them, what
/// `scraper::ElementRef::inner_html` writes for it; nothing if
/// `scraper::Selector::parse` refuses `selector`.
pub uninterp spec fn selected_inner_html(body: Seq<char>, selector: Seq<char>) -> Option<
    Seq<Seq<char>>,
>;

/// The view of a list of strings of which some may be absent.
pub open spec fn opt_texts(items: Seq<Option<String>>) -> Seq<Option<Seq<char>>> {
    items.map_values(|s: Option<String>| opt_text(s))
}

/// Why a page could not be made.
#[derive(Debug)]
pub enum FetchError {
    /// The page's own URL is refused.
    InvalidUrl(ParseError),
    /// A link on the page cannot be resolved against the page's URL.
    InvalidLink(ParseError),
    /// The HTML parser refuses one of this module's selectors.
    InvalidSelector,
}

/// The mathematical value of a [`FetchError`]: its kind.
pub enum FetchFailure {
    InvalidUrl,
    InvalidLink,
    InvalidSelector,
}

impl View for FetchError {
    type V = FetchFailure;

    open spec fn view(&self) -> FetchFailure {
        match self {
            FetchError::InvalidUrl(_) => FetchFailure::InvalidUrl,
            FetchError::InvalidLink(_) => FetchFailure::InvalidLink,
            FetchError::InvalidSelector => FetchFailure::InvalidSelector,
        }
    }
}

/// Asks `url::Url::parse` whether `url` is an absolute URL. The answer is
/// `Ok` exactly when it is; the error is the one that `parse` gives.
#[verifier::external_body]
fn parse_url(url: &str) -> (parsed: Result<(), ParseError>)
    ensures
        parsed is Ok <==> url_parses(url@),
{
    match Url::parse(url) {
        Ok(_) => Ok(()),
        Err(error) => Err(error),
    }
}

/// Resolves `link` against `base`: reads `base` with `url::Url::parse`, calls
/// `url::Url::join` on it with `link`, and writes the result out as text.
/// The error is that of whichever of the two refused.
#[verifier::external_body]
fn join_url(base: &str, link: &str) -> (joined: Result<String, ParseError>)
    ensures
        match joined {
            Ok(text) => joined_url(base@, link@) == Some(text@),
            Err(_) => joined_url(base@, link@) is None,
        },
{
    match Url::parse(base) {
        Ok(base) => match base.join(link) {
            Ok(url) => Ok(url.to_string()),
            Err(error) => Err(error),
        },
        Err(error) => Err(error),
    }
}

/// Reads `body` with `scraper::Html::parse_document` and `selector` with
/// `scraper::Selector::parse`, walks the elements that
/// `scraper::Html::select` finds, and takes from each the value of
/// `attribute` as `scraper::node::Element::attr` gives it.
#[verifier::external_body]
fn select_attributes(body: &str, selector: &str, attribute: &str) -> (found: Option<
    Vec<Option<String>>,
>)
    ensures
        match found {
            Some(values) => selected_attributes(body@, selector@, attribute@) == Some(
                opt_texts(values@),
            ),
            None => selected_attributes(body@, selector@, attribute@) is None,
        },
{
    let selector = Selector::parse(selector).ok()?;
    let document = Html::parse_document(body);
    let mut values = Vec::new();
    for element in document.select(&selector) {
        match element.value().attr(attribute) {
            Some(value) => values.push(Some(value.to_string())),
            None => values.push(None),
        }
    }
    Some(values)
}

/// Reads `body` with `scraper::Html::parse_document` and `selector` with
/// `scraper::Selector::parse`, walks the elements that
/// `scraper::Html::select` finds, and takes from each what
/// `scraper::ElementRef::inner_html` writes.
#[verifier::external_body]
fn select_inner_html(body: &str, selector: &str) -> (found: Option<Vec<String>>)
    ensures
        match found {
            Some(values) => selected_inner_html(body@, selector@) == Some(texts(values@)),
            None => selected_inner_html(body@, selector@) is None,
        },
{
    let selector = Selector::parse(selector).ok()?;
    let document = Html::parse_document(body);
    let mut values = Vec::new();
    for element in document.select(&selector) {
        values.push(element.inner_html());
    }
    Some(values)
}

/// Writes out what `url` says of its error, with its `Display`.
#[verifier::external_body]
fn describe(error: &ParseError) -> String {
    error.to_string()
}

/// Said of a selector that the HTML parser refuses.
pub const INVALID_SELECTOR_TEXT: &'static str = "invalid selector";

impl FetchError {
    /// What to tell the user about the error. For a refused URL or link it is
    /// what `url` says of it.
    pub fn message(&self) -> (text: String)
        ensures
            self@ == FetchFailure::InvalidSelector ==> text@ == INVALID_SELECTOR_TEXT@,
    {
        match self {
            FetchError::InvalidUrl(error) => describe(error),
            FetchError::InvalidLink(error) => describe(error),
            FetchError::InvalidSelector => String::from_str(INVALID_SELECTOR_TEXT),
        }
    }
}

/// Whether a link is an absolute `http` or `https` URL, by its beginning.
pub open spec fn is_http(link: Seq<char>) -> bool {
    HTTPS_PREFIX@.is_prefix_of(link) || HTTP_PREFIX@.is_prefix_of(link)
}

/// Tells whether a link is an absolute `http` or `https` URL.
pub fn is_http_link(link: &str) -> (web: bool)
    ensures
        web == is_http(link@),
{
    starts_with(link, HTTPS_PREFIX) || starts_with(link, HTTP_PREFIX)
}

/// Each string comes before all that follow it: the list is in ascending
/// order and nothing occurs twice.
pub open spec fn strictly_sorted(links: Seq<Seq<char>>) -> bool {
    forall|i: int, j: int| 0 <= i < j < links.len() ==> text_before(links[i], links[j])
}

/// `links` holds exactly the strings of `source`, each once, in ascending order.
pub open spec fn is_sorted_set_of(links: Seq<Seq<char>>, source: Seq<Seq<char>>) -> bool {
    &&& strictly_sorted(links)
    &&& links.to_set() == source.to_set()
}

/// Two lists in ascending order without repetition that hold the same
/// strings are the same list: the links made from a source are pinned down
/// by it.
pub proof fn lemma_sorted_set_is_unique(a: Seq<Seq<char>>, b: Seq<Seq<char>>)
    requires
        strictly_sorted(a),
        strictly_sorted(b),
        a.to_set() == b.to_set(),
    ensures
        a == b,
    decreases a.len(),
{
    if a.len() == 0 {
        if b.len() > 0 {
            assert(b.to_set().contains(b[0]));
            assert(a.contains(b[0]));
        }
        assert(a =~= b);
    } else if b.len() == 0 {
        assert(a.to_set().contains(a[0]));
        assert(b.contains(a[0]));
    } else {
        let top_a = a.last();
        let top_b = b.last();
        assert(a.to_set().contains(top_a));
        assert(b.contains(top_a));
        assert(b.to_set().contains(top_b));
        assert(a.contains(top_b));
        let i = choose|i: int| 0 <= i < b.len() && b[i] == top_a;
        let j = choose|j: int| 0 <= j < a.len() && a[j] == top_b;
        if top_a != top_b {
            // top_a lies below top_b in b, and top_b lies below top_a in a.
            assert(i < b.len() - 1);
            assert(j < a.len() - 1);
            assert(text_before(top_a, top_b));
            assert(text_before(top_b, top_a));
            lemma_text_before_transitive(top_a, top_b, top_a);
            lemma_text_before_irreflexive(top_a);
        }
        let rest_a = a.drop_last();
        let rest_b = b.drop_last();
        assert forall|text: Seq<char>| rest_a.to_set().contains(text) <==> rest_b.to_set().contains(
            text,
        ) by {
            lemma_text_before_irreflexive(top_a);
            if rest_a.contains(text) {
                let k = choose|k: int| 0 <= k < rest_a.len() && rest_a[k] == text;
                assert(a[k] == text);
                assert(text_before(text, top_a));
                assert(a.to_set().contains(text));
                assert(b.contains(text));
                let m = choose|m: int| 0 <= m < b.len() && b[m] == text;
                assert(m < b.len() - 1);
                assert(rest_b[m] == text);
            }
            if rest_b.contains(text) {
                let k = choose|k: int| 0 <= k < rest_b.len() && rest_b[k] == text;
                assert(b[k] == text);
                assert(text_before(text, top_b));
                assert(b.to_set().contains(text));
                assert(a.contains(text));
                let m = choose|m: int| 0 <= m < a.len() && a[m] == text;
                assert(m < a.len() - 1);
                assert(rest_a[m] == text);
            }
        }
        assert(rest_a.to_set() =~= rest_b.to_set());
        lemma_sorted_set_is_unique(rest_a, rest_b);
        assert(a =~= rest_a.push(top_a));
        assert(b =~= rest_b.push(top_b));
    }
}

/// Puts `link` into a list that is in ascending order without repetition,
/// at its place, unless the list holds it already.
fn insert_link(links: &mut Vec<String>, link: String)
    requires
        strictly_sorted(texts(old(links)@)),
    ensures
        strictly_sorted(texts(final(links)@)),
        texts(final(links)@).to_set() == texts(old(links)@).to_set().insert(link@),
{
    let ghost before = texts(links@);
    let mut place: usize = 0;
    while place < links.len()
        invariant
            place <= links.len(),
            links@ == old(links)@,
            before == texts(links@),
            strictly_sorted(before),
            forall|j: int| 0 <= j < place ==> text_before(before[j], link@),
        ensures
            place <= links.len(),
            links@ == old(links)@,
            before == texts(links@),
            forall|j: int| 0 <= j < place ==> text_before(before[j], link@),
            place < links.len() ==> text_before(link@, before[place as int]),
        decreases links.len() - place,
    {
        match order_of(links[place].as_str(), link.as_str()) {
            Order::Before => {
                place += 1;
            },
            Order::Same => {
                assert(before[place as int] == link@);
                assert(before.to_set().insert(link@) =~= before.to_set());
                return ;
            },
            Order::After => {
                break ;
            },
        }
    }
    links.insert(place, link);
    let ghost after = texts(links@);
    assert(after =~= before.insert(place as int, link@));
    assert forall|i: int, j: int| 0 <= i < j < after.len() implies text_before(
        after[i],
        after[j],
    ) by {
        if j == place {
        } else if i == place {
            if j - 1 > place {
                lemma_text_before_transitive(link@, before[place as int], before[j - 1]);
            }
        } else {
        }
    }
    assert forall|text: Seq<char>| after.to_set().contains(text) <==> before.to_set().insert(
        link@,
    ).contains(text) by {
        if after.contains(text) {
            let i = choose|i: int| 0 <= i < after.len() && after[i] == text;
            if i < place {
                assert(before[i] == text);
            } else if i > place {
                assert(before[i - 1] == text);
            }
        }
        if before.contains(text) {
            let i = choose|i: int| 0 <= i < before.len() && before[i] == text;
            if i < place {
                assert(after[i] == text);
            } else {
                assert(after[i + 1] == text);
            }
        }
        if text == link@ {
            assert(after[place as int] == text);
        }
    }
    assert(after.to_set() =~= before.to_set().insert(link@));
}

/// Puts links in ascending order and drops the repetitions.
pub fn normalized(links: &Vec<String>) -> (ordered: Vec<String>)
    ensures
        is_sorted_set_of(texts(ordered@), texts(links@)),
{
    let mut ordered: Vec<String> = Vec::new();
    let mut i: usize = 0;
    assert(texts(ordered@).to_set() =~= texts(links@).take(0).to_set());
    while i < links.len()
        invariant
            i <= links.len(),
            is_sorted_set_of(texts(ordered@), texts(links@).take(i as int)),
        decreases links.len() - i,
    {
        insert_link(&mut ordered, links[i].clone());
        proof {
            let seen = texts(links@).take(i as int);
            let more = texts(links@).take(i + 1);
            assert(more =~= seen.push(links@[i as int]@));
            seen.lemma_push_to_set_commute(links@[i as int]@);
        }
        i += 1;
    }
    assert(texts(links@).take(links.len() as int) =~= texts(links@));
    ordered
}

/// The links that a page's `href` values stand for, in the order of the
/// values: each value that is present is resolved against the page's URL, and
/// what is not an absolute `http` or `https` URL is left out. Nothing if a
/// value cannot be resolved.
pub open spec fn resolved_links(base: Seq<char>, hrefs: Seq<Option<Seq<char>>>) -> Option<
    Seq<Seq<char>>,
>
    decreases hrefs.len(),
{
    if hrefs.len() == 0 {
        Some(Seq::empty())
    } else {
        match (resolved_links(base, hrefs.drop_last()), hrefs.last()) {
            (None, _) => None,
            (Some(links), None) => Some(links),
            (Some(links), Some(href)) => match joined_url(base, href) {
                None => None,
                Some(link) => Some(
                    if is_http(link) {
                        links.push(link)
                    } else {
                        links
                    },
                ),
            },
        }
    }
}

/// Every resolved link is an absolute `http` or `https` URL.
pub proof fn lemma_resolved_links_are_http(base: Seq<char>, hrefs: Seq<Option<Seq<char>>>)
    requires
        resolved_links(base, hrefs) is Some,
    ensures
        forall|link: Seq<char>| #[trigger]
            resolved_links(base, hrefs)->Some_0.contains(link) ==> is_http(link),
    decreases hrefs.len(),
{
    if hrefs.len() > 0 {
        lemma_resolved_links_are_http(base, hrefs.drop_last());
        let earlier = resolved_links(base, hrefs.drop_last())->Some_0;
        let all = resolved_links(base, hrefs)->Some_0;
        assert forall|link: Seq<char>| #[trigger] all.contains(link) implies is_http(link) by {
            let i = choose|i: int| 0 <= i < all.len() && all[i] == link;
            if i < earlier.len() {
                assert(earlier[i] == link);
                assert(earlier.contains(link));
            }
        }
    }
}

/// Once a value cannot be resolved, no longer list of values can.
pub proof fn lemma_unresolved_stays(base: Seq<char>, hrefs: Seq<Option<Seq<char>>>, upto: int)
    requires
        0 <= upto <= hrefs.len(),
        resolved_links(base, hrefs.take(upto)) is None,
    ensures
        resolved_links(base, hrefs) is None,
    decreases hrefs.len() - upto,
{
    if upto < hrefs.len() {
        assert(hrefs.take(upto + 1).drop_last() =~= hrefs.take(upto));
        lemma_unresolved_stays(base, hrefs, upto + 1);
    } else {
        assert(hrefs.take(upto) =~= hrefs);
    }
}

/// Resolves the `href` values of a page against its URL and returns the
/// `http` and `https` links among them in ascending order, each once. Fails
/// if a value cannot be resolved.
pub fn collect_links(base: &str, hrefs: &Vec<Option<String>>) -> (collected: Result<
    Vec<String>,
    FetchError,
>)
    ensures
        match collected {
            Ok(links) => resolved_links(base@, opt_texts(hrefs@)) matches Some(found)
                && is_sorted_set_of(texts(links@), found),
            Err(error) => resolved_links(base@, opt_texts(hrefs@)) is None && error@
                == FetchFailure::InvalidLink,
        },
        collected matches Ok(links) ==> forall|i: int|
            0 <= i < links.len() ==> is_http(#[trigger] links@[i]@),
{
    let mut links: Vec<String> = Vec::new();
    let mut i: usize = 0;
    let ghost values = opt_texts(hrefs@);
    assert(texts(links@).to_set() =~= Seq::<Seq<char>>::empty().to_set());
    while i < hrefs.len()
        invariant
            i <= hrefs.len(),
            values == opt_texts(hrefs@),
            resolved_links(base@, values.take(i as int)) matches Some(found) && is_sorted_set_of(
                texts(links@),
                found,
            ),
        decreases hrefs.len() - i,
    {
        proof {
            assert(values.take(i + 1).drop_last() =~= values.take(i as int));
            assert(values.take(i + 1).last() == opt_text(hrefs@[i as int]));
        }
        let ghost found = resolved_links(base@, values.take(i as int))->Some_0;
        if let Some(href) = &hrefs[i] {
            match join_url(base, href.as_str()) {
                Ok(link) => {
                    if is_http_link(link.as_str()) {
                        proof {
                            found.lemma_push_to_set_commute(link@);
                        }
                        insert_link(&mut links, link);
                    }
                },
                Err(error) => {
                    proof {
                        lemma_unresolved_stays(base@, values, i + 1);
                    }
                    return Err(FetchError::InvalidLink(error));
                },
            }
        }
        i += 1;
    }
    assert(values.take(hrefs.len() as int) =~= values);
    proof {
        lemma_resolved_links_are_http(base@, values);
        let found = resolved_links(base@, values)->Some_0;
        assert forall|i: int| 0 <= i < links.len() implies is_http(#[trigger] links@[i]@) by {
            assert(texts(links@)[i] == links@[i]@);
            assert(texts(links@).to_set().contains(links@[i]@));
            assert(found.contains(links@[i]@));
        }
    }
    Ok(links)
}

/// What the HTML parser finds in a page for this module's selectors.
#[derive(Debug)]
pub struct Scraped {
    /// The `content` of each preview title.
    pub og_titles: Vec<Option<String>>,
    /// The `content` of each preview description.
    pub og_descriptions: Vec<Option<String>>,
    /// The inner HTML of each `title` element.
    pub titles: Vec<String>,
    /// The `href` of each link.
    pub hrefs: Vec<Option<String>>,
}

/// The mathematical value of a [`Scraped`].
pub struct ScrapedView {
    pub og_titles: Seq<Option<Seq<char>>>,
    pub og_descriptions: Seq<Option<Seq<char>>>,
    pub titles: Seq<Seq<char>>,
    pub hrefs: Seq<Option<Seq<char>>>,
}

impl View for Scraped {
    type V = ScrapedView;

    open spec fn view(&self) -> ScrapedView {
        ScrapedView {
            og_titles: opt_texts(self.og_titles@),
            og_descriptions: opt_texts(self.og_descriptions@),
            titles: texts(self.titles@),
            hrefs: opt_texts(self.hrefs@),
        }
    }
}

/// What the HTML parser finds in `body` for this module's selectors; nothing
/// if it refuses one of them.
pub open spec fn scraped(body: Seq<char>) -> Option<ScrapedView> {
    match (
        selected_attributes(body, OG_TITLE_SELECTOR@, CONTENT_ATTRIBUTE@),
        selected_attributes(body, OG_DESCRIPTION_SELECTOR@, CONTENT_ATTRIBUTE@),
        selected_inner_html(body, TITLE_SELECTOR@),
        selected_attributes(body, LINK_SELECTOR@, LINK_ATTRIBUTE@),
    ) {
        (Some(og_titles), Some(og_descriptions), Some(titles), Some(hrefs)) => Some(
            ScrapedView { og_titles, og_descriptions, titles, hrefs },
        ),
        _ => None,
    }
}

/// What the first element says, trimmed, if there is a first element and it
/// says anything.
pub open spec fn first_trimmed(values: Seq<Option<Seq<char>>>) -> Option<Seq<char>> {
    if values.len() > 0 {
        match values[0] {
            Some(value) => Some(trimmed(value)),
            None => None,
        }
    } else {
        None
    }
}

impl ScrapedView {
    /// The title of the page: the preview title if the first such element
    /// gives one, else what the first `title` element holds; trimmed.
    pub open spec fn title(self) -> Option<Seq<char>> {
        match first_trimmed(self.og_titles) {
            Some(title) => Some(title),
            None => if self.titles.len() > 0 {
                Some(trimmed(self.titles[0]))
            } else {
                None
            },
        }
    }

    /// The description of the page: what the first preview description
    /// gives, trimmed.
    pub open spec fn description(self) -> Option<Seq<char>> {
        first_trimmed(self.og_descriptions)
    }

    /// The details of the page at `url`.
    pub open spec fn details(self, url: Seq<char>) -> PageDetailsView {
        PageDetailsView { url, title: self.title(), description: self.description() }
    }
}

/// Takes what the first element says, trimmed.
fn take_first_trimmed(values: &Vec<Option<String>>) -> (first: Option<String>)
    ensures
        opt_text(first) == first_trimmed(opt_texts(values@)),
{
    if values.len() > 0 {
        match &values[0] {
            Some(value) => Some(trim(value.as_str())),
            None => None,
        }
    } else {
        None
    }
}

impl Scraped {
    /// The details of the page at `url`.
    pub fn details(&self, url: &str) -> (details: PageDetails)
        ensures
            details@ == self@.details(url@),
    {
        let title = match take_first_trimmed(&self.og_titles) {
            Some(title) => Some(title),
            None => if self.titles.len() > 0 {
                Some(trim(self.titles[0].as_str()))
            } else {
                None
            },
        };
        let description = take_first_trimmed(&self.og_descriptions);
        PageDetails { url: String::from_str(url), title, description }
    }
}

/// What a page is made from: its details, and its links as they were found.
pub struct PageSource {
    pub details: PageDetailsView,
    pub links: Seq<Seq<char>>,
}

impl PageSource {
    /// `page` is the page made from this source: it has the details, and its
    /// links are those found, each once, in ascending order, all of them
    /// absolute `http` or `https` URLs.
    pub open spec fn makes(self, page: PageView) -> bool {
        &&& page.details == self.details
        &&& is_sorted_set_of(page.page_urls, self.links)
        &&& forall|i: int| 0 <= i < page.page_urls.len() ==> is_http(#[trigger] page.page_urls[i])
    }
}

impl ScrapedView {
    /// What the page at `url` is made from, or why it cannot be made.
    pub open spec fn source(self, url: Seq<char>) -> Result<PageSource, FetchFailure> {
        match resolved_links(url, self.hrefs) {
            Some(links) => Ok(PageSource { details: self.details(url), links }),
            None => Err(FetchFailure::InvalidLink),
        }
    }
}

/// What the page at `url` with the HTML `body` is made from, or why it cannot
/// be made: the URL must be absolute, the HTML parser must take this module's
/// selectors, and every link must resolve against the URL; the first of
/// these that fails decides the error.
pub open spec fn page_source(url: Seq<char>, body: Seq<char>) -> Result<PageSource, FetchFailure> {
    if !url_parses(url) {
        Err(FetchFailure::InvalidUrl)
    } else {
        match scraped(body) {
            Some(parts) => parts.source(url),
            None => Err(FetchFailure::InvalidSelector),
        }
    }
}

/// Makes the page at `url` from what the HTML parser found in its body:
/// its details, and its links resolved, filtered, ordered and without
/// repetition. Fails if a link cannot be resolved.
pub fn page_from_parts(url: &str, parts: &Scraped) -> (made: Result<Page, FetchError>)
    ensures
        match made {
            Ok(page) => parts@.source(url@) matches Ok(source) && source.makes(page@),
            Err(error) => parts@.source(url@) == Err::<PageSource, FetchFailure>(error@),
        },
{
    let details = parts.details(url);
    match collect_links(url, &parts.hrefs) {
        Ok(page_urls) => Ok(Page { details, page_urls }),
        Err(error) => Err(error),
    }
}

/// Lets the HTML parser read `body` and gathers what it finds for this
/// module's selectors.
pub fn scrape(body: &str) -> (found: Option<Scraped>)
    ensures
        match found {
            Some(parts) => scraped(body@) == Some(parts@),
            None => scraped(body@) is None,
        },
{
    let og_titles = select_attributes(body, OG_TITLE_SELECTOR, CONTENT_ATTRIBUTE);
    let og_descriptions = select_attributes(body, OG_DESCRIPTION_SELECTOR, CONTENT_ATTRIBUTE);
    let titles = select_inner_html(body, TITLE_SELECTOR);
    let hrefs = select_attributes(body, LINK_SELECTOR, LINK_ATTRIBUTE);
    match (og_titles, og_descriptions, titles, hrefs) {
        (Some(og_titles), Some(og_descriptions), Some(titles), Some(hrefs)) => Some(
            Scraped { og_titles, og_descriptions, titles, hrefs },
        ),
        _ => None,
    }
}

/// Checks that `url` is an absolute URL, as it must be before its page is
/// asked for.
pub fn check_url(url: &str) -> (checked: Result<(), FetchError>)
    ensures
        checked is Ok <==> url_parses(url@),
        checked matches Err(error) ==> error@ == FetchFailure::InvalidUrl,
{
    match parse_url(url) {
        Ok(_) => Ok(()),
        Err(error) => Err(FetchError::InvalidUrl(error)),
    }
}

/// Makes the page at `url` from the HTML that was read from it.
pub fn page_from_body(url: &str, body: &str) -> (made: Result<Page, FetchError>)
    ensures
        match made {
            Ok(page) => page_source(url@, body@) matches Ok(source) && source.makes(page@),
            Err(error) => page_source(url@, body@) == Err::<PageSource, FetchFailure>(error@),
        },
{
    match check_url(url) {
        Ok(_) => {},
        Err(error) => {
            return Err(error);
        },
    }
    match scrape(body) {
        Some(parts) => page_from_parts(url, &parts),
        None => Err(FetchError::InvalidSelector),
    }
}

} // verus!
