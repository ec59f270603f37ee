//! From a decoded response to the article it names: extraction of the
//! complete records, and selection of the first.

use vstd::prelude::*;
use reqwest::Url;
use crate::decode::{decode, document};
use crate::error::{Error, ErrorView};
use crate::json::{trees, Json, JsonTree};
use crate::page::{Page, PageView};
use crate::query::{build_failure, get_search_url, is_search_url};

verus! {

/// The integer held by the member `name` of `item`, if there is such a member
/// and it is an integer within `i64`.
pub open spec fn integer_field(item: JsonTree, name: Seq<char>) -> Option<i64> {
    match item.member(name) {
        Some(value) => value.integer(),
        None => None,
    }
}

/// The text held by the member `name` of `item`, if there is such a member and
/// it is a string.
pub open spec fn text_field(item: JsonTree, name: Seq<char>) -> Option<Seq<char>> {
    match item.member(name) {
        Some(value) => value.text(),
        None => None,
    }
}

/// The page that one listed item describes: it has one exactly when the item
/// carries an integer `pageid`, a string `title` and a string `extract`.
pub open spec fn record(item: JsonTree) -> Option<PageView> {
    match (integer_field(item, "pageid"@), text_field(item, "title"@), text_field(item, "extract"@)) {
        (Some(id), Some(title), Some(contents)) => Some(PageView { id, title, contents }),
        _ => None,
    }
}

/// The pages that a list of items describes, in the order of the items; an
/// item that describes none is passed over.
pub open spec fn records(items: Seq<JsonTree>) -> Seq<PageView>
    decreases items.len(),
{
    if items.len() == 0 {
        Seq::empty()
    } else {
        match record(items.last()) {
            Some(page) => records(items.drop_last()).push(page),
            None => records(items.drop_last()),
        }
    }
}

/// The items listed in a response: the array under `query`, then `pages`.
/// Where that path is missing or leads to no array, nothing is listed.
pub open spec fn listed(response: JsonTree) -> Seq<JsonTree> {
    match response.member("query"@) {
        Some(query) => match query.member("pages"@) {
            Some(pages) => match pages.elements() {
                Some(items) => items,
                None => Seq::empty(),
            },
            None => Seq::empty(),
        },
        None => Seq::empty(),
    }
}

/// The pages that a response describes, in the order in which it lists them.
pub open spec fn pages_of(response: JsonTree) -> Seq<PageView> {
    records(listed(response))
}

/// What a list of pages holds, one for one.
pub open spec fn page_views(pages: Seq<Page>) -> Seq<PageView> {
    pages.map_values(|page: Page| page@)
}

/// Reads one listed item as a page; `None` unless all three fields are there
/// and of the right type.
fn page_of(item: &Json) -> (page: Option<Page>)
    ensures
        match page {
            Some(p) => record(item@) == Some(p@),
            None => record(item@) is None,
        },
{
    let id = match item.get("pageid") {
        Some(value) => value.as_i64(),
        None => None,
    };
    let title = match item.get("title") {
        Some(value) => value.as_str(),
        None => None,
    };
    let contents = match item.get("extract") {
        Some(value) => value.as_str(),
        None => None,
    };
    match (id, title, contents) {
        (Some(id), Some(title), Some(contents)) => Some(Page::new(id, title, contents)),
        _ => None,
    }
}

/// Collects the pages that a decoded response describes, in the order in
/// which the response lists them. An item without one of the three fields, or
/// with one of another type, is passed over.
pub fn get_pages_from_json_value(value: Json) -> (results: Vec<Page>)
    ensures
        page_views(results@) == pages_of(value@),
{
    let mut results: Vec<Page> = Vec::new();
    let array = match value.get("query") {
        Some(query) => match query.get("pages") {
            Some(pages) => pages.as_array(),
            None => None,
        },
        None => None,
    };
    if let Some(array) = array {
        let ghost items = trees(array@);
        let mut i: usize = 0;
        while i < array.len()
            invariant
                i <= array.len(),
                items == trees(array@),
                page_views(results@) == records(items.take(i as int)),
            decreases array.len() - i,
        {
            assert(items.take(i as int + 1).drop_last() =~= items.take(i as int));
            match page_of(&array[i]) {
                Some(page) => results.push(page),
                None => {},
            }
            i += 1;
        }
        assert(items.take(array.len() as int) =~= items);
    }
    results
}

/// What a lookup answers for a decoded response: the first page that the
/// response describes, or that none was found.
pub open spec fn selection(response: JsonTree) -> Result<PageView, ErrorView> {
    if pages_of(response).len() > 0 {
        Ok(pages_of(response)[0])
    } else {
        Err(ErrorView::NotFound)
    }
}

/// What a lookup answers for a response body: what it answers for the decoded
/// body, or the decoder's failure.
pub open spec fn resolution(body: Seq<char>) -> Result<PageView, ErrorView> {
    match document(body) {
        Ok(response) => selection(response),
        Err(message) => Err(ErrorView::Decode(message)),
    }
}

/// What a lookup answers once the fetch has come back: what it answers for
/// the body, or the failure of the fetch as it was reported.
pub open spec fn completion(fetched: Result<Seq<char>, ErrorView>) -> Result<PageView, ErrorView> {
    match fetched {
        Ok(body) => resolution(body),
        Err(error) => Err(error),
    }
}

/// What an answer holds.
pub open spec fn answer_view(answer: Result<Page, Error>) -> Result<PageView, ErrorView> {
    match answer {
        Ok(page) => Ok(page@),
        Err(error) => Err(error@),
    }
}

/// What the outcome of a fetch holds.
pub open spec fn fetched_view(fetched: Result<String, Error>) -> Result<Seq<char>, ErrorView> {
    match fetched {
        Ok(body) => Ok(body@),
        Err(error) => Err(error@),
    }
}

/// Takes the first of the pages, which is the one a lookup answers with;
/// without a page there is nothing found.
pub fn first_page(pages: Vec<Page>) -> (first: Result<Page, Error>)
    ensures
        answer_view(first) == if pages@.len() > 0 {
            Ok::<PageView, ErrorView>(pages@[0]@)
        } else {
            Err::<PageView, ErrorView>(ErrorView::NotFound)
        },
{
    let mut pages = pages;
    if pages.len() == 0 {
        Err(Error::NotFound)
    } else {
        Ok(pages.remove(0))
    }
}

/// Answers a lookup from the decoded response: with the first page that the
/// response describes, in the order in which it lists them.
pub fn select_page(response: Json) -> (answer: Result<Page, Error>)
    ensures
        answer_view(answer) == selection(response@),
{
    let pages = get_pages_from_json_value(response);
    first_page(pages)
}

/// Answers a lookup from the body of the response: decodes it, and goes on
/// as [`select_page`] does.
pub fn resolve(body: &str) -> (answer: Result<Page, Error>)
    ensures
        answer_view(answer) == resolution(body@),
{
    match decode(body) {
        Ok(response) => select_page(response),
        Err(error) => Err(error),
    }
}

/// Why no request is made for `query`, where none is: the title is empty, or
/// no URL could be built for it.
pub open spec fn refusal(query: &str) -> Option<ErrorView> {
    if query@.len() == 0 {
        Some(ErrorView::QueryIsEmpty)
    } else {
        match build_failure(query) {
            Some(message) => Some(ErrorView::Url(message)),
            None => None,
        }
    }
}

/// The first half of a lookup, up to the fetch: refuses an empty title, and
/// builds the request for any other.
pub fn prepare(query: &str) -> (request: Result<Url, Error>)
    ensures
        query@.len() == 0 ==> (request matches Err(error) && error@ == ErrorView::QueryIsEmpty),
        match refusal(query) {
            Some(refused) => request matches Err(error) && error@ == refused,
            None => request matches Ok(url) && is_search_url(url, query@),
        },
{
    if query.is_empty() {
        return Err(Error::QueryIsEmpty);
    }
    get_search_url(query)
}

/// The second half of a lookup, from the fetch on: a failure of the fetch is
/// passed on as it is, a body is decoded and answered from.
pub fn complete(fetched: Result<String, Error>) -> (answer: Result<Page, Error>)
    ensures
        answer_view(answer) == completion(fetched_view(fetched)),
{
    match fetched {
        Ok(body) => resolve(body.as_str()),
        Err(error) => Err(error),
    }
}

/// Looks up the article called `query`.
///
/// An empty title is refused before anything else happens; nothing is asked
/// of `fetch` for it, and `fetch` is not called. For any other title the
/// request is built, `fetch` is called on it once, and what it hands back
/// decides the answer, as in [`complete`]. `fetch` is the transport: it
/// performs the request and returns the whole body of the response as text.
pub fn search<F: FnOnce(Url) -> Result<String, Error>>(query: &str, fetch: F) -> (answer: Result<
    Page,
    Error,
>)
    requires
        refusal(query) is None ==> forall|url: Url|
            is_search_url(url, query@) ==> #[trigger] fetch.requires((url,)),
    ensures
        query@.len() == 0 ==> answer_view(answer) == Err::<PageView, ErrorView>(
            ErrorView::QueryIsEmpty,
        ),
        match refusal(query) {
            Some(refused) => answer_view(answer) == Err::<PageView, ErrorView>(refused),
            None => exists|url: Url, fetched: Result<String, Error>|
                is_search_url(url, query@) && #[trigger] fetch.ensures((url,), fetched)
                    && answer_view(answer) == completion(fetched_view(fetched)),
        },
{
    match prepare(query) {
        Err(error) => Err(error),
        Ok(url) => complete(fetch(url)),
    }
}

/// The pages of two lists of items, one after the other, are the pages of
/// the first list followed by those of the second.
pub proof fn lemma_records_concat(front: Seq<JsonTree>, back: Seq<JsonTree>)
    ensures
        records(front + back) == records(front) + records(back),
    decreases back.len(),
{
    if back.len() == 0 {
        assert(front + back =~= front);
    } else {
        lemma_records_concat(front, back.drop_last());
        assert((front + back).drop_last() =~= front + back.drop_last());
    }
}

/// The first of the pages of a list of items is the page of the first item
/// that describes one; there are no pages exactly when no item describes one.
pub proof fn lemma_first_record(items: Seq<JsonTree>)
    ensures
        records(items).len() == 0 <==> forall|j: int|
            0 <= j < items.len() ==> record(#[trigger] items[j]) is None,
        records(items).len() > 0 ==> exists|k: int|
            0 <= k < items.len() && record(#[trigger] items[k]) == Some(records(items)[0])
                && forall|j: int| 0 <= j < k ==> record(#[trigger] items[j]) is None,
    decreases items.len(),
{
    if items.len() > 0 {
        let front = items.drop_last();
        lemma_first_record(front);
        assert(forall|j: int| 0 <= j < front.len() ==> front[j] == items[j]);
        if records(front).len() > 0 {
            let k = choose|k: int|
                0 <= k < front.len() && record(#[trigger] front[k]) == Some(records(front)[0])
                    && forall|j: int| 0 <= j < k ==> record(#[trigger] front[j]) is None;
            assert(record(items[k]) == Some(records(items)[0]));
        } else if record(items.last()) is Some {
            assert(record(items[items.len() - 1]) == Some(records(items)[0]));
        }
    }
}

/// A lookup answers with the page of the first listed item that describes
/// one, and with "not found" exactly when no listed item describes one.
pub proof fn lemma_selection_is_first_complete(response: JsonTree)
    ensures
        match selection(response) {
            Ok(page) => exists|k: int|
                0 <= k < listed(response).len() && record(#[trigger] listed(response)[k]) == Some(
                    page,
                ) && forall|j: int| 0 <= j < k ==> record(#[trigger] listed(response)[j]) is None,
            Err(error) => error == ErrorView::NotFound && forall|j: int|
                0 <= j < listed(response).len() ==> record(#[trigger] listed(response)[j]) is None,
        },
{
    lemma_first_record(listed(response));
}

/// A response that lists nothing, because the path `query`, `pages` is
/// missing, or leads to no array, or leads to an empty one, is answered with
/// "not found".
pub proof fn lemma_nothing_listed(response: JsonTree)
    requires
        listed(response).len() == 0,
    ensures
        selection(response) == Err::<PageView, ErrorView>(ErrorView::NotFound),
{
}

/// A body that the decoder refuses is answered with the decoder's failure,
/// and so never with a page.
pub proof fn lemma_undecodable_body(body: Seq<char>)
    requires
        document(body) is Err,
    ensures
        resolution(body) == Err::<PageView, ErrorView>(
            ErrorView::Decode(document(body)->Err_0),
        ),
{
}

/// A first item whose `pageid` is a string, not an integer, is passed over:
/// the pages are those of the items after it, so the answer is the first
/// complete one among these, or "not found" where there is none.
pub proof fn lemma_string_pageid_skipped(items: Seq<JsonTree>)
    requires
        items.len() > 0,
        items[0].member("pageid"@) matches Some(JsonTree::Text(_)),
    ensures
        records(items) == records(items.drop_first()),
{
    let head = seq![items[0]];
    assert(records(head.drop_last()) =~= Seq::<PageView>::empty());
    assert(items =~= head + items.drop_first());
    lemma_records_concat(head, items.drop_first());
}

/// Two lookups whose fetches came back alike are answered alike: with pages
/// that hold the same, or with the same failure.
pub proof fn lemma_same_fetch_same_answer(
    first_fetched: Result<String, Error>,
    first: Result<Page, Error>,
    second_fetched: Result<String, Error>,
    second: Result<Page, Error>,
)
    requires
        fetched_view(first_fetched) == fetched_view(second_fetched),
        answer_view(first) == completion(fetched_view(first_fetched)),
        answer_view(second) == completion(fetched_view(second_fetched)),
    ensures
        answer_view(first) == answer_view(second),
{
}

} // verus!
