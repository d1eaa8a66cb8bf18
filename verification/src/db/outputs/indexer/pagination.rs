//! Listings read page by page.
//!
//! A cursor names the entry at which a page starts. A reader who shows
//! `shown` entries per page therefore asks for one entry more: the entry past
//! the shown ones is not shown but handed back as the cursor of the next
//! page, and a page that comes back without it is the last.

use vstd::prelude::*;
use crate::db::outputs::indexer::order::{
    lemma_precedes_transitive,
    strictly_ordered,
};
use crate::db::outputs::indexer::{from_cursor, is_listing, is_page, selected_in, OutputResult, Selection};
use crate::db::outputs::OutputDocument;
use crate::model::ids::lemma_array_eq;

verus! {

/// The selection that the page at place `k` of a chain of pages answers: the
/// first page starts at the start of the listing, and each later page starts
/// at the entry past the shown ones of the page before it.
pub open spec fn selection_of_page(
    selection: Selection,
    shown: nat,
    pages: Seq<Seq<OutputResult>>,
    k: int,
) -> Selection {
    if k <= 0 {
        selection.from_start()
    } else {
        selection.from_entry(pages[k - 1][shown as int])
    }
}

/// Whether the page at place `k` of a chain of pages is the answer to its
/// selection, asked for one entry more than the reader shows.
pub open spec fn answers_page(
    docs: Seq<OutputDocument>,
    selection: Selection,
    shown: nat,
    pages: Seq<Seq<OutputResult>>,
    k: int,
) -> bool {
    is_page(docs, selection_of_page(selection, shown, pages, k), shown + 1, pages[k])
}

/// Whether `pages` is what a reader gets who follows cursors from the start
/// of a listing to its end, showing `shown` entries per page: each page is
/// the answer to its selection, each page but the last comes back with the
/// entry that starts the next, and the last comes back without one.
pub open spec fn follows_cursors(
    docs: Seq<OutputDocument>,
    selection: Selection,
    shown: nat,
    pages: Seq<Seq<OutputResult>>,
) -> bool {
    &&& pages.len() >= 1
    &&& forall|k: int|
        0 <= k < pages.len() ==> #[trigger] answers_page(docs, selection, shown, pages, k)
    &&& forall|k: int| 0 <= k < pages.len() - 1 ==> (#[trigger] pages[k]).len() == shown + 1
    &&& pages.last().len() <= shown
}

/// The entries of a page that the reader shows.
pub open spec fn shown_part(page: Seq<OutputResult>, shown: nat) -> Seq<OutputResult> {
    if page.len() > shown {
        page.take(shown as int)
    } else {
        page
    }
}

/// The shown entries of a chain of pages, one page after the other.
pub open spec fn shown_entries(pages: Seq<Seq<OutputResult>>, shown: nat) -> Seq<OutputResult>
    decreases pages.len(),
{
    if pages.len() == 0 {
        Seq::empty()
    } else {
        shown_entries(pages.drop_last(), shown) + shown_part(pages.last(), shown)
    }
}

/// An output stands at a cursor or behind it exactly if its entry is the
/// cursor's entry or comes after it in the listing.
pub proof fn lemma_from_cursor(entry: OutputResult, selection: Selection, doc: OutputDocument)
    ensures
        from_cursor((entry.booked_index, entry.output_id), selection.order, doc) <==> doc.listed_as()
            == entry || entry.precedes(doc.listed_as(), selection.order),
{
    lemma_array_eq(doc.output_id.0, entry.output_id.0);
}

/// What a selection selects from an entry on is what it selects from the
/// start, less what stands before the entry.
pub proof fn lemma_selected_from_entry(
    docs: Seq<OutputDocument>,
    selection: Selection,
    entry: OutputResult,
    item: OutputResult,
)
    ensures
        selected_in(docs, selection.from_entry(entry), item) <==> selected_in(
            docs,
            selection.from_start(),
            item,
        ) && (item == entry || entry.precedes(item, selection.order)),
{
    let from_entry = selection.from_entry(entry);
    let from_start = selection.from_start();
    if selected_in(docs, from_entry, item) {
        let j = choose|j: int|
            0 <= j < docs.len() && from_entry.selects(#[trigger] docs[j]) && docs[j].listed_as()
                == item;
        lemma_from_cursor(entry, selection, docs[j]);
        assert(from_start.selects(docs[j]));
    }
    if selected_in(docs, from_start, item) && (item == entry || entry.precedes(
        item,
        selection.order,
    )) {
        let j = choose|j: int|
            0 <= j < docs.len() && from_start.selects(#[trigger] docs[j]) && docs[j].listed_as()
                == item;
        lemma_from_cursor(entry, selection, docs[j]);
        assert(from_entry.selects(docs[j]));
    }
}

/// The selection that a page answers which starts at `start`, or at the
/// start of the listing where there is none.
spec fn selection_from(selection: Selection, start: Option<OutputResult>) -> Selection {
    match start {
        Some(entry) => selection.from_entry(entry),
        None => selection.from_start(),
    }
}

/// What a reader has seen of a listing when the next page is to start at
/// `start`: the shown entries are in order, each is selected and stands
/// before `start`, and every selected output is shown already or stands at
/// `start` or behind it. With no `start` nothing is shown yet.
#[verifier::opaque]
spec fn seen_before(
    docs: Seq<OutputDocument>,
    selection: Selection,
    seen: Seq<OutputResult>,
    start: Option<OutputResult>,
) -> bool {
    &&& strictly_ordered(seen, selection.order)
    &&& start is None ==> seen.len() == 0
    &&& forall|item: OutputResult| #[trigger]
        seen.contains(item) ==> selected_in(docs, selection.from_start(), item) && (start matches Some(
            entry,
        ) ==> item.precedes(entry, selection.order))
    &&& forall|item: OutputResult| #[trigger]
        selected_in(docs, selection.from_start(), item) ==> seen.contains(item) || (
        start matches Some(entry) ==> item == entry || entry.precedes(item, selection.order))
}

proof fn lemma_contains_concat(a: Seq<OutputResult>, b: Seq<OutputResult>, item: OutputResult)
    ensures
        (a + b).contains(item) <==> a.contains(item) || b.contains(item),
{
    if a.contains(item) {
        let i = a.index_of(item);
        assert((a + b)[i] == item);
    }
    if b.contains(item) {
        let i = b.index_of(item);
        assert((a + b)[a.len() + i] == item);
    }
    if (a + b).contains(item) {
        let i = (a + b).index_of(item);
        if i < a.len() {
            assert(a[i] == item);
        } else {
            assert(b[i - a.len()] == item);
        }
    }
}

proof fn lemma_ordered_concat(a: Seq<OutputResult>, b: Seq<OutputResult>, selection: Selection)
    requires
        strictly_ordered(a, selection.order),
        strictly_ordered(b, selection.order),
        forall|i: int, j: int|
            0 <= i < a.len() && 0 <= j < b.len() ==> (#[trigger] a[i]).precedes(
                #[trigger] b[j],
                selection.order,
            ),
    ensures
        strictly_ordered(a + b, selection.order),
{
    let c = a + b;
    assert forall|i: int, j: int| 0 <= i < j < c.len() implies (#[trigger] c[i]).precedes(
        #[trigger] c[j],
        selection.order,
    ) by {
        if j < a.len() {
            assert(c[i] == a[i] && c[j] == a[j]);
        } else if i < a.len() {
            assert(c[i] == a[i] && c[j] == b[j - a.len()]);
        } else {
            assert(c[i] == b[i - a.len()] && c[j] == b[j - a.len()]);
        }
    }
}

/// Every entry of a page is selected from the start of the listing, and
/// stands at the page's start or behind it.
proof fn lemma_page_entries(
    docs: Seq<OutputDocument>,
    selection: Selection,
    start: Option<OutputResult>,
    limit: nat,
    page: Seq<OutputResult>,
    i: int,
)
    requires
        is_page(docs, selection_from(selection, start), limit, page),
        0 <= i < page.len(),
    ensures
        selected_in(docs, selection.from_start(), page[i]),
        start matches Some(entry) ==> page[i] == entry || entry.precedes(page[i], selection.order),
{
    assert(page.contains(page[i]));
    match start {
        Some(entry) => {
            lemma_selected_from_entry(docs, selection, entry, page[i]);
        },
        None => {},
    }
}

/// A selected output that the reader has not seen has a place in the listing
/// that the next page is cut from.
proof fn lemma_unseen_is_selected(
    docs: Seq<OutputDocument>,
    selection: Selection,
    seen: Seq<OutputResult>,
    start: Option<OutputResult>,
    item: OutputResult,
)
    requires
        seen_before(docs, selection, seen, start),
        selected_in(docs, selection.from_start(), item),
        !seen.contains(item),
    ensures
        selected_in(docs, selection_from(selection, start), item),
{
    reveal(seen_before);
    match start {
        Some(entry) => {
            lemma_selected_from_entry(docs, selection, entry, item);
        },
        None => {},
    }
}

/// The shown entries in front of a page stand before the page's entries.
proof fn lemma_seen_precedes_page(
    docs: Seq<OutputDocument>,
    selection: Selection,
    seen: Seq<OutputResult>,
    start: Option<OutputResult>,
    limit: nat,
    page: Seq<OutputResult>,
    i: int,
    j: int,
)
    requires
        seen_before(docs, selection, seen, start),
        is_page(docs, selection_from(selection, start), limit, page),
        0 <= i < seen.len(),
        0 <= j < page.len(),
    ensures
        seen[i].precedes(page[j], selection.order),
{
    reveal(seen_before);
    assert(seen.contains(seen[i]));
    lemma_page_entries(docs, selection, start, limit, page, j);
    let entry = start->Some_0;
    if page[j] != entry {
        lemma_precedes_transitive(seen[i], entry, page[j], selection.order);
    }
}

/// Showing a full page but for its last entry, which becomes the start of
/// the next page, keeps account of the listing.
proof fn lemma_show_full_page(
    docs: Seq<OutputDocument>,
    selection: Selection,
    seen: Seq<OutputResult>,
    start: Option<OutputResult>,
    shown: nat,
    page: Seq<OutputResult>,
)
    requires
        seen_before(docs, selection, seen, start),
        is_page(docs, selection_from(selection, start), shown + 1, page),
        page.len() == shown + 1,
    ensures
        seen_before(docs, selection, seen + page.take(shown as int), Some(page[shown as int])),
{
    reveal(seen_before);
    let order = selection.order;
    let from_start = selection.from_start();
    let of_page = selection_from(selection, start);
    let part = page.take(shown as int);
    let next = page[shown as int];
    let all = seen + part;
    assert(strictly_ordered(all, order)) by {
        assert forall|i: int, j: int| 0 <= i < j < part.len() implies (#[trigger] part[i]).precedes(
            #[trigger] part[j],
            order,
        ) by {
            assert(part[i] == page[i] && part[j] == page[j]);
        }
        assert forall|i: int, j: int| 0 <= i < seen.len() && 0 <= j < part.len() implies (
        #[trigger] seen[i]).precedes(#[trigger] part[j], order) by {
            assert(part[j] == page[j]);
            lemma_seen_precedes_page(docs, selection, seen, start, shown + 1, page, i, j);
        }
        lemma_ordered_concat(seen, part, selection);
    }
    assert forall|item: OutputResult| #[trigger] all.contains(item) implies selected_in(
        docs,
        from_start,
        item,
    ) && item.precedes(next, order) by {
        lemma_contains_concat(seen, part, item);
        if seen.contains(item) {
            let i = seen.index_of(item);
            lemma_seen_precedes_page(docs, selection, seen, start, shown + 1, page, i, shown as int);
        } else {
            let i = part.index_of(item);
            assert(part[i] == page[i]);
            lemma_page_entries(docs, selection, start, shown + 1, page, i);
        }
    }
    assert(selected_in(docs, from_start, next)) by {
        lemma_page_entries(docs, selection, start, shown + 1, page, shown as int);
    }
    assert forall|item: OutputResult| #[trigger]
        selected_in(docs, from_start, item) implies all.contains(item) || item == next
        || next.precedes(item, order) by {
        lemma_contains_concat(seen, part, item);
        if !seen.contains(item) {
            lemma_unseen_is_selected(docs, selection, seen, start, item);
            if page.contains(item) {
                let i = page.index_of(item);
                if i < shown {
                    assert(part[i] == item);
                }
            }
        }
    }
}

/// Showing a page that came back short of the asked length completes the
/// listing.
proof fn lemma_show_last_page(
    docs: Seq<OutputDocument>,
    selection: Selection,
    seen: Seq<OutputResult>,
    start: Option<OutputResult>,
    shown: nat,
    page: Seq<OutputResult>,
)
    requires
        seen_before(docs, selection, seen, start),
        is_page(docs, selection_from(selection, start), shown + 1, page),
        page.len() <= shown,
    ensures
        is_listing(docs, selection.from_start(), seen + page),
{
    reveal(seen_before);
    let order = selection.order;
    let from_start = selection.from_start();
    let all = seen + page;
    assert(strictly_ordered(all, order)) by {
        assert forall|i: int, j: int| 0 <= i < seen.len() && 0 <= j < page.len() implies (
        #[trigger] seen[i]).precedes(#[trigger] page[j], order) by {
            lemma_seen_precedes_page(docs, selection, seen, start, shown + 1, page, i, j);
        }
        lemma_ordered_concat(seen, page, selection);
    }
    assert forall|item: OutputResult|
        #![trigger all.contains(item)]
        #![trigger selected_in(docs, from_start, item)]
        all.contains(item) <==> selected_in(docs, from_start, item) by {
        lemma_contains_concat(seen, page, item);
        if page.contains(item) {
            let i = page.index_of(item);
            lemma_page_entries(docs, selection, start, shown + 1, page, i);
        }
        if selected_in(docs, from_start, item) && !seen.contains(item) {
            lemma_unseen_is_selected(docs, selection, seen, start, item);
        }
    }
}

/// The start of the page at place `k` of a chain.
spec fn start_of_page(pages: Seq<Seq<OutputResult>>, shown: nat, k: int) -> Option<OutputResult> {
    if k <= 0 {
        None
    } else {
        Some(pages[k - 1][shown as int])
    }
}

proof fn lemma_seen_before_page(
    docs: Seq<OutputDocument>,
    selection: Selection,
    shown: nat,
    pages: Seq<Seq<OutputResult>>,
    k: int,
)
    requires
        follows_cursors(docs, selection, shown, pages),
        0 <= k < pages.len(),
    ensures
        seen_before(
            docs,
            selection,
            shown_entries(pages.take(k), shown),
            start_of_page(pages, shown, k),
        ),
    decreases k,
{
    if k == 0 {
        reveal(seen_before);
        assert(pages.take(0).len() == 0);
    } else {
        lemma_seen_before_page(docs, selection, shown, pages, k - 1);
        let page = pages[k - 1];
        assert(answers_page(docs, selection, shown, pages, k - 1));
        assert(pages.take(k).drop_last() == pages.take(k - 1));
        assert(pages.take(k).last() == page);
        assert(selection_of_page(selection, shown, pages, k - 1) == selection_from(
            selection,
            start_of_page(pages, shown, k - 1),
        ));
        lemma_show_full_page(
            docs,
            selection,
            shown_entries(pages.take(k - 1), shown),
            start_of_page(pages, shown, k - 1),
            shown,
            page,
        );
    }
}

/// Reading a listing page by page loses nothing and repeats nothing: the
/// shown entries of the pages that a reader gets by following cursors from
/// the start of the listing to its end, one page after the other, are the
/// whole listing. They are exactly the outputs that the selection selects
/// without a cursor, each once, in the selection's order.
pub proof fn lemma_pages_cover_listing(
    docs: Seq<OutputDocument>,
    selection: Selection,
    shown: nat,
    pages: Seq<Seq<OutputResult>>,
)
    requires
        follows_cursors(docs, selection, shown, pages),
    ensures
        is_listing(docs, selection.from_start(), shown_entries(pages, shown)),
{
    let k = pages.len() - 1;
    lemma_seen_before_page(docs, selection, shown, pages, k);
    assert(answers_page(docs, selection, shown, pages, k));
    assert(pages.drop_last() == pages.take(k));
    assert(selection_of_page(selection, shown, pages, k) == selection_from(
        selection,
        start_of_page(pages, shown, k),
    ));
    lemma_show_last_page(
        docs,
        selection,
        shown_entries(pages.take(k), shown),
        start_of_page(pages, shown, k),
        shown,
        pages[k],
    );
}

} // verus!
