//! Lookups of outputs through their secondary indexes, as of a ledger index.

pub mod indexes;
pub mod order;
pub mod pagination;
pub mod queries;

use vstd::prelude::*;
use crate::db::outputs::indexer::indexes::{lemma_all_indexes, IndexerIndex};
use crate::db::outputs::indexer::order::{
    insert_ordered,
    lemma_ordered_places,
    lemma_precedes_asymmetric,
    lemma_precedes_irreflexive,
    strictly_ordered,
};
use crate::db::outputs::indexer::queries::{Filter, Predicate};
use crate::db::outputs::{OutputCollection, OutputDocument};
use crate::db::SortOrder;
use crate::model::bytes::bytes_le;
use crate::model::ids::{AliasId, FoundryId, NftId, OutputId};
use crate::model::metadata::OutputMetadata;
use crate::model::output::OutputKind;
use crate::model::tangle::MilestoneIndex;

verus! {

/// One output of a listing: its identifier and the milestone that booked it.
#[derive(Clone, Copy, Debug, PartialEq, Eq)]
pub struct OutputResult {
    pub output_id: OutputId,
    pub booked_index: MilestoneIndex,
}

/// A listing of outputs.
#[derive(Clone, Debug)]
pub struct OutputsResult {
    pub outputs: Vec<OutputResult>,
}

/// The identifier that an alias, foundry or NFT output carries, by which the
/// output can be looked up without its output identifier.
#[derive(Clone, Copy, Debug, PartialEq, Eq)]
pub enum IndexedId {
    Alias(AliasId),
    Foundry(FoundryId),
    Nft(NftId),
}

/// The output that a lookup by indexed identifier found.
#[derive(Clone, Copy, Debug, PartialEq, Eq)]
pub struct IndexedOutputResult {
    pub output_id: OutputId,
}

impl IndexedId {
    /// The kind of output that the identifier belongs to.
    pub open spec fn output_kind(self) -> OutputKind {
        match self {
            IndexedId::Alias(_) => OutputKind::Alias,
            IndexedId::Foundry(_) => OutputKind::Foundry,
            IndexedId::Nft(_) => OutputKind::Nft,
        }
    }

    /// The kind of output that the identifier belongs to.
    pub fn to_output_kind(&self) -> (kind: OutputKind)
        ensures
            kind == self.output_kind(),
    {
        match self {
            IndexedId::Alias(_) => OutputKind::Alias,
            IndexedId::Foundry(_) => OutputKind::Foundry,
            IndexedId::Nft(_) => OutputKind::Nft,
        }
    }

    /// Get the indexed ID kind.
    pub fn kind(&self) -> (r: &'static str)
        ensures
            r@ == self.output_kind().name_spec(),
    {
        match self {
            IndexedId::Alias(_) => OutputKind::Alias.name(),
            IndexedId::Foundry(_) => OutputKind::Foundry.name(),
            IndexedId::Nft(_) => OutputKind::Nft.name(),
        }
    }

    /// Whether this is the same identifier as `other`: of the same kind and
    /// with the same bytes.
    pub fn same(&self, other: &IndexedId) -> (r: bool)
        ensures
            r == (*self == *other),
    {
        match (self, other) {
            (IndexedId::Alias(a), IndexedId::Alias(b)) => a.same(b),
            (IndexedId::Foundry(a), IndexedId::Foundry(b)) => a.same(b),
            (IndexedId::Nft(a), IndexedId::Nft(b)) => a.same(b),
            _ => false,
        }
    }
}

impl From<AliasId> for IndexedId {
    fn from(id: AliasId) -> (r: IndexedId) {
        IndexedId::Alias(id)
    }
}

impl vstd::std_specs::convert::FromSpecImpl<AliasId> for IndexedId {
    open spec fn obeys_from_spec() -> bool {
        true
    }

    open spec fn from_spec(id: AliasId) -> IndexedId {
        IndexedId::Alias(id)
    }
}

impl From<FoundryId> for IndexedId {
    fn from(id: FoundryId) -> (r: IndexedId) {
        IndexedId::Foundry(id)
    }
}

impl vstd::std_specs::convert::FromSpecImpl<FoundryId> for IndexedId {
    open spec fn obeys_from_spec() -> bool {
        true
    }

    open spec fn from_spec(id: FoundryId) -> IndexedId {
        IndexedId::Foundry(id)
    }
}

impl From<NftId> for IndexedId {
    fn from(id: NftId) -> (r: IndexedId) {
        IndexedId::Nft(id)
    }
}

impl vstd::std_specs::convert::FromSpecImpl<NftId> for IndexedId {
    open spec fn obeys_from_spec() -> bool {
        true
    }

    open spec fn from_spec(id: NftId) -> IndexedId {
        IndexedId::Nft(id)
    }
}

/// What a listing is asked for: the caller's filter, the place at which the
/// listing starts, its direction, and the ledger index as of which outputs
/// are looked at.
pub struct Selection {
    pub filter: Filter,
    pub cursor: Option<(MilestoneIndex, OutputId)>,
    pub order: SortOrder,
    pub include_spent: bool,
    pub ledger_index: MilestoneIndex,
}

/// Whether a stored output stands at the cursor or behind it in a listing of
/// the given order.
pub open spec fn from_cursor(
    cursor: (MilestoneIndex, OutputId),
    order: SortOrder,
    doc: OutputDocument,
) -> bool {
    let booked = doc.metadata.booked.milestone_index;
    match order {
        SortOrder::Newest => booked.0 < cursor.0.0 || (booked.0 == cursor.0.0 && bytes_le(
            doc.output_id@,
            cursor.1@,
        )),
        SortOrder::Oldest => booked.0 > cursor.0.0 || (booked.0 == cursor.0.0 && bytes_le(
            cursor.1@,
            doc.output_id@,
        )),
    }
}

impl Selection {
    /// Whether the listing has a place for a stored output: the output
    /// passes the caller's filter, was booked as of the ledger index, was not
    /// spent as of the ledger index unless spent outputs are asked for, and
    /// stands at the cursor or behind it where there is one.
    pub open spec fn selects(self, doc: OutputDocument) -> bool {
        &&& self.filter.matches(doc)
        &&& doc.metadata.visible_as_of(self.ledger_index, self.include_spent)
        &&& (self.cursor matches Some(cursor) ==> from_cursor(cursor, self.order, doc))
    }

    /// The same selection from the start of the listing.
    pub open spec fn from_start(self) -> Selection {
        Selection { cursor: None, ..self }
    }

    /// The same selection from the given entry of the listing on.
    pub open spec fn from_entry(self, entry: OutputResult) -> Selection {
        Selection { cursor: Some((entry.booked_index, entry.output_id)), ..self }
    }
}

/// Whether `item` stands for one of the stored outputs that the selection
/// selects.
pub open spec fn selected_in(docs: Seq<OutputDocument>, selection: Selection, item: OutputResult) -> bool {
    exists|j: int|
        0 <= j < docs.len() && selection.selects(#[trigger] docs[j]) && docs[j].listed_as() == item
}

/// Whether `listing` is the whole answer to a selection: it lists exactly the
/// selected outputs, each once, in the selection's order.
pub open spec fn is_listing(
    docs: Seq<OutputDocument>,
    selection: Selection,
    listing: Seq<OutputResult>,
) -> bool {
    &&& strictly_ordered(listing, selection.order)
    &&& forall|item: OutputResult|
        #![trigger listing.contains(item)]
        #![trigger selected_in(docs, selection, item)]
        listing.contains(item) <==> selected_in(docs, selection, item)
}

/// Whether `page` is the answer to a selection with at most `page_size`
/// entries: it lists selected outputs only, each once, in the selection's
/// order, and a selected output that it leaves out stands behind all of the
/// `page_size` outputs that it lists.
pub open spec fn is_page(
    docs: Seq<OutputDocument>,
    selection: Selection,
    page_size: nat,
    page: Seq<OutputResult>,
) -> bool {
    &&& page.len() <= page_size
    &&& strictly_ordered(page, selection.order)
    &&& forall|item: OutputResult| #[trigger]
        page.contains(item) ==> selected_in(docs, selection, item)
    &&& forall|item: OutputResult| #[trigger]
        selected_in(docs, selection, item) ==> page.contains(item) || (page.len() == page_size
            && forall|i: int|
            0 <= i < page.len() ==> (#[trigger] page[i]).precedes(item, selection.order))
}

/// The first entries of a whole listing are a page.
pub proof fn lemma_page_of_listing(
    docs: Seq<OutputDocument>,
    selection: Selection,
    page_size: nat,
    listing: Seq<OutputResult>,
)
    requires
        is_listing(docs, selection, listing),
    ensures
        is_page(
            docs,
            selection,
            page_size,
            if page_size <= listing.len() {
                listing.take(page_size as int)
            } else {
                listing
            },
        ),
{
    if page_size <= listing.len() {
        let page = listing.take(page_size as int);
        assert forall|item: OutputResult| #[trigger] page.contains(item) implies selected_in(
            docs,
            selection,
            item,
        ) by {
            let i = page.index_of(item);
            assert(listing[i] == item);
            assert(listing.contains(item));
        }
        assert forall|item: OutputResult| #[trigger]
            selected_in(docs, selection, item) implies page.contains(item) || (page.len()
            == page_size && forall|i: int|
            0 <= i < page.len() ==> (#[trigger] page[i]).precedes(item, selection.order)) by {
            assert(listing.contains(item));
            let k = listing.index_of(item);
            if k < page_size {
                assert(page[k] == item);
            } else {
                assert forall|i: int| 0 <= i < page.len() implies (#[trigger] page[i]).precedes(
                    item,
                    selection.order,
                ) by {
                    assert(page[i] == listing[i]);
                }
            }
        }
    }
}

/// An output that is booked after the ledger index of a selection never
/// appears: the answers to the selection are the same with the output stored
/// as without it.
pub proof fn lemma_later_outputs_never_appear(
    docs: Seq<OutputDocument>,
    later: OutputDocument,
    selection: Selection,
    page_size: nat,
    page: Seq<OutputResult>,
)
    requires
        later.metadata.booked.milestone_index.0 > selection.ledger_index.0,
    ensures
        is_page(docs.push(later), selection, page_size, page) <==> is_page(
            docs,
            selection,
            page_size,
            page,
        ),
{
    let with = docs.push(later);
    assert forall|item: OutputResult|
        selected_in(with, selection, item) <==> selected_in(docs, selection, item) by {
        if selected_in(with, selection, item) {
            let j = choose|j: int|
                0 <= j < with.len() && selection.selects(#[trigger] with[j]) && with[j].listed_as()
                    == item;
            assert(with[j] == docs[j]);
        }
        if selected_in(docs, selection, item) {
            let j = choose|j: int|
                0 <= j < docs.len() && selection.selects(#[trigger] docs[j]) && docs[j].listed_as()
                    == item;
            assert(with[j] == docs[j]);
        }
    }
}

proof fn lemma_pages_agree_at(
    docs: Seq<OutputDocument>,
    selection: Selection,
    page_size: nat,
    a: Seq<OutputResult>,
    b: Seq<OutputResult>,
    i: int,
)
    requires
        is_page(docs, selection, page_size, a),
        is_page(docs, selection, page_size, b),
        0 <= i < a.len(),
    ensures
        i < b.len(),
        a[i] == b[i],
    decreases i,
{
    let order = selection.order;
    assert(a.contains(a[i]));
    assert(selected_in(docs, selection, a[i]));
    if b.contains(a[i]) {
        let m = b.index_of(a[i]);
        if m < i {
            // the entry would stand at two places of `a`
            if m < a.len() {
                lemma_pages_agree_at(docs, selection, page_size, b, a, m);
                lemma_precedes_irreflexive(a[i], order);
            }
        } else if m > i {
            // `b` lists an entry in front of it that `a` has no place for
            assert(b.contains(b[i]));
            assert(selected_in(docs, selection, b[i]));
            if a.contains(b[i]) {
                let p = a.index_of(b[i]);
                lemma_ordered_places(a, order, p, i);
                lemma_pages_agree_at(docs, selection, page_size, a, b, p);
                lemma_precedes_irreflexive(b[i], order);
            } else {
                lemma_precedes_asymmetric(a[i], b[i], order);
            }
        }
    } else {
        // `b` is full of entries that stand before this one
        if i < b.len() {
            assert(b.contains(b[i]));
            assert(selected_in(docs, selection, b[i]));
            if a.contains(b[i]) {
                let p = a.index_of(b[i]);
                lemma_ordered_places(a, order, p, i);
                lemma_pages_agree_at(docs, selection, page_size, a, b, p);
                lemma_precedes_irreflexive(b[i], order);
            } else {
                lemma_precedes_asymmetric(a[i], b[i], order);
            }
        }
    }
}

/// A selection and a page size have one answer: two pages that both answer
/// them are the same page.
pub proof fn lemma_page_is_unique(
    docs: Seq<OutputDocument>,
    selection: Selection,
    page_size: nat,
    a: Seq<OutputResult>,
    b: Seq<OutputResult>,
)
    requires
        is_page(docs, selection, page_size, a),
        is_page(docs, selection, page_size, b),
    ensures
        a == b,
{
    if a.len() > 0 {
        lemma_pages_agree_at(docs, selection, page_size, a, b, a.len() - 1);
    }
    if b.len() > 0 {
        lemma_pages_agree_at(docs, selection, page_size, b, a, b.len() - 1);
    }
    assert forall|i: int| 0 <= i < a.len() implies a[i] == b[i] by {
        lemma_pages_agree_at(docs, selection, page_size, a, b, i);
    }
    assert(a =~= b);
}

/// The filter that a listing runs: the caller's filter together with what
/// the ledger index and the cursor demand.
pub fn indexed_outputs_filter(
    query: Filter,
    cursor: Option<(MilestoneIndex, OutputId)>,
    order: SortOrder,
    include_spent: bool,
    ledger_index: MilestoneIndex,
) -> (filter: Filter)
    ensures
        forall|doc: OutputDocument| #[trigger]
            filter.matches(doc) <==> (Selection {
                filter: query,
                cursor,
                order,
                include_spent,
                ledger_index,
            }).selects(doc),
{
    let mut additional = Filter::Field(Predicate::BookedAsOf(ledger_index));
    if !include_spent {
        additional = Filter::And(
            Box::new(additional),
            Box::new(Filter::Field(Predicate::UnspentAsOf(ledger_index))),
        );
    }
    if let Some((start_index, start_output_id)) = cursor {
        let (beyond, at_most) = match order {
            SortOrder::Newest => (
                Predicate::BookedBefore(start_index),
                Predicate::OutputIdAtMost(start_output_id),
            ),
            SortOrder::Oldest => (
                Predicate::BookedAfter(start_index),
                Predicate::OutputIdAtLeast(start_output_id),
            ),
        };
        let on_from_start = Filter::Or(
            Box::new(Filter::Field(beyond)),
            Box::new(
                Filter::And(
                    Box::new(Filter::Field(Predicate::BookedAt(start_index))),
                    Box::new(Filter::Field(at_most)),
                ),
            ),
        );
        additional = Filter::And(Box::new(additional), Box::new(on_from_start));
    }
    let filter = Filter::And(Box::new(query), Box::new(additional));
    proof {
        reveal_with_fuel(Filter::matches, 6);
    }
    filter
}

/// Whether a stored output is the unspent holder of an indexed identifier as
/// of a ledger index: it is of the identifier's kind, carries the identifier,
/// was booked as of the ledger index and was not spent as of it.
pub open spec fn holds_indexed_id(
    doc: OutputDocument,
    id: IndexedId,
    ledger_index: MilestoneIndex,
) -> bool {
    &&& doc.output.kind_spec() == id.output_kind()
    &&& doc.details.indexed_id == Some(id)
    &&& doc.metadata.visible_as_of(ledger_index, false)
}

/// Whether the document at place `j` is the one that a lookup by indexed
/// identifier finds: the holder that was booked last and, of several booked
/// at that milestone, the one that was stored first.
pub open spec fn is_current_holder(
    docs: Seq<OutputDocument>,
    id: IndexedId,
    ledger_index: MilestoneIndex,
    j: int,
) -> bool {
    &&& 0 <= j < docs.len()
    &&& holds_indexed_id(docs[j], id, ledger_index)
    &&& forall|k: int|
        0 <= k < docs.len() && holds_indexed_id(#[trigger] docs[k], id, ledger_index) ==> {
            let booked = docs[k].metadata.booked.milestone_index.0;
            let latest = docs[j].metadata.booked.milestone_index.0;
            booked < latest || (booked == latest && j <= k)
        }
}

/// The filter that a lookup by indexed identifier runs.
pub fn indexed_output_filter(id: IndexedId, ledger_index: MilestoneIndex) -> (filter: Filter)
    ensures
        forall|doc: OutputDocument| #[trigger]
            filter.matches(doc) <==> holds_indexed_id(doc, id, ledger_index),
{
    let of_kind = Filter::And(
        Box::new(Filter::Field(Predicate::Kind(id.to_output_kind()))),
        Box::new(Filter::Field(Predicate::IndexedId(id))),
    );
    let as_of = Filter::And(
        Box::new(Filter::Field(Predicate::BookedAsOf(ledger_index))),
        Box::new(Filter::Field(Predicate::UnspentAsOf(ledger_index))),
    );
    let filter = Filter::And(Box::new(of_kind), Box::new(as_of));
    proof {
        reveal_with_fuel(Filter::matches, 4);
    }
    filter
}

impl IndexedOutputResult {
    /// What a lookup answers once an output was fetched for it. A fetched
    /// output that turns out to be spent as of the ledger index counts as
    /// spent, whatever the fetch was asked for: the lookup then found
    /// nothing.
    pub fn from_fetched(fetched: Option<(OutputId, OutputMetadata)>, ledger_index: MilestoneIndex) -> (res:
        Option<IndexedOutputResult>)
        ensures
            res == match fetched {
                Some((output_id, metadata)) => if metadata.spent_as_of(ledger_index) {
                    None
                } else {
                    Some(IndexedOutputResult { output_id })
                },
                None => None,
            },
    {
        match fetched {
            Some((output_id, metadata)) => if metadata.is_spent_as_of(ledger_index) {
                None
            } else {
                Some(IndexedOutputResult { output_id })
            },
            None => None,
        }
    }
}

impl OutputCollection {
    /// Gets the current unspent indexed output id with the given indexed id:
    /// the output that holds the identifier as of `ledger_index`, if there is
    /// one.
    pub fn get_indexed_output_by_id(&self, id: IndexedId, ledger_index: MilestoneIndex) -> (res: Option<
        IndexedOutputResult,
    >)
        ensures
            match res {
                Some(found) => exists|j: int|
                    is_current_holder(self@, id, ledger_index, j) && found.output_id
                        == self@[j].output_id,
                None => forall|j: int|
                    0 <= j < self@.len() ==> !holds_indexed_id(#[trigger] self@[j], id, ledger_index),
            },
    {
        let filter = indexed_output_filter(id, ledger_index);
        let mut latest: Option<usize> = None;
        let mut i: usize = 0;
        while i < self.len()
            invariant
                i <= self@.len(),
                forall|doc: OutputDocument| #[trigger]
                    filter.matches(doc) <==> holds_indexed_id(doc, id, ledger_index),
                match latest {
                    Some(j) => j < i && is_current_holder(self@.take(i as int), id, ledger_index, j as int),
                    None => forall|j: int|
                        0 <= j < i ==> !holds_indexed_id(#[trigger] self@[j], id, ledger_index),
                },
            decreases self@.len() - i,
        {
            let doc = self.doc_at(i);
            let ghost seen = self@.take(i as int);
            let ghost seen_next = self@.take(i + 1);
            let ghost before = latest;
            if filter.accepts(doc) {
                let later = match latest {
                    Some(j) => self.doc_at(j).metadata.booked.milestone_index.0
                        < doc.metadata.booked.milestone_index.0,
                    None => true,
                };
                if later {
                    latest = Some(i);
                }
            }
            proof {
                assert(seen_next[i as int] == *doc);
                match latest {
                    Some(j) => {
                        assert forall|k: int|
                            0 <= k < seen_next.len() && holds_indexed_id(
                                #[trigger] seen_next[k],
                                id,
                                ledger_index,
                            ) implies {
                            let booked = seen_next[k].metadata.booked.milestone_index.0;
                            let top = seen_next[j as int].metadata.booked.milestone_index.0;
                            booked < top || (booked == top && j <= k)
                        } by {
                            if k < i {
                                assert(seen[k] == seen_next[k]);
                                match before {
                                    Some(b) => {
                                        assert(seen[b as int] == seen_next[b as int]);
                                    },
                                    None => {
                                        assert(self@[k] == seen_next[k]);
                                    },
                                }
                            }
                        }
                        assert(seen_next[j as int] == self@[j as int]);
                        if j < i {
                            assert(seen[j as int] == self@[j as int]);
                        }
                    },
                    None => {},
                }
            }
            i += 1;
        }
        assert(self@.take(i as int) == self@);
        let fetched = match latest {
            Some(j) => Some((self.doc_at(j).output_id, self.doc_at(j).metadata)),
            None => None,
        };
        IndexedOutputResult::from_fetched(fetched, ledger_index)
    }

    /// Creates indexer output indexes: each of the indexer's secondary
    /// indexes that the collection does not have yet, in the order of
    /// [`IndexerIndex::all_spec`] and behind the indexes that it has. The
    /// stored documents stay as they are, and on a collection that has the
    /// indexes nothing changes.
    pub fn create_indexer_indexes(&mut self)
        requires
            old(self).wf(),
        ensures
            final(self).wf(),
            final(self)@ == old(self)@,
            forall|index: IndexerIndex| #[trigger] final(self).indexes().contains(index),
            final(self).indexes().len() >= old(self).indexes().len(),
            final(self).indexes().take(old(self).indexes().len() as int) == old(self).indexes(),
            (forall|index: IndexerIndex| #[trigger] old(self).indexes().contains(index))
                ==> final(self).indexes() == old(self).indexes(),
    {
        let all = IndexerIndex::all();
        let mut i: usize = 0;
        while i < all.len()
            invariant
                i <= all@.len(),
                all@ == IndexerIndex::all_spec(),
                self.wf(),
                self@ == old(self)@,
                forall|j: int| 0 <= j < i ==> self.indexes().contains(#[trigger] all@[j]),
                self.indexes().len() >= old(self).indexes().len(),
                self.indexes().take(old(self).indexes().len() as int) == old(self).indexes(),
                (forall|index: IndexerIndex| #[trigger] old(self).indexes().contains(index))
                    ==> self.indexes() == old(self).indexes(),
            decreases all@.len() - i,
        {
            let ghost before = self.indexes();
            self.create_index(all[i]);
            proof {
                assert forall|j: int| 0 <= j < i + 1 implies self.indexes().contains(
                    #[trigger] all@[j],
                ) by {
                    if before.contains(all@[j]) {
                        let at = before.index_of(all@[j]);
                        assert(self.indexes()[at] == all@[j]);
                    } else {
                        assert(self.indexes()[before.len() as int] == all@[j]);
                    }
                }
                assert(self.indexes().take(old(self).indexes().len() as int) =~= before.take(
                    old(self).indexes().len() as int,
                ));
            }
            i += 1;
        }
        proof {
            assert forall|index: IndexerIndex| #[trigger] self.indexes().contains(index) by {
                lemma_all_indexes(index);
                let at = all@.index_of(index);
                assert(self.indexes().contains(all@[at]));
            }
        }
    }

    /// Gets any indexed output kind that match the provided query: the first
    /// `page_size` entries, in the given order, of the listing of all stored
    /// outputs that pass `query`, are seen as of `ledger_index`, and stand
    /// at `cursor` or behind it.
    pub fn get_indexed_outputs(
        &self,
        query: Filter,
        page_size: usize,
        cursor: Option<(MilestoneIndex, OutputId)>,
        order: SortOrder,
        include_spent: bool,
        ledger_index: MilestoneIndex,
    ) -> (res: OutputsResult)
        requires
            self.wf(),
        ensures
            is_page(
                self@,
                (Selection { filter: query, cursor, order, include_spent, ledger_index }),
                page_size as nat,
                res.outputs@,
            ),
    {
        let ghost selection = Selection { filter: query, cursor, order, include_spent, ledger_index };
        let filter = indexed_outputs_filter(query, cursor, order, include_spent, ledger_index);
        let mut outputs: Vec<OutputResult> = Vec::new();
        let mut i: usize = 0;
        assert(self@.take(0).len() == 0);
        while i < self.len()
            invariant
                i <= self@.len(),
                self.wf(),
                selection.order == order,
                forall|doc: OutputDocument| #[trigger] filter.matches(doc) <==> selection.selects(doc),
                is_listing(self@.take(i as int), selection, outputs@),
            decreases self@.len() - i,
        {
            let doc = self.doc_at(i);
            let ghost seen = self@.take(i as int);
            let ghost seen_next = self@.take(i + 1);
            let ghost listed = outputs@;
            assert forall|item: OutputResult|
                selected_in(seen_next, selection, item) <==> selected_in(seen, selection, item) || (
                selection.selects(*doc) && doc.listed_as() == item) by {
                if selected_in(seen, selection, item) {
                    let j = choose|j: int|
                        0 <= j < seen.len() && selection.selects(#[trigger] seen[j])
                            && seen[j].listed_as() == item;
                    assert(seen_next[j] == seen[j]);
                }
                if selection.selects(*doc) && doc.listed_as() == item {
                    assert(seen_next[i as int] == *doc);
                }
                if selected_in(seen_next, selection, item) {
                    let j = choose|j: int|
                        0 <= j < seen_next.len() && selection.selects(#[trigger] seen_next[j])
                            && seen_next[j].listed_as() == item;
                    if j < i {
                        assert(seen[j] == seen_next[j]);
                    }
                }
            }
            if filter.accepts(doc) {
                let item = doc.to_result();
                proof {
                    if listed.contains(item) {
                        let j = choose|j: int|
                            0 <= j < seen.len() && selection.selects(#[trigger] seen[j])
                                && seen[j].listed_as() == item;
                        assert(self@[j].output_id == self@[i as int].output_id);
                    }
                }
                insert_ordered(&mut outputs, item, order);
            }
            i += 1;
        }
        assert(self@.take(i as int) == self@);
        proof {
            lemma_page_of_listing(self@, selection, page_size as nat, outputs@);
        }
        outputs.truncate(page_size);
        OutputsResult { outputs }
    }
}

} // verus!
