//! The collection of outputs.

pub mod indexer;

use vstd::prelude::*;
use crate::db::outputs::indexer::indexes::IndexerIndex;
use crate::db::outputs::indexer::{IndexedId, OutputResult};
use crate::model::ids::{Address, BlockId, OutputId};
use crate::model::metadata::{OutputMetadata, SpentMetadata};
use crate::model::output::Output;
use crate::model::tangle::{MilestoneIndexTimestamp, MilestoneTimestamp};

verus! {

/// What the indexes know about an output. Each field is derived from the
/// output when it is stored, and is absent where the output has nothing to
/// derive it from.
#[derive(Clone, Copy, Debug, PartialEq, Eq)]
pub struct OutputDetails {
    /// The address that owns the output.
    pub address: Option<Address>,
    /// The identifier that the output's kind carries.
    pub indexed_id: Option<IndexedId>,
    /// Where a storage deposit return sends the deposit.
    pub storage_deposit_return_address: Option<Address>,
    /// Until when a timelock holds the output.
    pub timelock: Option<MilestoneTimestamp>,
    /// Where an expiration hands the output back.
    pub expiration_return_address: Option<Address>,
    /// When an expiration hands the output back.
    pub expiration: Option<MilestoneTimestamp>,
    /// The address that governs an alias.
    pub governor: Option<Address>,
    /// The address that a sender feature names.
    pub sender: Option<Address>,
    /// How many native tokens the output holds, where its kind can hold any.
    pub native_token_count: Option<u32>,
}

/// An output as it is stored: its content, its metadata and the details that
/// the indexes read.
#[derive(Clone, Copy, Debug, PartialEq, Eq)]
pub struct OutputDocument {
    pub output_id: OutputId,
    pub output: Output,
    pub metadata: OutputMetadata,
    pub details: OutputDetails,
}

/// The outputs of the ledger, keyed by their identifier, with the secondary
/// indexes that were created on them. The collection holds its documents in
/// memory and answers every lookup by reading through them: the indexes are
/// on record, and no answer depends on them.
pub struct OutputCollection {
    docs: Vec<OutputDocument>,
    indexes: Vec<IndexerIndex>,
}

impl OutputDetails {
    /// The details of an output.
    pub open spec fn of(output: Output) -> OutputDetails {
        match output {
            Output::Treasury(_) => OutputDetails {
                address: None,
                indexed_id: None,
                storage_deposit_return_address: None,
                timelock: None,
                expiration_return_address: None,
                expiration: None,
                governor: None,
                sender: None,
                native_token_count: None,
            },
            Output::Basic(basic) => OutputDetails {
                address: Some(basic.address),
                indexed_id: None,
                storage_deposit_return_address: match basic.storage_deposit_return {
                    Some(condition) => Some(condition.return_address),
                    None => None,
                },
                timelock: match basic.timelock {
                    Some(condition) => Some(condition.timestamp),
                    None => None,
                },
                expiration_return_address: match basic.expiration {
                    Some(condition) => Some(condition.return_address),
                    None => None,
                },
                expiration: match basic.expiration {
                    Some(condition) => Some(condition.timestamp),
                    None => None,
                },
                governor: None,
                sender: basic.sender,
                native_token_count: Some(basic.native_token_count),
            },
            Output::Alias(alias) => OutputDetails {
                address: Some(alias.state_controller),
                indexed_id: Some(IndexedId::Alias(alias.alias_id)),
                storage_deposit_return_address: None,
                timelock: None,
                expiration_return_address: None,
                expiration: None,
                governor: Some(alias.governor),
                sender: alias.sender,
                native_token_count: Some(alias.native_token_count),
            },
            Output::Foundry(foundry) => OutputDetails {
                address: Some(Address::Alias(foundry.alias)),
                indexed_id: Some(IndexedId::Foundry(foundry.foundry_id)),
                storage_deposit_return_address: None,
                timelock: None,
                expiration_return_address: None,
                expiration: None,
                governor: None,
                sender: None,
                native_token_count: Some(foundry.native_token_count),
            },
            Output::Nft(nft) => OutputDetails {
                address: Some(nft.address),
                indexed_id: Some(IndexedId::Nft(nft.nft_id)),
                storage_deposit_return_address: match nft.storage_deposit_return {
                    Some(condition) => Some(condition.return_address),
                    None => None,
                },
                timelock: match nft.timelock {
                    Some(condition) => Some(condition.timestamp),
                    None => None,
                },
                expiration_return_address: match nft.expiration {
                    Some(condition) => Some(condition.return_address),
                    None => None,
                },
                expiration: match nft.expiration {
                    Some(condition) => Some(condition.timestamp),
                    None => None,
                },
                governor: None,
                sender: nft.sender,
                native_token_count: Some(nft.native_token_count),
            },
        }
    }

    /// Derives the details of an output.
    pub fn derive(output: &Output) -> (details: OutputDetails)
        ensures
            details == OutputDetails::of(*output),
    {
        let mut details = OutputDetails {
            address: None,
            indexed_id: None,
            storage_deposit_return_address: None,
            timelock: None,
            expiration_return_address: None,
            expiration: None,
            governor: None,
            sender: None,
            native_token_count: None,
        };
        match output {
            Output::Treasury(_) => {},
            Output::Basic(basic) => {
                details.address = Some(basic.address);
                if let Some(condition) = &basic.storage_deposit_return {
                    details.storage_deposit_return_address = Some(condition.return_address);
                }
                if let Some(condition) = &basic.timelock {
                    details.timelock = Some(condition.timestamp);
                }
                if let Some(condition) = &basic.expiration {
                    details.expiration_return_address = Some(condition.return_address);
                    details.expiration = Some(condition.timestamp);
                }
                details.sender = basic.sender;
                details.native_token_count = Some(basic.native_token_count);
            },
            Output::Alias(alias) => {
                details.address = Some(alias.state_controller);
                details.indexed_id = Some(IndexedId::Alias(alias.alias_id));
                details.governor = Some(alias.governor);
                details.sender = alias.sender;
                details.native_token_count = Some(alias.native_token_count);
            },
            Output::Foundry(foundry) => {
                details.address = Some(Address::Alias(foundry.alias));
                details.indexed_id = Some(IndexedId::Foundry(foundry.foundry_id));
                details.native_token_count = Some(foundry.native_token_count);
            },
            Output::Nft(nft) => {
                details.address = Some(nft.address);
                details.indexed_id = Some(IndexedId::Nft(nft.nft_id));
                if let Some(condition) = &nft.storage_deposit_return {
                    details.storage_deposit_return_address = Some(condition.return_address);
                }
                if let Some(condition) = &nft.timelock {
                    details.timelock = Some(condition.timestamp);
                }
                if let Some(condition) = &nft.expiration {
                    details.expiration_return_address = Some(condition.return_address);
                    details.expiration = Some(condition.timestamp);
                }
                details.sender = nft.sender;
                details.native_token_count = Some(nft.native_token_count);
            },
        }
        details
    }
}

/// An output's kind decides whether it carries an identifier for direct
/// lookup, and that identifier is of the output's own kind.
pub proof fn lemma_indexed_id_follows_kind(output: Output)
    ensures
        match OutputDetails::of(output).indexed_id {
            Some(id) => id.output_kind() == output.kind_spec(),
            None => output is Treasury || output is Basic,
        },
{
}

impl OutputDocument {
    /// Whether the document's details are those of its output.
    pub open spec fn wf(self) -> bool {
        self.details == OutputDetails::of(self.output)
    }

    /// The entry that stands for the output in a listing.
    pub open spec fn listed_as(self) -> OutputResult {
        OutputResult { output_id: self.output_id, booked_index: self.metadata.booked.milestone_index }
    }

    /// The entry that stands for the output in a listing.
    pub fn to_result(&self) -> (r: OutputResult)
        ensures
            r == self.listed_as(),
    {
        OutputResult { output_id: self.output_id, booked_index: self.metadata.booked.milestone_index }
    }

    /// The document of an output that was booked by `block_id` at `booked`
    /// and is not spent.
    pub fn unspent(
        output_id: OutputId,
        output: Output,
        block_id: BlockId,
        booked: MilestoneIndexTimestamp,
    ) -> (doc: OutputDocument)
        ensures
            doc.wf(),
            doc.output_id == output_id,
            doc.output == output,
            doc.metadata == (OutputMetadata { block_id, booked, spent_metadata: None }),
    {
        OutputDocument {
            output_id,
            output,
            metadata: OutputMetadata { block_id, booked, spent_metadata: None },
            details: OutputDetails::derive(&output),
        }
    }
}

/// Whether no two of the documents have the same output identifier.
pub open spec fn distinct_ids(docs: Seq<OutputDocument>) -> bool {
    forall|i: int, j: int|
        0 <= i < j < docs.len() ==> (#[trigger] docs[i]).output_id != (#[trigger] docs[j]).output_id
}

/// Whether one of the documents has the given output identifier.
pub open spec fn holds_id(docs: Seq<OutputDocument>, output_id: OutputId) -> bool {
    exists|i: int| 0 <= i < docs.len() && (#[trigger] docs[i]).output_id == output_id
}

impl View for OutputCollection {
    type V = Seq<OutputDocument>;

    /// The stored documents, in the order in which they were stored.
    closed spec fn view(&self) -> Seq<OutputDocument> {
        self.docs@
    }
}

impl OutputCollection {
    /// The collection's invariant: an output identifier is the key of at
    /// most one document, and each document carries the details of its
    /// output.
    pub open spec fn wf(&self) -> bool {
        &&& distinct_ids(self@)
        &&& forall|i: int| 0 <= i < self@.len() ==> (#[trigger] self@[i]).wf()
        &&& self.indexes().no_duplicates()
    }

    /// The secondary indexes of the collection, in the order in which they
    /// were created.
    pub closed spec fn indexes(&self) -> Seq<IndexerIndex> {
        self.indexes@
    }

    /// An empty collection without secondary indexes.
    pub fn new() -> (collection: OutputCollection)
        ensures
            collection.wf(),
            collection@ == Seq::<OutputDocument>::empty(),
            collection.indexes() == Seq::<IndexerIndex>::empty(),
    {
        OutputCollection { docs: Vec::new(), indexes: Vec::new() }
    }

    /// Whether the collection has a secondary index.
    pub fn has_index(&self, index: IndexerIndex) -> (found: bool)
        ensures
            found == self.indexes().contains(index),
    {
        let mut i: usize = 0;
        while i < self.indexes.len()
            invariant
                i <= self.indexes.len(),
                forall|j: int| 0 <= j < i ==> self.indexes@[j] != index,
            decreases self.indexes.len() - i,
        {
            if self.indexes[i] == index {
                return true;
            }
            i += 1;
        }
        false
    }

    /// Creates a secondary index, unless the collection has it already. The
    /// stored documents stay as they are.
    pub fn create_index(&mut self, index: IndexerIndex)
        requires
            old(self).wf(),
        ensures
            final(self).wf(),
            final(self)@ == old(self)@,
            final(self).indexes() == if old(self).indexes().contains(index) {
                old(self).indexes()
            } else {
                old(self).indexes().push(index)
            },
    {
        if !self.has_index(index) {
            self.indexes.push(index);
        }
    }

    /// The number of stored outputs.
    pub fn len(&self) -> (n: usize)
        ensures
            n == self@.len(),
    {
        self.docs.len()
    }

    /// The document at a place of the collection.
    pub fn doc_at(&self, i: usize) -> (doc: &OutputDocument)
        requires
            i < self@.len(),
        ensures
            *doc == self@[i as int],
    {
        &self.docs[i]
    }

    /// The place of the document with the given identifier.
    pub fn position(&self, output_id: &OutputId) -> (found: Option<usize>)
        ensures
            match found {
                Some(i) => i < self@.len() && self@[i as int].output_id == *output_id,
                None => !holds_id(self@, *output_id),
            },
    {
        let mut i: usize = 0;
        while i < self.docs.len()
            invariant
                i <= self.docs.len(),
                forall|j: int| 0 <= j < i ==> (#[trigger] self.docs@[j]).output_id != *output_id,
            decreases self.docs.len() - i,
        {
            if self.docs[i].output_id.same(output_id) {
                return Some(i);
            }
            i += 1;
        }
        None
    }

    /// The stored document of an output.
    pub fn get(&self, output_id: &OutputId) -> (found: Option<&OutputDocument>)
        ensures
            match found {
                Some(doc) => self@.contains(*doc) && doc.output_id == *output_id,
                None => !holds_id(self@, *output_id),
            },
    {
        match self.position(output_id) {
            Some(i) => {
                assert(self@[i as int] == self.docs@[i as int]);
                Some(&self.docs[i])
            },
            None => None,
        }
    }

    /// Stores an output that `block_id` booked at `booked`, unspent, with the
    /// details derived from it. An output whose identifier is stored already
    /// is not stored again.
    pub fn insert_unspent_output(
        &mut self,
        output_id: OutputId,
        output: Output,
        block_id: BlockId,
        booked: MilestoneIndexTimestamp,
    ) -> (inserted: bool)
        requires
            old(self).wf(),
        ensures
            final(self).wf(),
            final(self).indexes() == old(self).indexes(),
            inserted == !holds_id(old(self)@, output_id),
            inserted ==> final(self)@ == old(self)@.push(
                (OutputDocument {
                    output_id,
                    output,
                    metadata: OutputMetadata { block_id, booked, spent_metadata: None },
                    details: OutputDetails::of(output),
                }),
            ),
            !inserted ==> final(self)@ == old(self)@,
    {
        if self.position(&output_id).is_some() {
            return false;
        }
        let doc = OutputDocument::unspent(output_id, output, block_id, booked);
        self.docs.push(doc);
        true
    }

    /// Records that a stored output was spent. The spending of an output is
    /// recorded once: an output that is not stored, or is recorded as spent
    /// already, is left as it is.
    pub fn update_spent_output(&mut self, output_id: &OutputId, spent_metadata: SpentMetadata) -> (updated:
        bool)
        requires
            old(self).wf(),
        ensures
            final(self).wf(),
            final(self).indexes() == old(self).indexes(),
            final(self)@.len() == old(self)@.len(),
            updated == exists|i: int|
                0 <= i < old(self)@.len() && (#[trigger] old(self)@[i]).output_id == *output_id
                    && old(self)@[i].metadata.spent_metadata is None,
            forall|i: int|
                0 <= i < old(self)@.len() ==> #[trigger] final(self)@[i] == (if updated && old(
                    self,
                )@[i].output_id == *output_id {
                    OutputDocument {
                        metadata: OutputMetadata {
                            spent_metadata: Some(spent_metadata),
                            ..old(self)@[i].metadata
                        },
                        ..old(self)@[i]
                    }
                } else {
                    old(self)@[i]
                }),
    {
        match self.position(output_id) {
            Some(i) => {
                if self.docs[i].metadata.spent_metadata.is_some() {
                    return false;
                }
                let mut doc = self.docs[i];
                doc.metadata.spent_metadata = Some(spent_metadata);
                self.docs[i] = doc;
                assert(old(self)@[i as int].output_id == *output_id);
                true
            },
            None => false,
        }
    }
}

} // verus!
