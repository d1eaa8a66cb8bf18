//! The secondary indexes that the indexer keeps on the outputs. They make
//! lookups fast; no answer depends on them.

use vstd::prelude::*;

verus! {

/// One of the indexer's secondary indexes.
#[derive(Clone, Copy, Debug, PartialEq, Eq, Structural)]
pub enum IndexerIndex {
    OutputKind,
    IndexedId,
    OwningAddress,
    StorageDepositReturnAddress,
    TimelockTimestamp,
    ExpirationReturnAddress,
    ExpirationTimestamp,
    GovernorAddress,
    Features,
    NativeTokens,
    BookedMilestoneIndex,
    SpentMilestoneIndex,
    BookedMilestoneTimestamp,
    SpentMilestoneTimestamp,
}

/// One key of an index: the path of a field, and the direction in which the
/// index runs over it.
#[derive(Clone, Copy, Debug, PartialEq, Eq)]
pub struct IndexKey {
    pub field: &'static str,
    pub ascending: bool,
}

impl IndexKey {
    /// The key as a pair of the field's path and the direction.
    pub open spec fn pair(self) -> (Seq<char>, bool) {
        (self.field@, self.ascending)
    }
}

impl IndexerIndex {
    /// The indexer's indexes, in the order in which they are created.
    pub open spec fn all_spec() -> Seq<IndexerIndex> {
        seq![
            IndexerIndex::OutputKind,
            IndexerIndex::IndexedId,
            IndexerIndex::OwningAddress,
            IndexerIndex::StorageDepositReturnAddress,
            IndexerIndex::TimelockTimestamp,
            IndexerIndex::ExpirationReturnAddress,
            IndexerIndex::ExpirationTimestamp,
            IndexerIndex::GovernorAddress,
            IndexerIndex::Features,
            IndexerIndex::NativeTokens,
            IndexerIndex::BookedMilestoneIndex,
            IndexerIndex::SpentMilestoneIndex,
            IndexerIndex::BookedMilestoneTimestamp,
            IndexerIndex::SpentMilestoneTimestamp,
        ]
    }

    /// The name under which the index is created.
    pub open spec fn name_spec(self) -> Seq<char> {
        match self {
            IndexerIndex::OutputKind => "output_kind_index"@,
            IndexerIndex::IndexedId => "output_indexed_id_index"@,
            IndexerIndex::OwningAddress => "output_owning_address_index"@,
            IndexerIndex::StorageDepositReturnAddress =>
                "output_storage_deposit_return_unlock_return_address_index"@,
            IndexerIndex::TimelockTimestamp => "output_timelock_unlock_timestamp_index"@,
            IndexerIndex::ExpirationReturnAddress =>
                "output_expiration_unlock_return_address_index"@,
            IndexerIndex::ExpirationTimestamp => "output_expiration_unlock_timestamp_index"@,
            IndexerIndex::GovernorAddress => "output_governor_address_unlock_address_index"@,
            IndexerIndex::Features => "output_feature_index"@,
            IndexerIndex::NativeTokens => "output_native_tokens_index"@,
            IndexerIndex::BookedMilestoneIndex => "output_booked_milestone_index"@,
            IndexerIndex::SpentMilestoneIndex => "output_spent_milestone_index_comp"@,
            IndexerIndex::BookedMilestoneTimestamp => "output_booked_milestone_timestamp"@,
            IndexerIndex::SpentMilestoneTimestamp => "output_spent_milestone_timestamp"@,
        }
    }

    /// The keys of the index, the leading key first.
    pub open spec fn keys_spec(self) -> Seq<(Seq<char>, bool)> {
        match self {
            IndexerIndex::OutputKind => seq![("output.kind"@, true)],
            IndexerIndex::IndexedId => seq![("details.indexed_id"@, true)],
            IndexerIndex::OwningAddress => seq![("details.address"@, true)],
            IndexerIndex::StorageDepositReturnAddress => seq![
                ("output.storage_deposit_return_unlock_condition.return_address"@, true),
            ],
            IndexerIndex::TimelockTimestamp => seq![
                ("output.timelock_unlock_condition.timestamp"@, true),
            ],
            IndexerIndex::ExpirationReturnAddress => seq![
                ("output.expiration_unlock_condition.return_address"@, true),
            ],
            IndexerIndex::ExpirationTimestamp => seq![
                ("output.expiration_unlock_condition.timestamp"@, true),
            ],
            IndexerIndex::GovernorAddress => seq![
                ("output.governor_address_unlock_condition.address"@, true),
            ],
            IndexerIndex::Features => seq![("output.features"@, true)],
            IndexerIndex::NativeTokens => seq![("output.native_tokens"@, true)],
            IndexerIndex::BookedMilestoneIndex => seq![("metadata.booked.milestone_index"@, false)],
            IndexerIndex::SpentMilestoneIndex => seq![
                ("metadata.spent_metadata.spent.milestone_index"@, false),
                ("metadata.booked.milestone_index"@, true),
                ("details.address"@, true),
            ],
            IndexerIndex::BookedMilestoneTimestamp => seq![
                ("metadata.booked.milestone_timestamp"@, false),
            ],
            IndexerIndex::SpentMilestoneTimestamp => seq![
                ("metadata.spent_metadata.spent.milestone_timestamp"@, false),
            ],
        }
    }

    /// The field that a document must have to be in the index, where the
    /// index is kept on such documents only.
    pub open spec fn partial_filter_spec(self) -> Option<Seq<char>> {
        match self {
            IndexerIndex::IndexedId => Some("details.indexed_id"@),
            IndexerIndex::OwningAddress => Some("details.address"@),
            IndexerIndex::StorageDepositReturnAddress => Some(
                "output.storage_deposit_return_unlock_condition"@,
            ),
            IndexerIndex::TimelockTimestamp => Some("output.timelock_unlock_condition"@),
            IndexerIndex::ExpirationReturnAddress => Some("output.expiration_unlock_condition"@),
            IndexerIndex::ExpirationTimestamp => Some("output.expiration_unlock_condition"@),
            IndexerIndex::GovernorAddress => Some("output.governor_address_unlock_condition"@),
            _ => None,
        }
    }

    /// The indexer's indexes, in the order in which they are created.
    pub fn all() -> (all: Vec<IndexerIndex>)
        ensures
            all@ == IndexerIndex::all_spec(),
    {
        let mut all: Vec<IndexerIndex> = Vec::new();
        all.push(IndexerIndex::OutputKind);
        all.push(IndexerIndex::IndexedId);
        all.push(IndexerIndex::OwningAddress);
        all.push(IndexerIndex::StorageDepositReturnAddress);
        all.push(IndexerIndex::TimelockTimestamp);
        all.push(IndexerIndex::ExpirationReturnAddress);
        all.push(IndexerIndex::ExpirationTimestamp);
        all.push(IndexerIndex::GovernorAddress);
        all.push(IndexerIndex::Features);
        all.push(IndexerIndex::NativeTokens);
        all.push(IndexerIndex::BookedMilestoneIndex);
        all.push(IndexerIndex::SpentMilestoneIndex);
        all.push(IndexerIndex::BookedMilestoneTimestamp);
        all.push(IndexerIndex::SpentMilestoneTimestamp);
        assert(all@ =~= IndexerIndex::all_spec());
        all
    }

    /// The name under which the index is created.
    pub fn name(&self) -> (name: &'static str)
        ensures
            name@ == self.name_spec(),
    {
        match self {
            IndexerIndex::OutputKind => "output_kind_index",
            IndexerIndex::IndexedId => "output_indexed_id_index",
            IndexerIndex::OwningAddress => "output_owning_address_index",
            IndexerIndex::StorageDepositReturnAddress =>
                "output_storage_deposit_return_unlock_return_address_index",
            IndexerIndex::TimelockTimestamp => "output_timelock_unlock_timestamp_index",
            IndexerIndex::ExpirationReturnAddress => "output_expiration_unlock_return_address_index",
            IndexerIndex::ExpirationTimestamp => "output_expiration_unlock_timestamp_index",
            IndexerIndex::GovernorAddress => "output_governor_address_unlock_address_index",
            IndexerIndex::Features => "output_feature_index",
            IndexerIndex::NativeTokens => "output_native_tokens_index",
            IndexerIndex::BookedMilestoneIndex => "output_booked_milestone_index",
            IndexerIndex::SpentMilestoneIndex => "output_spent_milestone_index_comp",
            IndexerIndex::BookedMilestoneTimestamp => "output_booked_milestone_timestamp",
            IndexerIndex::SpentMilestoneTimestamp => "output_spent_milestone_timestamp",
        }
    }

    /// The keys of the index, the leading key first.
    pub fn keys(&self) -> (keys: Vec<IndexKey>)
        ensures
            keys@.map_values(|key: IndexKey| key.pair()) == self.keys_spec(),
    {
        let mut keys: Vec<IndexKey> = Vec::new();
        match self {
            IndexerIndex::OutputKind => {
                keys.push(IndexKey { field: "output.kind", ascending: true });
            },
            IndexerIndex::IndexedId => {
                keys.push(IndexKey { field: "details.indexed_id", ascending: true });
            },
            IndexerIndex::OwningAddress => {
                keys.push(IndexKey { field: "details.address", ascending: true });
            },
            IndexerIndex::StorageDepositReturnAddress => {
                keys.push(
                    IndexKey {
                        field: "output.storage_deposit_return_unlock_condition.return_address",
                        ascending: true,
                    },
                );
            },
            IndexerIndex::TimelockTimestamp => {
                keys.push(
                    IndexKey { field: "output.timelock_unlock_condition.timestamp", ascending: true },
                );
            },
            IndexerIndex::ExpirationReturnAddress => {
                keys.push(
                    IndexKey {
                        field: "output.expiration_unlock_condition.return_address",
                        ascending: true,
                    },
                );
            },
            IndexerIndex::ExpirationTimestamp => {
                keys.push(
                    IndexKey { field: "output.expiration_unlock_condition.timestamp", ascending: true },
                );
            },
            IndexerIndex::GovernorAddress => {
                keys.push(
                    IndexKey {
                        field: "output.governor_address_unlock_condition.address",
                        ascending: true,
                    },
                );
            },
            IndexerIndex::Features => {
                keys.push(IndexKey { field: "output.features", ascending: true });
            },
            IndexerIndex::NativeTokens => {
                keys.push(IndexKey { field: "output.native_tokens", ascending: true });
            },
            IndexerIndex::BookedMilestoneIndex => {
                keys.push(IndexKey { field: "metadata.booked.milestone_index", ascending: false });
            },
            IndexerIndex::SpentMilestoneIndex => {
                keys.push(
                    IndexKey {
                        field: "metadata.spent_metadata.spent.milestone_index",
                        ascending: false,
                    },
                );
                keys.push(IndexKey { field: "metadata.booked.milestone_index", ascending: true });
                keys.push(IndexKey { field: "details.address", ascending: true });
            },
            IndexerIndex::BookedMilestoneTimestamp => {
                keys.push(IndexKey { field: "metadata.booked.milestone_timestamp", ascending: false });
            },
            IndexerIndex::SpentMilestoneTimestamp => {
                keys.push(
                    IndexKey {
                        field: "metadata.spent_metadata.spent.milestone_timestamp",
                        ascending: false,
                    },
                );
            },
        }
        assert(keys@.map_values(|key: IndexKey| key.pair()) =~= self.keys_spec());
        keys
    }

    /// The field that a document must have to be in the index, where the
    /// index is kept on such documents only.
    pub fn partial_filter(&self) -> (field: Option<&'static str>)
        ensures
            match field {
                Some(path) => self.partial_filter_spec() == Some(path@),
                None => self.partial_filter_spec() is None,
            },
    {
        match self {
            IndexerIndex::IndexedId => Some("details.indexed_id"),
            IndexerIndex::OwningAddress => Some("details.address"),
            IndexerIndex::StorageDepositReturnAddress => Some(
                "output.storage_deposit_return_unlock_condition",
            ),
            IndexerIndex::TimelockTimestamp => Some("output.timelock_unlock_condition"),
            IndexerIndex::ExpirationReturnAddress => Some("output.expiration_unlock_condition"),
            IndexerIndex::ExpirationTimestamp => Some("output.expiration_unlock_condition"),
            IndexerIndex::GovernorAddress => Some("output.governor_address_unlock_condition"),
            _ => None,
        }
    }
}

/// Each of the indexer's indexes is in the list of all of them, once.
pub proof fn lemma_all_indexes(index: IndexerIndex)
    ensures
        IndexerIndex::all_spec().contains(index),
        IndexerIndex::all_spec().no_duplicates(),
{
    let all = IndexerIndex::all_spec();
    let at: int = match index {
        IndexerIndex::OutputKind => 0,
        IndexerIndex::IndexedId => 1,
        IndexerIndex::OwningAddress => 2,
        IndexerIndex::StorageDepositReturnAddress => 3,
        IndexerIndex::TimelockTimestamp => 4,
        IndexerIndex::ExpirationReturnAddress => 5,
        IndexerIndex::ExpirationTimestamp => 6,
        IndexerIndex::GovernorAddress => 7,
        IndexerIndex::Features => 8,
        IndexerIndex::NativeTokens => 9,
        IndexerIndex::BookedMilestoneIndex => 10,
        IndexerIndex::SpentMilestoneIndex => 11,
        IndexerIndex::BookedMilestoneTimestamp => 12,
        IndexerIndex::SpentMilestoneTimestamp => 13,
    };
    assert(all[at] == index);
}

} // verus!
