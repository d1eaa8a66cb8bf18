//! Identifiers of the ledger's objects: opaque byte strings of a fixed width,
//! compared byte by byte.

use vstd::prelude::*;
use vstd::string::StringSliceAdditionalSpecFns;
use crate::model::bytes::{bytes_equal, bytes_less, bytes_lt};
use crate::model::hex::{from_hex, parsed_hex, prefixed_hex, to_hex, HexError};

verus! {

/// The identifier of a block.
#[derive(Clone, Copy, Debug, PartialEq, Eq)]
pub struct BlockId(pub [u8; 32]);

/// The identifier of a transaction.
#[derive(Clone, Copy, Debug, PartialEq, Eq)]
pub struct TransactionId(pub [u8; 32]);

/// The identifier of a milestone.
#[derive(Clone, Copy, Debug, PartialEq, Eq)]
pub struct MilestoneId(pub [u8; 32]);

/// The identifier of an output: the identifier of the transaction that
/// created it, followed by the output's position in that transaction.
#[derive(Clone, Copy, Debug, PartialEq, Eq)]
pub struct OutputId(pub [u8; 34]);

/// The identifier of an alias.
#[derive(Clone, Copy, Debug, PartialEq, Eq)]
pub struct AliasId(pub [u8; 32]);

/// The identifier of a foundry.
#[derive(Clone, Copy, Debug, PartialEq, Eq)]
pub struct FoundryId(pub [u8; 38]);

/// The identifier of an NFT.
#[derive(Clone, Copy, Debug, PartialEq, Eq)]
pub struct NftId(pub [u8; 32]);

/// The address that owns an output.
#[derive(Clone, Copy, Debug, PartialEq, Eq)]
pub enum Address {
    Ed25519([u8; 32]),
    Alias(AliasId),
    Nft(NftId),
}

impl View for BlockId {
    type V = Seq<u8>;

    open spec fn view(&self) -> Seq<u8> {
        self.0@
    }
}

impl View for TransactionId {
    type V = Seq<u8>;

    open spec fn view(&self) -> Seq<u8> {
        self.0@
    }
}

impl View for MilestoneId {
    type V = Seq<u8>;

    open spec fn view(&self) -> Seq<u8> {
        self.0@
    }
}

impl View for OutputId {
    type V = Seq<u8>;

    open spec fn view(&self) -> Seq<u8> {
        self.0@
    }
}

impl View for AliasId {
    type V = Seq<u8>;

    open spec fn view(&self) -> Seq<u8> {
        self.0@
    }
}

impl View for FoundryId {
    type V = Seq<u8>;

    open spec fn view(&self) -> Seq<u8> {
        self.0@
    }
}

impl View for NftId {
    type V = Seq<u8>;

    open spec fn view(&self) -> Seq<u8> {
        self.0@
    }
}

/// Two arrays with the same bytes are the same array.
pub proof fn lemma_array_eq<const N: usize>(a: [u8; N], b: [u8; N])
    ensures
        (a@ == b@) == (a == b),
{
    if a@ == b@ {
        assert(a =~= b);
    }
}

/// The array of the first 32 bytes of a byte string.
fn array_of_32(bytes: &Vec<u8>) -> (array: [u8; 32])
    requires
        bytes@.len() >= 32,
    ensures
        array@ == bytes@.take(32),
{
    let mut array = [0u8;32];
    let mut i: usize = 0;
    while i < 32
        invariant
            i <= 32,
            bytes@.len() >= 32,
            forall|j: int| 0 <= j < i ==> array@[j] == bytes@[j],
        decreases 32 - i,
    {
        array[i] = bytes[i];
        i += 1;
    }
    assert(array@ =~= bytes@.take(32));
    array
}

impl BlockId {
    /// The identifier in its hexadecimal form.
    pub fn to_hex(&self) -> (text: String)
        ensures
            text@ == prefixed_hex(self@),
    {
        to_hex(self.0.as_slice())
    }

    /// Reads an identifier from its hexadecimal form.
    pub fn from_hex(text: &str) -> (res: Result<BlockId, HexError>)
        ensures
            match res {
                Ok(id) => parsed_hex(text.spec_bytes(), 32) == Ok::<Seq<u8>, HexError>(id@),
                Err(error) => parsed_hex(text.spec_bytes(), 32) == Err::<Seq<u8>, HexError>(error),
            },
    {
        match from_hex(text, 32) {
            Ok(bytes) => {
                assert(bytes@.take(32) == bytes@);
                Ok(BlockId(array_of_32(&bytes)))
            },
            Err(error) => Err(error),
        }
    }
}

impl TransactionId {
    /// The identifier in its hexadecimal form.
    pub fn to_hex(&self) -> (text: String)
        ensures
            text@ == prefixed_hex(self@),
    {
        to_hex(self.0.as_slice())
    }

    /// Reads an identifier from its hexadecimal form.
    pub fn from_hex(text: &str) -> (res: Result<TransactionId, HexError>)
        ensures
            match res {
                Ok(id) => parsed_hex(text.spec_bytes(), 32) == Ok::<Seq<u8>, HexError>(id@),
                Err(error) => parsed_hex(text.spec_bytes(), 32) == Err::<Seq<u8>, HexError>(error),
            },
    {
        match from_hex(text, 32) {
            Ok(bytes) => {
                assert(bytes@.take(32) == bytes@);
                Ok(TransactionId(array_of_32(&bytes)))
            },
            Err(error) => Err(error),
        }
    }
}

impl MilestoneId {
    /// The identifier in its hexadecimal form.
    pub fn to_hex(&self) -> (text: String)
        ensures
            text@ == prefixed_hex(self@),
    {
        to_hex(self.0.as_slice())
    }

    /// Reads an identifier from its hexadecimal form.
    pub fn from_hex(text: &str) -> (res: Result<MilestoneId, HexError>)
        ensures
            match res {
                Ok(id) => parsed_hex(text.spec_bytes(), 32) == Ok::<Seq<u8>, HexError>(id@),
                Err(error) => parsed_hex(text.spec_bytes(), 32) == Err::<Seq<u8>, HexError>(error),
            },
    {
        match from_hex(text, 32) {
            Ok(bytes) => {
                assert(bytes@.take(32) == bytes@);
                Ok(MilestoneId(array_of_32(&bytes)))
            },
            Err(error) => Err(error),
        }
    }
}

impl OutputId {
    /// The bytes of the identifier of the output at place `index` of a
    /// transaction: the bytes of the transaction's identifier, then the
    /// lower and the upper byte of the index.
    pub open spec fn bytes_of(transaction_id: TransactionId, index: u16) -> Seq<u8> {
        transaction_id@ + seq![(index % 256) as u8, (index / 256) as u8]
    }

    /// The identifier of the output at place `index` of a transaction.
    pub fn new(transaction_id: TransactionId, index: u16) -> (id: OutputId)
        ensures
            id@ == OutputId::bytes_of(transaction_id, index),
            id.transaction_bytes() == transaction_id@,
            id.index_spec() == index,
    {
        let mut bytes = [0u8;34];
        let mut i: usize = 0;
        while i < 32
            invariant
                i <= 32,
                forall|j: int| 0 <= j < i ==> bytes@[j] == transaction_id@[j],
            decreases 32 - i,
        {
            bytes[i] = transaction_id.0[i];
            i += 1;
        }
        bytes[32] = (index % 256) as u8;
        bytes[33] = (index / 256) as u8;
        let id = OutputId(bytes);
        proof {
            assert(id@ =~= OutputId::bytes_of(transaction_id, index));
            assert(id@.take(32) =~= transaction_id@);
        }
        id
    }

    /// The bytes of the identifier of the transaction that created the
    /// output: the first 32 bytes of the output's identifier.
    pub open spec fn transaction_bytes(self) -> Seq<u8> {
        self@.take(32)
    }

    /// The place of the output in the transaction that created it.
    pub open spec fn index_spec(self) -> u16 {
        (self@[32] + 256 * self@[33]) as u16
    }

    /// The transaction that created the output.
    pub fn transaction_id(&self) -> (id: TransactionId)
        ensures
            id@ == self.transaction_bytes(),
    {
        let mut bytes = [0u8;32];
        let mut i: usize = 0;
        while i < 32
            invariant
                i <= 32,
                forall|j: int| 0 <= j < i ==> bytes@[j] == self@[j],
            decreases 32 - i,
        {
            bytes[i] = self.0[i];
            i += 1;
        }
        assert(bytes@ =~= self@.take(32));
        TransactionId(bytes)
    }

    /// The place of the output in the transaction that created it.
    pub fn index(&self) -> (index: u16)
        ensures
            index == self.index_spec(),
    {
        let lower: u16 = self.0[32] as u16;
        let upper: u16 = self.0[33] as u16;
        lower + upper * 256
    }

    /// The identifier in its hexadecimal form.
    pub fn to_hex(&self) -> (text: String)
        ensures
            text@ == prefixed_hex(self@),
    {
        to_hex(self.0.as_slice())
    }

    /// Reads an identifier from its hexadecimal form.
    pub fn from_hex(text: &str) -> (res: Result<OutputId, HexError>)
        ensures
            match res {
                Ok(id) => parsed_hex(text.spec_bytes(), 34) == Ok::<Seq<u8>, HexError>(id@),
                Err(error) => parsed_hex(text.spec_bytes(), 34) == Err::<Seq<u8>, HexError>(error),
            },
    {
        match from_hex(text, 34) {
            Ok(bytes) => {
                let transaction_id = TransactionId(array_of_32(&bytes));
                let index: u16 = bytes[32] as u16 + (bytes[33] as u16) * 256;
                let id = OutputId::new(transaction_id, index);
                assert(id@ =~= bytes@);
                Ok(id)
            },
            Err(error) => Err(error),
        }
    }

    /// Whether this is the same identifier as `other`.
    pub fn same(&self, other: &OutputId) -> (r: bool)
        ensures
            r == (*self == *other),
            r == (self@ == other@),
    {
        proof {
            lemma_array_eq(self.0, other.0);
        }
        bytes_equal(self.0.as_slice(), other.0.as_slice())
    }

    /// Whether this identifier comes before `other` in the byte-wise order.
    pub fn less(&self, other: &OutputId) -> (r: bool)
        ensures
            r == bytes_lt(self@, other@),
    {
        bytes_less(self.0.as_slice(), other.0.as_slice())
    }
}

impl AliasId {
    /// Whether this is the same identifier as `other`.
    pub fn same(&self, other: &AliasId) -> (r: bool)
        ensures
            r == (*self == *other),
    {
        proof {
            lemma_array_eq(self.0, other.0);
        }
        bytes_equal(self.0.as_slice(), other.0.as_slice())
    }
}

impl FoundryId {
    /// Whether this is the same identifier as `other`.
    pub fn same(&self, other: &FoundryId) -> (r: bool)
        ensures
            r == (*self == *other),
    {
        proof {
            lemma_array_eq(self.0, other.0);
        }
        bytes_equal(self.0.as_slice(), other.0.as_slice())
    }
}

impl NftId {
    /// Whether this is the same identifier as `other`.
    pub fn same(&self, other: &NftId) -> (r: bool)
        ensures
            r == (*self == *other),
    {
        proof {
            lemma_array_eq(self.0, other.0);
        }
        bytes_equal(self.0.as_slice(), other.0.as_slice())
    }
}

impl Address {
    /// Whether this is the same address as `other`: the same kind with the
    /// same bytes.
    pub fn same(&self, other: &Address) -> (r: bool)
        ensures
            r == (*self == *other),
    {
        match (self, other) {
            (Address::Ed25519(a), Address::Ed25519(b)) => {
                proof {
                    lemma_array_eq(*a, *b);
                }
                bytes_equal(a.as_slice(), b.as_slice())
            },
            (Address::Alias(a), Address::Alias(b)) => a.same(b),
            (Address::Nft(a), Address::Nft(b)) => a.same(b),
            _ => false,
        }
    }
}

} // verus!
