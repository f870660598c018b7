use vstd::prelude::*;
use vstd::string::*;
use crate::types::blockchain::{contents, Transaction, TransactionView};
use crate::types::time::Timestamp;
use crate::utils::hasher::{block_digest, block_hasher, transactions_digest, transactions_hasher};

verus! {

/// One block of the ledger. `hash` and `merkle_root` are `None` until the block is sealed.
#[derive(Debug, PartialEq, Eq)]
pub struct Block {
    pub index: u32,
    pub prev_hash: String,
    pub hash: Option<String>,
    pub timestamp: Timestamp,
    pub transactions: Vec<Transaction>,
    pub merkle_root: Option<String>,
}

/// The content of a `Block`.
pub struct BlockView {
    pub index: u32,
    pub prev_hash: Seq<char>,
    pub hash: Option<Seq<char>>,
    pub timestamp: Timestamp,
    pub transactions: Seq<TransactionView>,
    pub merkle_root: Option<Seq<char>>,
}

impl BlockView {
    /// A block that was just made: the given fields, and neither hash nor digest yet.
    pub open spec fn unsealed(
        index: u32,
        prev_hash: Seq<char>,
        transactions: Seq<TransactionView>,
        timestamp: Timestamp,
    ) -> BlockView {
        BlockView { index, prev_hash, hash: None, timestamp, transactions, merkle_root: None }
    }

    /// The block after sealing: `hash` is the digest of the block as it stands, and
    /// `merkle_root` the digest of its transactions.
    pub open spec fn seal(self) -> BlockView {
        BlockView {
            hash: Some(block_digest(self)),
            merkle_root: Some(transactions_digest(self.transactions)),
            ..self
        }
    }

    /// A sealed block made of the given fields.
    pub open spec fn sealed(
        index: u32,
        prev_hash: Seq<char>,
        transactions: Seq<TransactionView>,
        timestamp: Timestamp,
    ) -> BlockView {
        BlockView::unsealed(index, prev_hash, transactions, timestamp).seal()
    }

    /// Whether the block is sealed: its hash and its digest are those that sealing gives to
    /// a block with its index, previous hash, transactions and timestamp.
    pub open spec fn is_sealed(self) -> bool {
        self == BlockView::sealed(self.index, self.prev_hash, self.transactions, self.timestamp)
    }

    /// The first block of every chain, made at `timestamp`: index 0, previous hash `0`, no
    /// transactions, sealed.
    pub open spec fn genesis(timestamp: Timestamp) -> BlockView {
        BlockView::sealed(0, "0"@, Seq::empty(), timestamp)
    }
}

impl View for Block {
    type V = BlockView;

    open spec fn view(&self) -> BlockView {
        BlockView {
            index: self.index,
            prev_hash: self.prev_hash@,
            hash: match self.hash {
                Some(h) => Some(h@),
                None => None,
            },
            timestamp: self.timestamp,
            transactions: contents(self.transactions@),
            merkle_root: match self.merkle_root {
                Some(h) => Some(h@),
                None => None,
            },
        }
    }
}

/// A copy of the transactions, in their order.
pub fn clone_transactions(transactions: &Vec<Transaction>) -> (r: Vec<Transaction>)
    ensures
        r@ == transactions@,
{
    let r = transactions.clone();
    assert(r@ =~= transactions@);
    r
}

/// A copy of an optional hash.
fn clone_hash(hash: &Option<String>) -> (r: Option<String>)
    ensures
        r == *hash,
{
    match hash {
        Some(h) => Some(h.clone()),
        None => None,
    }
}

impl Clone for Block {
    fn clone(&self) -> (r: Self)
        ensures
            r@ == self@,
            r.transactions@ == self.transactions@,
    {
        Block {
            index: self.index,
            prev_hash: self.prev_hash.clone(),
            hash: clone_hash(&self.hash),
            timestamp: self.timestamp,
            transactions: clone_transactions(&self.transactions),
            merkle_root: clone_hash(&self.merkle_root),
        }
    }
}

impl Block {
    /// The genesis block, made now.
    pub fn init() -> (r: Block)
        ensures
            r@ == BlockView::genesis(r.timestamp),
    {
        Block::init_at(Timestamp::now())
    }

    /// The genesis block, made at `timestamp`.
    pub fn init_at(timestamp: Timestamp) -> (r: Block)
        ensures
            r@ == BlockView::genesis(timestamp),
    {
        let mut genesis_block = Block::new_at(0, String::from_str("0"), Vec::new(), timestamp);
        assert(genesis_block@.transactions =~= Seq::empty());
        genesis_block.seal();
        genesis_block
    }

    /// An unsealed block with the given fields, made now.
    pub fn new(index: u32, prev_hash: String, current_transaction: Vec<Transaction>) -> (r: Block)
        ensures
            r@ == BlockView::unsealed(
                index,
                prev_hash@,
                contents(current_transaction@),
                r.timestamp,
            ),
            r.transactions == current_transaction,
    {
        Block::new_at(index, prev_hash, current_transaction, Timestamp::now())
    }

    /// An unsealed block with the given fields, made at `timestamp`.
    pub fn new_at(
        index: u32,
        prev_hash: String,
        current_transaction: Vec<Transaction>,
        timestamp: Timestamp,
    ) -> (r: Block)
        ensures
            r@ == BlockView::unsealed(index, prev_hash@, contents(current_transaction@), timestamp),
            r.transactions == current_transaction,
    {
        Block {
            index,
            prev_hash,
            hash: None,
            timestamp,
            transactions: current_transaction,
            merkle_root: None,
        }
    }

    /// Seals the block: sets `hash` to the digest of the block as it stands and
    /// `merkle_root` to the digest of its transactions. A block is sealed once, when its
    /// other fields are final.
    pub fn seal(&mut self)
        requires
            old(self).hash is None,
            old(self).merkle_root is None,
        ensures
            final(self)@ == old(self)@.seal(),
            final(self)@.is_sealed(),
            final(self).transactions == old(self).transactions,
    {
        let hash = block_hasher(self);
        let merkle_root = transactions_hasher(&self.transactions);
        self.hash = Some(hash);
        self.merkle_root = Some(merkle_root);
    }
}

/// The genesis block has index 0, previous hash `0` and no transactions. Its hash and its
/// digest are functions of those fields and of its timestamp alone: the digest of the
/// block before sealing, and the digest of no transactions.
pub proof fn lemma_genesis(timestamp: Timestamp)
    ensures
        BlockView::genesis(timestamp).index == 0,
        BlockView::genesis(timestamp).prev_hash == "0"@,
        BlockView::genesis(timestamp).transactions == Seq::<TransactionView>::empty(),
        BlockView::genesis(timestamp).timestamp == timestamp,
        BlockView::genesis(timestamp).hash == Some(
            block_digest(BlockView::unsealed(0, "0"@, Seq::empty(), timestamp)),
        ),
        BlockView::genesis(timestamp).merkle_root == Some(transactions_digest(Seq::empty())),
        BlockView::genesis(timestamp).is_sealed(),
{
}

} // verus!
