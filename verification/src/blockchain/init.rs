use vstd::prelude::*;
use vstd::string::*;
use crate::blockchain::block::{clone_transactions, Block, BlockView};
use crate::types::blockchain::{contents, ActionType, Transaction, TransactionView};
use crate::types::time::Timestamp;

verus! {

/// The contents of the blocks, in their order.
pub open spec fn block_views(blocks: Seq<Block>) -> Seq<BlockView> {
    blocks.map_values(|b: Block| b@)
}

/// Whether block `i` names the hash of the block before it as its previous hash.
pub open spec fn follows(blocks: Seq<BlockView>, i: int) -> bool {
    blocks[i - 1].hash == Some(blocks[i].prev_hash)
}

/// Whether the blocks form a chain: there is a genesis block, whose previous hash is `0`;
/// each block has its place in the sequence as its index and is sealed; and each block
/// but the first follows the block before it.
pub open spec fn linked(blocks: Seq<BlockView>) -> bool {
    &&& blocks.len() >= 1
    &&& blocks[0].prev_hash == "0"@
    &&& forall|i: int| 0 <= i < blocks.len() ==> (#[trigger] blocks[i]).index == i
    &&& forall|i: int| 0 <= i < blocks.len() ==> (#[trigger] blocks[i]).is_sealed()
    &&& forall|i: int| 1 <= i < blocks.len() ==> #[trigger] follows(blocks, i)
}

/// The transactions that the blocks hold, block after block.
pub open spec fn sealed_transactions(blocks: Seq<BlockView>) -> Seq<TransactionView>
    decreases blocks.len(),
{
    if blocks.len() == 0 {
        Seq::empty()
    } else {
        sealed_transactions(blocks.drop_last()) + blocks.last().transactions
    }
}

/// How many of the transactions ask for `action`.
pub open spec fn votes(transactions: Seq<TransactionView>, action: ActionType) -> nat {
    transactions.filter(|t: TransactionView| t.action_type == action).len()
}

/// The number that the votes are measured against: the connected peers without the
/// proposer, and never less than one.
pub open spec fn electorate(connection_len: u32) -> int {
    if connection_len > 1 {
        connection_len - 1
    } else {
        1
    }
}

/// Whether `count` votes are two thirds or more of `electorate`.
pub open spec fn is_super_majority(count: nat, electorate: int) -> bool {
    3 * count >= 2 * electorate
}

/// The verdict that the pending transactions give with `connection_len` peers connected:
/// `VoteAccept` where the accepting votes are a super-majority, else `VoteReject` where
/// the rejecting votes are one, else none. Where both are, acceptance wins.
pub open spec fn verdict(pending: Seq<TransactionView>, connection_len: u32) -> Option<
    ActionType,
> {
    if is_super_majority(votes(pending, ActionType::VoteAccept), electorate(connection_len)) {
        Some(ActionType::VoteAccept)
    } else if is_super_majority(
        votes(pending, ActionType::VoteReject),
        electorate(connection_len),
    ) {
        Some(ActionType::VoteReject)
    } else {
        None
    }
}

/// The ledger: the chain of sealed blocks, the transactions that wait for the next block,
/// and those that a block has taken.
#[derive(Debug, PartialEq, Eq)]
pub struct Blockchain {
    blocks: Vec<Block>,
    current_transactions: Vec<Transaction>,
    archieved_transactions: Vec<Transaction>,
}

/// The content of a `Blockchain`.
pub struct BlockchainView {
    pub blocks: Seq<BlockView>,
    pub current_transactions: Seq<TransactionView>,
    pub archieved_transactions: Seq<TransactionView>,
}

impl BlockchainView {
    /// Whether the ledger is well formed: its blocks form a chain, and its archive holds
    /// the transactions of the blocks, block after block, and no others.
    pub open spec fn wf(self) -> bool {
        &&& linked(self.blocks)
        &&& self.archieved_transactions == sealed_transactions(self.blocks)
    }

    /// The ledger of a node that has just started, at `timestamp`.
    pub open spec fn genesis(timestamp: Timestamp) -> BlockchainView {
        BlockchainView {
            blocks: seq![BlockView::genesis(timestamp)],
            current_transactions: Seq::empty(),
            archieved_transactions: Seq::empty(),
        }
    }

    /// The block that sealing at `timestamp` appends: it follows the last block and holds
    /// every pending transaction.
    pub open spec fn next_block(self, timestamp: Timestamp) -> BlockView {
        BlockView::sealed(
            self.blocks.len() as u32,
            self.blocks.last().hash.unwrap(),
            self.current_transactions,
            timestamp,
        )
    }

    /// The ledger after sealing at `timestamp`: the next block is appended, the pending
    /// transactions have moved behind those already archived, and none is pending.
    pub open spec fn seal(self, timestamp: Timestamp) -> BlockchainView {
        BlockchainView {
            blocks: self.blocks.push(self.next_block(timestamp)),
            current_transactions: Seq::empty(),
            archieved_transactions: self.archieved_transactions + self.current_transactions,
        }
    }

    /// The ledger with `transaction` behind the pending ones.
    pub open spec fn with_pending(self, transaction: TransactionView) -> BlockchainView {
        BlockchainView {
            current_transactions: self.current_transactions.push(transaction),
            ..self
        }
    }
}

impl View for Blockchain {
    type V = BlockchainView;

    closed spec fn view(&self) -> BlockchainView {
        BlockchainView {
            blocks: block_views(self.blocks@),
            current_transactions: contents(self.current_transactions@),
            archieved_transactions: contents(self.archieved_transactions@),
        }
    }
}

impl Clone for Blockchain {
    fn clone(&self) -> (r: Self)
        ensures
            r@ == self@,
    {
        let mut blocks: Vec<Block> = Vec::new();
        let mut i: usize = 0;
        while i < self.blocks.len()
            invariant
                i <= self.blocks.len(),
                block_views(blocks@) == block_views(self.blocks@).take(i as int),
            decreases self.blocks.len() - i,
        {
            let ghost done = block_views(blocks@);
            blocks.push(self.blocks[i].clone());
            assert(block_views(blocks@) =~= done.push(self.blocks@[i as int]@));
            assert(block_views(self.blocks@).take(i + 1) =~= block_views(self.blocks@).take(
                i as int,
            ).push(self.blocks@[i as int]@));
            i = i + 1;
        }
        assert(block_views(self.blocks@).take(i as int) =~= block_views(self.blocks@));
        Blockchain {
            blocks,
            current_transactions: clone_transactions(&self.current_transactions),
            archieved_transactions: clone_transactions(&self.archieved_transactions),
        }
    }
}

impl Blockchain {
    /// Whether the ledger is well formed: see `BlockchainView::wf`. Every ledger that this
    /// library hands out is.
    pub open spec fn wf(&self) -> bool {
        self@.wf()
    }

    /// A ledger that holds the genesis block alone, made now.
    pub fn init() -> (r: Blockchain)
        ensures
            r@ == BlockchainView::genesis(r@.blocks[0].timestamp),
            r.wf(),
    {
        let now = Timestamp::now();
        Blockchain::init_at(now)
    }

    /// A ledger that holds the genesis block alone, made at `timestamp`.
    pub fn init_at(timestamp: Timestamp) -> (r: Blockchain)
        ensures
            r@ == BlockchainView::genesis(timestamp),
            r.wf(),
    {
        let genesis_block = Block::init_at(timestamp);
        let mut blocks: Vec<Block> = Vec::new();
        blocks.push(genesis_block);
        assert(block_views(blocks@) =~= seq![BlockView::genesis(timestamp)]);
        let current_transactions: Vec<Transaction> = Vec::new();
        let archieved_transactions: Vec<Transaction> = Vec::new();
        assert(contents(current_transactions@) =~= Seq::empty());
        assert(contents(archieved_transactions@) =~= Seq::empty());
        proof {
            let chain = seq![BlockView::genesis(timestamp)];
            assert(sealed_transactions(chain.drop_last()) =~= Seq::empty());
            assert(chain.last().transactions =~= Seq::empty());
            assert(sealed_transactions(chain) =~= Seq::empty());
        }
        Blockchain { blocks, current_transactions, archieved_transactions }
    }

    /// The blocks of the chain, from the genesis block on.
    pub fn blocks(&self) -> (r: &Vec<Block>)
        ensures
            block_views(r@) == self@.blocks,
    {
        &self.blocks
    }

    /// The transactions that wait for the next block, oldest first.
    pub fn current_transactions(&self) -> (r: &Vec<Transaction>)
        ensures
            contents(r@) == self@.current_transactions,
    {
        &self.current_transactions
    }

    /// The transactions that blocks have taken, oldest first.
    pub fn archieved_transactions(&self) -> (r: &Vec<Transaction>)
        ensures
            contents(r@) == self@.archieved_transactions,
    {
        &self.archieved_transactions
    }

    /// Puts `transaction` behind the pending ones.
    pub fn add_transaction(&mut self, transaction: Transaction)
        ensures
            final(self)@ == old(self)@.with_pending(transaction@),
    {
        self.current_transactions.push(transaction);
        assert(contents(self.current_transactions@) =~= contents(
            old(self).current_transactions@,
        ).push(transaction@));
    }

    /// Seals a block now: see `add_new_block_at`.
    pub fn add_new_block(&mut self) -> (r: Block)
        requires
            old(self).wf(),
            old(self)@.blocks.len() <= u32::MAX,
        ensures
            final(self)@ == old(self)@.seal(r.timestamp),
            r@ == old(self)@.next_block(r.timestamp),
            final(self).wf(),
    {
        let now = Timestamp::now();
        self.add_new_block_at(now)
    }

    /// Seals a block at `timestamp`. The block follows the last one, holds every pending
    /// transaction and is appended to the chain; the pending transactions move to the
    /// archive. The sealed block is returned.
    pub fn add_new_block_at(&mut self, timestamp: Timestamp) -> (r: Block)
        requires
            old(self).wf(),
            old(self)@.blocks.len() <= u32::MAX,
        ensures
            final(self)@ == old(self)@.seal(timestamp),
            r@ == old(self)@.next_block(timestamp),
            final(self).wf(),
    {
        let last = &self.blocks[self.blocks.len() - 1];
        assert(last@ == self@.blocks.last());
        let index: u32 = last.index + 1;
        let prev_hash = match &last.hash {
            Some(hash) => hash.clone(),
            None => String::from_str("0"),
        };
        let mut pending: Vec<Transaction> = Vec::new();
        core::mem::swap(&mut pending, &mut self.current_transactions);
        let mut block = Block::new_at(index, prev_hash, clone_transactions(&pending), timestamp);
        block.seal();
        let sealed = block.clone();
        self.blocks.push(block);
        self.archieved_transactions.append(&mut pending);
        proof {
            let before = old(self)@;
            assert(contents(self.current_transactions@) =~= Seq::empty());
            assert(contents(self.archieved_transactions@) =~= before.archieved_transactions
                + before.current_transactions);
            assert(block_views(self.blocks@) =~= before.blocks.push(before.next_block(timestamp)));
            assert(self@ == before.seal(timestamp));
            lemma_seal_keeps_chain(before, timestamp);
        }
        sealed
    }

    /// The last block of the chain, or `None` where the chain is empty. A well-formed
    /// chain never is.
    pub fn get_last_block(&self) -> (r: Option<Block>)
        ensures
            r is None <==> self@.blocks.len() == 0,
            r matches Some(block) ==> block@ == self@.blocks.last(),
            self.wf() ==> r is Some,
    {
        if self.blocks.len() == 0 {
            return None;
        }
        let last = &self.blocks[self.blocks.len() - 1];
        assert(last@ == self@.blocks.last());
        Some(last.clone())
    }

    /// The blocks that were made strictly later than `timestamp`, in the order of the chain.
    pub fn get_blockchain_after_timestamp(&self, timestamp: Timestamp) -> (r: Vec<Block>)
        ensures
            block_views(r@) == self@.blocks.filter(
                |b: BlockView| b.timestamp.later_than(timestamp),
            ),
    {
        let ghost later = |b: BlockView| b.timestamp.later_than(timestamp);
        let mut r: Vec<Block> = Vec::new();
        let mut i: usize = 0;
        proof {
            reveal(Seq::filter);
            assert(self@.blocks.take(0) =~= Seq::empty());
            assert(block_views(r@) =~= Seq::empty());
        }
        while i < self.blocks.len()
            invariant
                i <= self.blocks.len(),
                later == |b: BlockView| b.timestamp.later_than(timestamp),
                block_views(r@) == self@.blocks.take(i as int).filter(later),
            decreases self.blocks.len() - i,
        {
            let ghost done = self@.blocks.take(i as int);
            let ghost next = self@.blocks.take(i + 1);
            proof {
                reveal(Seq::filter);
                assert(next.drop_last() =~= done);
                assert(next.last() == self.blocks@[i as int]@);
            }
            let block = &self.blocks[i];
            if block.timestamp.is_after(&timestamp) {
                let ghost old_r = block_views(r@);
                r.push(block.clone());
                assert(block_views(r@) =~= old_r.push(block@));
            }
            i = i + 1;
        }
        assert(self@.blocks.take(i as int) =~= self@.blocks);
        r
    }

    /// The verdict on the pending transactions with `connection_len` peers connected.
    pub fn proof_of_work(&self, connection_len: u32) -> (r: Option<ActionType>)
        ensures
            r == verdict(self@.current_transactions, connection_len),
    {
        tally(&self.current_transactions, connection_len)
    }
}

/// Counts the transactions that ask for `action`.
fn count_votes(transactions: &Vec<Transaction>, action: ActionType) -> (r: usize)
    ensures
        r == votes(contents(transactions@), action),
{
    let ghost wanted = |t: TransactionView| t.action_type == action;
    let mut r: usize = 0;
    let mut i: usize = 0;
    proof {
        reveal(Seq::filter);
        assert(contents(transactions@).take(0) =~= Seq::empty());
    }
    while i < transactions.len()
        invariant
            i <= transactions.len(),
            r <= i,
            wanted == |t: TransactionView| t.action_type == action,
            r == contents(transactions@).take(i as int).filter(wanted).len(),
        decreases transactions.len() - i,
    {
        let ghost done = contents(transactions@).take(i as int);
        let ghost next = contents(transactions@).take(i + 1);
        proof {
            reveal(Seq::filter);
            assert(next.drop_last() =~= done);
            assert(next.last() == transactions@[i as int]@);
        }
        if transactions[i].action_type == action {
            r = r + 1;
        }
        i = i + 1;
    }
    assert(contents(transactions@).take(i as int) =~= contents(transactions@));
    r
}

/// The verdict that `pending` gives with `connection_len` peers connected.
pub fn tally(pending: &Vec<Transaction>, connection_len: u32) -> (r: Option<ActionType>)
    ensures
        r == verdict(contents(pending@), connection_len),
{
    let accept_votes = count_votes(pending, ActionType::VoteAccept);
    let reject_votes = count_votes(pending, ActionType::VoteReject);
    let electorate: u128 = if connection_len > 1 {
        (connection_len - 1) as u128
    } else {
        1
    };
    if 3 * (accept_votes as u128) >= 2 * electorate {
        Some(ActionType::VoteAccept)
    } else if 3 * (reject_votes as u128) >= 2 * electorate {
        Some(ActionType::VoteReject)
    } else {
        None
    }
}

/// Sealing keeps the ledger well formed: the appended block has the next index, follows
/// the block before it and is sealed, and its transactions are those that join the
/// archive.
pub proof fn lemma_seal_keeps_chain(ledger: BlockchainView, timestamp: Timestamp)
    requires
        ledger.wf(),
        ledger.blocks.len() <= u32::MAX,
    ensures
        ledger.seal(timestamp).wf(),
{
    let before = ledger.blocks;
    let after = ledger.seal(timestamp).blocks;
    let n = before.len() as int;
    assert(before[n - 1].is_sealed());
    assert(after[0] == before[0]);
    assert forall|i: int| 0 <= i < after.len() implies (#[trigger] after[i]).index == i by {
        if i < n {
            assert(after[i] == before[i]);
        }
    }
    assert forall|i: int| 0 <= i < after.len() implies (#[trigger] after[i]).is_sealed() by {
        if i < n {
            assert(after[i] == before[i]);
        }
    }
    assert forall|i: int| 1 <= i < after.len() implies #[trigger] follows(after, i) by {
        if i < n {
            assert(follows(before, i));
        }
    }
    assert(after.drop_last() =~= before);
}

/// In a chain, every block but the first names the hash of the block before it as its
/// previous hash, and every block has its place in the chain as its index.
pub proof fn lemma_chain_is_linked(blocks: Seq<BlockView>, i: int)
    requires
        linked(blocks),
        0 <= i < blocks.len(),
    ensures
        blocks[i].index == i,
        i >= 1 ==> blocks[i - 1].hash == Some(blocks[i].prev_hash),
{
    if i >= 1 {
        assert(follows(blocks, i));
    }
}

} // verus!
