use vstd::prelude::*;
use vstd::string::*;
use vstd::hash_map::StringHashMap;
use crate::blockchain::block::{Block, BlockView};
use crate::blockchain::init::{
    electorate, is_super_majority, lemma_seal_keeps_chain, verdict, votes, Blockchain,
    BlockchainView,
};
use crate::types::blockchain::{
    ActionType, Transaction, TransactionMessage, TransactionMessageView, TransactionView,
};
use crate::types::time::Timestamp;
use crate::utils::text::{is_blank, trim};

verus! {

/// Why a transaction cannot stand as a proposal, or `None` where it can: the first of
/// these that holds. The agent is blank; the reasoning hash is blank; the action is not
/// `ProposeUpdate`; the description is blank.
pub open spec fn proposal_defect(tx: TransactionView) -> Option<Seq<char>> {
    if is_blank(tx.agent_id) {
        Some("Agent ID is empty"@)
    } else if is_blank(tx.reasoning_hash) {
        Some("Reasoning hash is empty"@)
    } else if tx.action_type != ActionType::ProposeUpdate {
        Some("Transaction is not a ProposeUpdate"@)
    } else if is_blank(tx.payload.description) {
        Some("Proposal description is empty"@)
    } else {
        None
    }
}

/// What became of a message that was handed to the node, and what is to be sent on.
#[derive(Debug, PartialEq, Eq)]
pub enum Outcome {
    /// The message did not decode. Nothing changed; nothing is sent.
    Malformed,
    /// The proposal was refused for the reason given. Nothing changed; nothing is sent.
    InvalidProposal(String),
    /// The proposal was registered and is pending. The message is to be sent, unchanged,
    /// to every connected peer.
    Proposed(TransactionMessage),
    /// An agent voted on its own proposal. Nothing changed; nothing is sent.
    SelfVote,
    /// The vote is pending, and no super-majority is reached yet. Nothing is sent.
    Pending,
    /// The vote is pending, and it made a super-majority for rejection. No block is
    /// sealed; nothing is sent.
    Rejected,
    /// The vote made a super-majority for acceptance. The block was sealed from all
    /// pending transactions and is to be sent to every connected peer.
    Sealed(Block),
    /// The action is one that the node only takes note of. Nothing changed; nothing is
    /// sent.
    Noted,
    /// The action is one that the node does not handle. Nothing changed; nothing is sent.
    Ignored,
}

/// The content of an `Outcome`.
pub enum OutcomeView {
    Malformed,
    InvalidProposal(Seq<char>),
    Proposed(TransactionMessageView),
    SelfVote,
    Pending,
    Rejected,
    Sealed(BlockView),
    Noted,
    Ignored,
}

impl View for Outcome {
    type V = OutcomeView;

    open spec fn view(&self) -> OutcomeView {
        match *self {
            Outcome::Malformed => OutcomeView::Malformed,
            Outcome::InvalidProposal(reason) => OutcomeView::InvalidProposal(reason@),
            Outcome::Proposed(message) => OutcomeView::Proposed(message@),
            Outcome::SelfVote => OutcomeView::SelfVote,
            Outcome::Pending => OutcomeView::Pending,
            Outcome::Rejected => OutcomeView::Rejected,
            Outcome::Sealed(block) => OutcomeView::Sealed(block@),
            Outcome::Noted => OutcomeView::Noted,
            Outcome::Ignored => OutcomeView::Ignored,
        }
    }
}

/// The consensus engine of a node: the ledger, and the registry that names for each
/// reasoning hash the agent whose proposal carries it.
pub struct P2PProtocol {
    blockchain: Blockchain,
    proposal_owners: StringHashMap<String>,
}

/// The content of a `P2PProtocol`.
pub struct P2PProtocolView {
    pub blockchain: BlockchainView,
    pub proposal_owners: Map<Seq<char>, Seq<char>>,
}

/// The content of a message that may have failed to decode.
pub open spec fn decoded(message: Option<TransactionMessage>) -> Option<TransactionMessageView> {
    match message {
        Some(m) => Some(m@),
        None => None,
    }
}

impl P2PProtocolView {
    /// Whether the vote `tx` comes from the agent that owns the proposal it votes on.
    pub open spec fn is_self_vote(self, tx: TransactionView) -> bool {
        self.proposal_owners.contains_key(tx.reasoning_hash)
            && self.proposal_owners[tx.reasoning_hash] == tx.agent_id
    }

    /// The engine after a valid proposal: the proposal is pending, and its agent owns its
    /// reasoning hash, whoever owned it before.
    pub open spec fn propose(self, tx: TransactionView) -> P2PProtocolView {
        P2PProtocolView {
            blockchain: self.blockchain.with_pending(tx),
            proposal_owners: self.proposal_owners.insert(tx.reasoning_hash, tx.agent_id),
        }
    }

    /// The engine and the outcome after a vote by an agent that may cast it. The vote
    /// becomes pending. Where the pending transactions then give the verdict `VoteAccept`,
    /// a block is sealed from them at `timestamp`.
    pub open spec fn vote(self, tx: TransactionView, connection_len: u32, timestamp: Timestamp) -> (
        P2PProtocolView,
        OutcomeView,
    ) {
        let recorded = self.blockchain.with_pending(tx);
        match verdict(recorded.current_transactions, connection_len) {
            Some(ActionType::VoteAccept) => (
                P2PProtocolView { blockchain: recorded.seal(timestamp), ..self },
                OutcomeView::Sealed(recorded.next_block(timestamp)),
            ),
            Some(_) => (P2PProtocolView { blockchain: recorded, ..self }, OutcomeView::Rejected),
            None => (P2PProtocolView { blockchain: recorded, ..self }, OutcomeView::Pending),
        }
    }

    /// The engine and the outcome after `message` was handed in with `connection_len` peers
    /// connected, at `timestamp`.
    pub open spec fn handle(
        self,
        message: Option<TransactionMessageView>,
        connection_len: u32,
        timestamp: Timestamp,
    ) -> (P2PProtocolView, OutcomeView) {
        match message {
            None => (self, OutcomeView::Malformed),
            Some(m) => match m.payload.action_type {
                ActionType::ProposeUpdate => match proposal_defect(m.payload) {
                    Some(reason) => (self, OutcomeView::InvalidProposal(reason)),
                    None => (self.propose(m.payload), OutcomeView::Proposed(m)),
                },
                ActionType::VoteAccept | ActionType::VoteReject => if self.is_self_vote(
                    m.payload,
                ) {
                    (self, OutcomeView::SelfVote)
                } else {
                    self.vote(m.payload, connection_len, timestamp)
                },
                ActionType::FlagMalicious | ActionType::FinalizeBlock => (self, OutcomeView::Noted),
                ActionType::EvaluateUpdate => (self, OutcomeView::Ignored),
            },
        }
    }
}

impl View for P2PProtocol {
    type V = P2PProtocolView;

    closed spec fn view(&self) -> P2PProtocolView {
        P2PProtocolView {
            blockchain: self.blockchain@,
            proposal_owners: self.proposal_owners@.map_values(|agent: String| agent@),
        }
    }
}

impl P2PProtocol {
    /// Whether the engine is well formed: its ledger is.
    pub open spec fn wf(&self) -> bool {
        self@.blockchain.wf()
    }

    /// An engine over `blockchain`, with no proposal registered.
    pub fn new(blockchain: Blockchain) -> (r: P2PProtocol)
        ensures
            r@ == (P2PProtocolView { blockchain: blockchain@, proposal_owners: Map::empty() }),
    {
        let proposal_owners: StringHashMap<String> = StringHashMap::new();
        assert(proposal_owners@.map_values(|agent: String| agent@) =~= Map::<
            Seq<char>,
            Seq<char>,
        >::empty());
        P2PProtocol { blockchain, proposal_owners }
    }

    /// The ledger.
    pub fn blockchain(&self) -> (r: &Blockchain)
        ensures
            r@ == self@.blockchain,
    {
        &self.blockchain
    }

    /// The agent that owns the proposal with this reasoning hash, if one is registered.
    pub fn proposal_owner(&self, reasoning_hash: &str) -> (r: Option<&String>)
        ensures
            match r {
                Some(agent) => self@.proposal_owners.contains_key(reasoning_hash@)
                    && self@.proposal_owners[reasoning_hash@] == agent@,
                None => !self@.proposal_owners.contains_key(reasoning_hash@),
            },
    {
        self.proposal_owners.get(reasoning_hash)
    }

    /// Checks that `tx` can stand as a proposal, and says why where it cannot.
    pub fn validate_proposal(tx: &Transaction) -> (r: Result<(), String>)
        ensures
            match r {
                Ok(_) => proposal_defect(tx@) is None,
                Err(reason) => proposal_defect(tx@) == Some(reason@),
            },
    {
        if trim(tx.agent_id.as_str()).is_empty() {
            return Err(String::from_str("Agent ID is empty"));
        }
        if trim(tx.reasoning_hash.as_str()).is_empty() {
            return Err(String::from_str("Reasoning hash is empty"));
        }
        if tx.action_type != ActionType::ProposeUpdate {
            return Err(String::from_str("Transaction is not a ProposeUpdate"));
        }
        if trim(tx.payload.description.as_str()).is_empty() {
            Err(String::from_str("Proposal description is empty"))
        } else {
            Ok(())
        }
    }

    /// Handles one message now: see `handle_transaction_at`.
    pub fn handle_transaction(
        &mut self,
        message: Option<TransactionMessage>,
        connection_len: u32,
    ) -> (r: Outcome)
        requires
            old(self).wf(),
            old(self)@.blockchain.blocks.len() <= u32::MAX,
        ensures
            exists|timestamp: Timestamp|
                (final(self)@, r@) == #[trigger] old(self)@.handle(
                    decoded(message),
                    connection_len,
                    timestamp,
                ),
            final(self).wf(),
    {
        let now = Timestamp::now();
        self.handle_transaction_at(message, connection_len, now)
    }

    /// Handles one message, `None` standing for one that did not decode, with
    /// `connection_len` peers connected, at `timestamp`. The engine and the outcome are
    /// those that `P2PProtocolView::handle` gives, and the ledger stays well formed.
    pub fn handle_transaction_at(
        &mut self,
        message: Option<TransactionMessage>,
        connection_len: u32,
        timestamp: Timestamp,
    ) -> (r: Outcome)
        requires
            old(self).wf(),
            old(self)@.blockchain.blocks.len() <= u32::MAX,
        ensures
            (final(self)@, r@) == old(self)@.handle(decoded(message), connection_len, timestamp),
            final(self).wf(),
    {
        let tx_msg = match message {
            Some(m) => m,
            None => {
                return Outcome::Malformed;
            },
        };
        match tx_msg.payload.action_type {
            ActionType::ProposeUpdate => {
                match P2PProtocol::validate_proposal(&tx_msg.payload) {
                    Err(reason) => Outcome::InvalidProposal(reason),
                    Ok(_) => {
                        self.proposal_owners.insert(
                            tx_msg.payload.reasoning_hash.clone(),
                            tx_msg.payload.agent_id.clone(),
                        );
                        self.blockchain.add_transaction(tx_msg.payload.clone());
                        assert(self@.proposal_owners =~= old(self)@.proposal_owners.insert(
                            tx_msg.payload.reasoning_hash@,
                            tx_msg.payload.agent_id@,
                        ));
                        Outcome::Proposed(tx_msg)
                    },
                }
            },
            ActionType::VoteAccept | ActionType::VoteReject => {
                let own = match self.proposal_owners.get(tx_msg.payload.reasoning_hash.as_str()) {
                    Some(owner) => *owner == tx_msg.payload.agent_id,
                    None => false,
                };
                if own {
                    return Outcome::SelfVote;
                }
                self.blockchain.add_transaction(tx_msg.payload);
                let verdict = self.blockchain.proof_of_work(connection_len);
                match verdict {
                    Some(ActionType::VoteAccept) => {
                        let block = self.blockchain.add_new_block_at(timestamp);
                        Outcome::Sealed(block)
                    },
                    Some(_) => Outcome::Rejected,
                    None => Outcome::Pending,
                }
            },
            ActionType::FlagMalicious | ActionType::FinalizeBlock => Outcome::Noted,
            ActionType::EvaluateUpdate => Outcome::Ignored,
        }
    }
}

/// Whatever message is handed in, a well-formed ledger stays well formed: the blocks stay
/// a chain, block linked to block, and the archive stays what the blocks hold.
pub proof fn lemma_handling_keeps_the_chain(
    engine: P2PProtocolView,
    message: Option<TransactionMessageView>,
    connection_len: u32,
    timestamp: Timestamp,
)
    requires
        engine.blockchain.wf(),
        engine.blockchain.blocks.len() <= u32::MAX,
    ensures
        engine.handle(message, connection_len, timestamp).0.blockchain.wf(),
{
    if let Some(m) = message {
        lemma_seal_keeps_chain(engine.blockchain.with_pending(m.payload), timestamp);
    }
}

/// A vote by the agent that owns the proposal it votes on changes nothing: the pending
/// transactions, and with them every tally, the chain and the registry stay as they are,
/// and nothing is sent.
pub proof fn lemma_self_vote_changes_nothing(
    engine: P2PProtocolView,
    vote: TransactionMessageView,
    connection_len: u32,
    timestamp: Timestamp,
)
    requires
        vote.payload.action_type == ActionType::VoteAccept || vote.payload.action_type
            == ActionType::VoteReject,
        engine.is_self_vote(vote.payload),
    ensures
        engine.handle(Some(vote), connection_len, timestamp) == (engine, OutcomeView::SelfVote),
{
}

/// Once the engine has taken a proposal of an agent, the next vote of that agent on the
/// same reasoning hash is a vote on its own proposal: it does not join the pending
/// transactions, and the count of accepting votes stays what it was.
pub proof fn lemma_no_vote_on_own_proposal(
    engine: P2PProtocolView,
    proposal: TransactionMessageView,
    vote: TransactionMessageView,
    peers_at_proposal: u32,
    peers_at_vote: u32,
    proposed_at: Timestamp,
    voted_at: Timestamp,
)
    requires
        proposal.payload.action_type == ActionType::ProposeUpdate,
        proposal_defect(proposal.payload) is None,
        vote.payload.action_type == ActionType::VoteAccept || vote.payload.action_type
            == ActionType::VoteReject,
        vote.payload.agent_id == proposal.payload.agent_id,
        vote.payload.reasoning_hash == proposal.payload.reasoning_hash,
    ensures
        ({
            let proposed = engine.handle(Some(proposal), peers_at_proposal, proposed_at).0;
            let voted = proposed.handle(Some(vote), peers_at_vote, voted_at);
            &&& voted == (proposed, OutcomeView::SelfVote)
            &&& voted.0.blockchain.current_transactions
                == engine.blockchain.current_transactions.push(proposal.payload)
            &&& votes(voted.0.blockchain.current_transactions, ActionType::VoteAccept) == votes(
                proposed.blockchain.current_transactions,
                ActionType::VoteAccept,
            )
        }),
{
}

/// Where a message leads to a sealed block, no transaction is pending afterwards, the
/// block is the last of the chain, and it holds exactly the transactions that were
/// pending when it was sealed: those pending before, and the vote that decided.
pub proof fn lemma_sealing_clears_pending(
    engine: P2PProtocolView,
    message: TransactionMessageView,
    connection_len: u32,
    timestamp: Timestamp,
)
    requires
        engine.handle(Some(message), connection_len, timestamp).1 is Sealed,
    ensures
        ({
            let (after, outcome) = engine.handle(Some(message), connection_len, timestamp);
            &&& after.blockchain.current_transactions == Seq::<TransactionView>::empty()
            &&& outcome->Sealed_0 == after.blockchain.blocks.last()
            &&& outcome->Sealed_0.transactions == engine.blockchain.current_transactions.push(
                message.payload,
            )
            &&& after.blockchain.blocks == engine.blockchain.blocks.push(outcome->Sealed_0)
            &&& after.blockchain.archieved_transactions == engine.blockchain.archieved_transactions
                + outcome->Sealed_0.transactions
        }),
{
}

/// A block is sealed exactly when a vote that its agent may cast brings the accepting
/// votes among the pending transactions, itself counted, to a super-majority.
pub proof fn lemma_sealed_exactly_on_super_majority(
    engine: P2PProtocolView,
    message: TransactionMessageView,
    connection_len: u32,
    timestamp: Timestamp,
)
    ensures
        engine.handle(Some(message), connection_len, timestamp).1 is Sealed <==> {
            &&& message.payload.action_type == ActionType::VoteAccept
                || message.payload.action_type == ActionType::VoteReject
            &&& !engine.is_self_vote(message.payload)
            &&& is_super_majority(
                votes(
                    engine.blockchain.current_transactions.push(message.payload),
                    ActionType::VoteAccept,
                ),
                electorate(connection_len),
            )
        },
{
}

/// The registry changes only when a proposal is taken: every other message leaves it as
/// it is, and a proposal that is taken adds or replaces the owner of its reasoning hash
/// and nothing else.
pub proof fn lemma_registry_changes_only_on_proposals(
    engine: P2PProtocolView,
    message: Option<TransactionMessageView>,
    connection_len: u32,
    timestamp: Timestamp,
)
    ensures
        ({
            let (after, outcome) = engine.handle(message, connection_len, timestamp);
            if outcome is Proposed {
                after.proposal_owners == engine.proposal_owners.insert(
                    message->0.payload.reasoning_hash,
                    message->0.payload.agent_id,
                )
            } else {
                after.proposal_owners == engine.proposal_owners
            }
        }),
{
}

/// The ledger only grows: whatever message is handed in, the blocks before are the first
/// blocks after, and the archive before is the start of the archive after.
pub proof fn lemma_ledger_only_grows(
    engine: P2PProtocolView,
    message: Option<TransactionMessageView>,
    connection_len: u32,
    timestamp: Timestamp,
)
    ensures
        ({
            let before = engine.blockchain;
            let after = engine.handle(message, connection_len, timestamp).0.blockchain;
            &&& before.blocks.len() <= after.blocks.len() <= before.blocks.len() + 1
            &&& after.blocks.take(before.blocks.len() as int) == before.blocks
            &&& before.archieved_transactions.len() <= after.archieved_transactions.len()
            &&& after.archieved_transactions.take(before.archieved_transactions.len() as int)
                == before.archieved_transactions
        }),
{
    let before = engine.blockchain;
    let after = engine.handle(message, connection_len, timestamp).0.blockchain;
    assert(after.blocks.take(before.blocks.len() as int) =~= before.blocks);
    assert(after.archieved_transactions.take(before.archieved_transactions.len() as int)
        =~= before.archieved_transactions);
}

} // verus!
