use vstd::prelude::*;
use vstd::string::*;
use crate::utils::json::{is_number, quote, quoted, JsonNumber};

verus! {

/// The verdict a vote carries.
#[derive(Clone, Copy, Debug, PartialEq, Eq, Structural)]
pub enum VoteVerdict {
    Accept,
    Reject,
}

/// What an evaluating agent says of a block.
#[derive(Clone, Copy, Debug, PartialEq, Eq, Structural)]
pub enum EvaluationVote {
    ValidateBlock,
    FlagConflict,
}

/// What a transaction asks the node to do.
#[derive(Clone, Copy, Debug, PartialEq, Eq, Structural)]
pub enum ActionType {
    ProposeUpdate,
    EvaluateUpdate,
    VoteAccept,
    VoteReject,
    FlagMalicious,
    FinalizeBlock,
}

impl VoteVerdict {
    /// The name of the verdict, as it stands on the wire.
    pub open spec fn name(self) -> Seq<char> {
        match self {
            VoteVerdict::Accept => "Accept"@,
            VoteVerdict::Reject => "Reject"@,
        }
    }

    /// The name of the verdict, as it stands on the wire.
    pub fn as_str(&self) -> (r: &'static str)
        ensures
            r@ == self.name(),
    {
        match self {
            VoteVerdict::Accept => "Accept",
            VoteVerdict::Reject => "Reject",
        }
    }
}

impl EvaluationVote {
    /// The name of the vote, as it stands on the wire.
    pub open spec fn name(self) -> Seq<char> {
        match self {
            EvaluationVote::ValidateBlock => "ValidateBlock"@,
            EvaluationVote::FlagConflict => "FlagConflict"@,
        }
    }

    /// The name of the vote, as it stands on the wire.
    pub fn as_str(&self) -> (r: &'static str)
        ensures
            r@ == self.name(),
    {
        match self {
            EvaluationVote::ValidateBlock => "ValidateBlock",
            EvaluationVote::FlagConflict => "FlagConflict",
        }
    }
}

impl ActionType {
    /// The name of the action, as it stands on the wire.
    pub open spec fn name(self) -> Seq<char> {
        match self {
            ActionType::ProposeUpdate => "ProposeUpdate"@,
            ActionType::EvaluateUpdate => "EvaluateUpdate"@,
            ActionType::VoteAccept => "VoteAccept"@,
            ActionType::VoteReject => "VoteReject"@,
            ActionType::FlagMalicious => "FlagMalicious"@,
            ActionType::FinalizeBlock => "FinalizeBlock"@,
        }
    }

    /// The name of the action, as it stands on the wire.
    pub fn as_str(&self) -> (r: &'static str)
        ensures
            r@ == self.name(),
    {
        match self {
            ActionType::ProposeUpdate => "ProposeUpdate",
            ActionType::EvaluateUpdate => "EvaluateUpdate",
            ActionType::VoteAccept => "VoteAccept",
            ActionType::VoteReject => "VoteReject",
            ActionType::FlagMalicious => "FlagMalicious",
            ActionType::FinalizeBlock => "FinalizeBlock",
        }
    }
}

/// A change to a model, as an agent describes it.
#[derive(Debug, PartialEq, Eq)]
pub struct ModelModification {
    pub model_hash: String,
    pub cid: String,
    pub description: String,
    pub validation_proof: String,
}

/// The content of a `ModelModification`.
pub struct ModelModificationView {
    pub model_hash: Seq<char>,
    pub cid: Seq<char>,
    pub description: Seq<char>,
    pub validation_proof: Seq<char>,
}

impl ModelModificationView {
    /// The JSON object of the modification, its fields in the order of their declaration.
    pub open spec fn json(self) -> Seq<char> {
        "{\"model_hash\":"@ + quoted(self.model_hash) + ",\"cid\":"@ + quoted(self.cid)
            + ",\"description\":"@ + quoted(self.description) + ",\"validation_proof\":"@ + quoted(
            self.validation_proof,
        ) + "}"@
    }
}

impl View for ModelModification {
    type V = ModelModificationView;

    open spec fn view(&self) -> ModelModificationView {
        ModelModificationView {
            model_hash: self.model_hash@,
            cid: self.cid@,
            description: self.description@,
            validation_proof: self.validation_proof@,
        }
    }
}

impl Clone for ModelModification {
    fn clone(&self) -> (r: Self)
        ensures
            r == *self,
    {
        ModelModification {
            model_hash: self.model_hash.clone(),
            cid: self.cid.clone(),
            description: self.description.clone(),
            validation_proof: self.validation_proof.clone(),
        }
    }
}

impl ModelModification {
    /// The JSON object of the modification.
    pub fn to_json(&self) -> (r: String)
        ensures
            r@ == self@.json(),
    {
        let mut r = String::from_str("{\"model_hash\":");
        r.append(quote(self.model_hash.as_str()).as_str());
        r.append(",\"cid\":");
        r.append(quote(self.cid.as_str()).as_str());
        r.append(",\"description\":");
        r.append(quote(self.description.as_str()).as_str());
        r.append(",\"validation_proof\":");
        r.append(quote(self.validation_proof.as_str()).as_str());
        r.append("}");
        r
    }
}

/// Figures that come with a model update.
#[derive(Debug, PartialEq, Eq)]
pub struct ModelParameters {
    pub update_id: String,
    pub confidence: JsonNumber,
    pub score: JsonNumber,
}

/// The content of a `ModelParameters`.
pub struct ModelParametersView {
    pub update_id: Seq<char>,
    pub confidence: Seq<char>,
    pub score: Seq<char>,
}

impl ModelParametersView {
    /// Whether the figures are numbers. Those of every `ModelParameters` are.
    pub open spec fn valid(self) -> bool {
        is_number(self.confidence) && is_number(self.score)
    }

    /// The JSON object of the figures. The two numbers stand in it as they are written.
    pub open spec fn json(self) -> Seq<char> {
        "{\"update_id\":"@ + quoted(self.update_id) + ",\"confidence\":"@ + self.confidence
            + ",\"score\":"@ + self.score + "}"@
    }
}

impl View for ModelParameters {
    type V = ModelParametersView;

    open spec fn view(&self) -> ModelParametersView {
        ModelParametersView {
            update_id: self.update_id@,
            confidence: self.confidence@,
            score: self.score@,
        }
    }
}

impl Clone for ModelParameters {
    fn clone(&self) -> (r: Self)
        ensures
            r == *self,
    {
        ModelParameters {
            update_id: self.update_id.clone(),
            confidence: self.confidence.clone(),
            score: self.score.clone(),
        }
    }
}

impl ModelParameters {
    /// The JSON object of the figures.
    pub fn to_json(&self) -> (r: String)
        ensures
            r@ == self@.json(),
            self@.valid(),
    {
        let mut r = String::from_str("{\"update_id\":");
        r.append(quote(self.update_id.as_str()).as_str());
        r.append(",\"confidence\":");
        r.append(self.confidence.as_str());
        r.append(",\"score\":");
        r.append(self.score.as_str());
        r.append("}");
        r
    }
}

/// What an evaluation came to: a verdict, a vote on the block, both or neither.
#[derive(Clone, Copy, Debug, PartialEq, Eq, Structural)]
pub struct EvaluationResult {
    pub vote: Option<VoteVerdict>,
    pub evaluation: Option<EvaluationVote>,
}

impl EvaluationResult {
    /// The JSON text of the verdict, which is its name as a string, or `null`.
    pub open spec fn vote_json(self) -> Seq<char> {
        match self.vote {
            Some(v) => "\""@ + v.name() + "\""@,
            None => "null"@,
        }
    }

    /// The JSON text of the vote on the block, which is its name as a string, or `null`.
    pub open spec fn evaluation_json(self) -> Seq<char> {
        match self.evaluation {
            Some(v) => "\""@ + v.name() + "\""@,
            None => "null"@,
        }
    }

    /// The JSON object of the result.
    pub open spec fn json(self) -> Seq<char> {
        "{\"vote\":"@ + self.vote_json() + ",\"evaluation\":"@ + self.evaluation_json() + "}"@
    }

    /// The JSON object of the result.
    pub fn to_json(&self) -> (r: String)
        ensures
            r@ == self.json(),
    {
        let mut r = String::from_str("{\"vote\":");
        match self.vote {
            Some(v) => {
                let ghost before = r@;
                r.append("\"");
                r.append(v.as_str());
                r.append("\"");
                assert(r@ == before + self.vote_json());
            },
            None => {
                r.append("null");
            },
        }
        r.append(",\"evaluation\":");
        match self.evaluation {
            Some(v) => {
                let ghost before = r@;
                r.append("\"");
                r.append(v.as_str());
                r.append("\"");
                assert(r@ == before + self.evaluation_json());
            },
            None => {
                r.append("null");
            },
        }
        r.append("}");
        r
    }
}

/// What a transaction carries besides its header: the parts that its action calls for,
/// and a description in words.
#[derive(Debug, PartialEq, Eq)]
pub struct PayloadData {
    pub model_modification: Option<ModelModification>,
    pub model_parameters: Option<ModelParameters>,
    pub evaluation_result: Option<EvaluationResult>,
    pub description: String,
}

/// The content of a `PayloadData`.
pub struct PayloadDataView {
    pub model_modification: Option<ModelModificationView>,
    pub model_parameters: Option<ModelParametersView>,
    pub evaluation_result: Option<EvaluationResult>,
    pub description: Seq<char>,
}

impl PayloadDataView {
    /// Whether the figures, where there are any, are numbers. Those of every `PayloadData`
    /// are.
    pub open spec fn valid(self) -> bool {
        self.model_parameters matches Some(figures) ==> figures.valid()
    }

    /// The JSON text of the modification: its object, or `null`.
    pub open spec fn model_modification_json(self) -> Seq<char> {
        match self.model_modification {
            Some(m) => m.json(),
            None => "null"@,
        }
    }

    /// The JSON text of the figures: their object, or `null`.
    pub open spec fn model_parameters_json(self) -> Seq<char> {
        match self.model_parameters {
            Some(m) => m.json(),
            None => "null"@,
        }
    }

    /// The JSON text of the evaluation: its object, or `null`.
    pub open spec fn evaluation_result_json(self) -> Seq<char> {
        match self.evaluation_result {
            Some(e) => e.json(),
            None => "null"@,
        }
    }

    /// The JSON object of the payload, its fields in the order of their declaration.
    pub open spec fn json(self) -> Seq<char> {
        "{\"model_modification\":"@ + self.model_modification_json() + ",\"model_parameters\":"@
            + self.model_parameters_json() + ",\"evaluation_result\":"@
            + self.evaluation_result_json() + ",\"description\":"@ + quoted(self.description)
            + "}"@
    }
}

impl View for PayloadData {
    type V = PayloadDataView;

    open spec fn view(&self) -> PayloadDataView {
        PayloadDataView {
            model_modification: match self.model_modification {
                Some(m) => Some(m@),
                None => None,
            },
            model_parameters: match self.model_parameters {
                Some(m) => Some(m@),
                None => None,
            },
            evaluation_result: self.evaluation_result,
            description: self.description@,
        }
    }
}

impl Clone for PayloadData {
    fn clone(&self) -> (r: Self)
        ensures
            r == *self,
    {
        PayloadData {
            model_modification: match &self.model_modification {
                Some(m) => Some(m.clone()),
                None => None,
            },
            model_parameters: match &self.model_parameters {
                Some(m) => Some(m.clone()),
                None => None,
            },
            evaluation_result: self.evaluation_result,
            description: self.description.clone(),
        }
    }
}

impl PayloadData {
    /// The JSON object of the payload.
    pub fn to_json(&self) -> (r: String)
        ensures
            r@ == self@.json(),
            self@.valid(),
    {
        let mut r = String::from_str("{\"model_modification\":");
        match &self.model_modification {
            Some(m) => {
                r.append(m.to_json().as_str());
            },
            None => {
                r.append("null");
            },
        }
        r.append(",\"model_parameters\":");
        match &self.model_parameters {
            Some(m) => {
                r.append(m.to_json().as_str());
            },
            None => {
                r.append("null");
            },
        }
        r.append(",\"evaluation_result\":");
        match &self.evaluation_result {
            Some(e) => {
                r.append(e.to_json().as_str());
            },
            None => {
                r.append("null");
            },
        }
        r.append(",\"description\":");
        r.append(quote(self.description.as_str()).as_str());
        r.append("}");
        r
    }
}

/// One signed statement of an agent: a proposal, a vote on one, or a remark.
#[derive(Debug, PartialEq, Eq)]
pub struct Transaction {
    pub agent_id: String,
    pub signature: String,
    pub reasoning_hash: String,
    pub action_type: ActionType,
    pub payload: PayloadData,
}

/// The content of a `Transaction`.
pub struct TransactionView {
    pub agent_id: Seq<char>,
    pub signature: Seq<char>,
    pub reasoning_hash: Seq<char>,
    pub action_type: ActionType,
    pub payload: PayloadDataView,
}

impl TransactionView {
    /// Whether the figures in the payload, where there are any, are numbers. Those of
    /// every `Transaction` are.
    pub open spec fn valid(self) -> bool {
        self.payload.valid()
    }

    /// The JSON object of the transaction, its fields in the order of their declaration.
    pub open spec fn json(self) -> Seq<char> {
        "{\"agent_id\":"@ + quoted(self.agent_id) + ",\"signature\":"@ + quoted(self.signature)
            + ",\"reasoning_hash\":"@ + quoted(self.reasoning_hash) + ",\"action_type\":\""@
            + self.action_type.name() + "\",\"payload\":"@ + self.payload.json() + "}"@
    }
}

impl View for Transaction {
    type V = TransactionView;

    open spec fn view(&self) -> TransactionView {
        TransactionView {
            agent_id: self.agent_id@,
            signature: self.signature@,
            reasoning_hash: self.reasoning_hash@,
            action_type: self.action_type,
            payload: self.payload@,
        }
    }
}

impl Clone for Transaction {
    fn clone(&self) -> (r: Self)
        ensures
            r == *self,
    {
        Transaction {
            agent_id: self.agent_id.clone(),
            signature: self.signature.clone(),
            reasoning_hash: self.reasoning_hash.clone(),
            action_type: self.action_type,
            payload: self.payload.clone(),
        }
    }
}

impl Transaction {
    /// The JSON object of the transaction.
    pub fn to_json(&self) -> (r: String)
        ensures
            r@ == self@.json(),
            self@.valid(),
    {
        let mut r = String::from_str("{\"agent_id\":");
        r.append(quote(self.agent_id.as_str()).as_str());
        r.append(",\"signature\":");
        r.append(quote(self.signature.as_str()).as_str());
        r.append(",\"reasoning_hash\":");
        r.append(quote(self.reasoning_hash.as_str()).as_str());
        r.append(",\"action_type\":\"");
        r.append(self.action_type.as_str());
        r.append("\",\"payload\":");
        r.append(self.payload.to_json().as_str());
        r.append("}");
        r
    }
}

/// The contents of the transactions, in their order.
pub open spec fn contents(transactions: Seq<Transaction>) -> Seq<TransactionView> {
    transactions.map_values(|t: Transaction| t@)
}

/// Whether each of the transactions is valid. Every sequence of `Transaction`s is.
pub open spec fn all_valid(transactions: Seq<TransactionView>) -> bool {
    forall|i: int| 0 <= i < transactions.len() ==> (#[trigger] transactions[i]).valid()
}

/// A transaction as it travels between nodes.
#[derive(Debug, PartialEq, Eq)]
pub struct TransactionMessage {
    pub payload: Transaction,
}

/// The content of a `TransactionMessage`.
pub struct TransactionMessageView {
    pub payload: TransactionView,
}

impl View for TransactionMessage {
    type V = TransactionMessageView;

    open spec fn view(&self) -> TransactionMessageView {
        TransactionMessageView { payload: self.payload@ }
    }
}

impl Clone for TransactionMessage {
    fn clone(&self) -> (r: Self)
        ensures
            r == *self,
    {
        TransactionMessage { payload: self.payload.clone() }
    }
}

/// What a node says of itself when it pings another.
#[derive(Clone, Copy, Debug, PartialEq, Eq, Structural)]
pub struct Ping {
    pub block_height: u32,
    pub peer_count: usize,
    pub is_miner: bool,
}

/// Where a peer can be reached.
#[derive(Debug, PartialEq, Eq)]
pub struct PeerAddr {
    pub ip: String,
    pub port: u32,
}

impl Clone for PeerAddr {
    fn clone(&self) -> (r: Self)
        ensures
            r == *self,
    {
        PeerAddr { ip: self.ip.clone(), port: self.port }
    }
}

} // verus!
