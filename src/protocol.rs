//! Protocol messages that the relay publishes onto the network, and the
//! topics they go to.

use vstd::prelude::*;

use crate::messages::Float64;

verus! {

/// A well-known topic of the network.
#[derive(Debug, Clone, Copy, PartialEq, Eq, Structural)]
pub enum Topic {
    /// Chat addressed to everyone.
    Chat,
    /// Chat addressed to one peer.
    Direct,
    /// Vouching and reputation.
    Vouch,
    /// Credit lines and transfers.
    Credit,
    /// Proposals and votes.
    Governance,
    /// Resource accounting.
    Resource,
}

/// The name of a topic on the network.
pub open spec fn topic_name(t: Topic) -> Seq<char> {
    match t {
        Topic::Chat => "/mycelial/1.0.0/chat"@,
        Topic::Direct => "/mycelial/1.0.0/direct"@,
        Topic::Vouch => "/mycelial/1.0.0/vouch"@,
        Topic::Credit => "/mycelial/1.0.0/credit"@,
        Topic::Governance => "/mycelial/1.0.0/governance"@,
        Topic::Resource => "/mycelial/1.0.0/resource"@,
    }
}

impl Topic {
    /// The topic's name on the network.
    pub fn name(&self) -> (r: &'static str)
        ensures
            r@ == topic_name(*self),
    {
        match self {
            Topic::Chat => "/mycelial/1.0.0/chat",
            Topic::Direct => "/mycelial/1.0.0/direct",
            Topic::Vouch => "/mycelial/1.0.0/vouch",
            Topic::Credit => "/mycelial/1.0.0/credit",
            Topic::Governance => "/mycelial/1.0.0/governance",
            Topic::Resource => "/mycelial/1.0.0/resource",
        }
    }
}

/// A vote on a governance proposal.
#[derive(Debug, Clone, Copy, PartialEq, Eq, Structural)]
pub enum Vote {
    For,
    Against,
    Abstain,
}

/// The kind of a contributed resource.
#[derive(Debug, Clone, PartialEq)]
pub enum ResourceKind {
    Bandwidth,
    Storage,
    Compute,
    /// Any other kind, named by the text it was reported with.
    Other(String),
}

/// A message of one of the network's protocols. Identifiers are 128-bit UUIDs.
#[derive(Debug, Clone, PartialEq)]
pub enum ProtocolMessage {
    /// A chat message: content sent by a peer.
    Content { from: String, text: String },
    /// A request to vouch for a peer, staking part of the voucher's reputation.
    VouchRequest { id: u128, voucher: String, vouchee: String, stake: Float64, message: Option<String> },
    /// The answer to a vouch request; it carries no stated reason.
    VouchAck { vouch_id: u128, from: String, accepted: bool, timestamp: i64 },
    /// Opening of a credit line from `creditor` to `debtor`.
    CreateCreditLine { creditor: String, debtor: String, limit: Float64 },
    /// A transfer drawn on the credit line `line_id`.
    CreditTransfer { line_id: u128, from: String, to: String, amount: Float64, memo: Option<String> },
    /// A new governance proposal.
    CreateProposal { proposer: String, title: String, description: String },
    /// A vote on the proposal `proposal_id`.
    CastVote { proposal_id: u128, voter: String, vote: Vote, weight: Float64 },
    /// A reported resource contribution.
    ResourceContribution { peer_id: String, resource: ResourceKind, amount: Float64, unit: String },
}

} // verus!
