//! Messages exchanged between the relay and dashboard clients.
//!
//! Numeric fields that the wire carries as IEEE-754 doubles are held as their
//! bit pattern: the relay forwards them and never computes with them.

use vstd::prelude::*;

verus! {

/// An IEEE-754 double precision number, held as its 64-bit pattern.
#[derive(Debug, Clone, Copy, PartialEq, Eq, Structural)]
pub struct Float64 {
    pub bits: u64,
}

/// Bit pattern of the double `0.0`.
pub const ZERO_BITS: u64 = 0;

/// Bit pattern of the double `1.0`.
pub const ONE_BITS: u64 = 0x3ff0_0000_0000_0000;

impl Float64 {
    /// The number whose bit pattern is `bits`.
    pub fn from_bits(bits: u64) -> (r: Float64)
        ensures
            r.bits == bits,
    {
        Float64 { bits }
    }

    /// The double `0.0`.
    pub fn zero() -> (r: Float64)
        ensures
            r.bits == ZERO_BITS,
    {
        Float64 { bits: ZERO_BITS }
    }

    /// The double `1.0`.
    pub fn one() -> (r: Float64)
        ensures
            r.bits == ONE_BITS,
    {
        Float64 { bits: ONE_BITS }
    }
}

/// Events sent from the relay to every connected client.
#[derive(Debug, Clone, PartialEq)]
pub enum WsMessage {
    /// A peer joined the network.
    PeerJoined { peer_id: String, name: Option<String> },
    /// A peer left the network.
    PeerLeft { peer_id: String },
    /// A chat message.
    ChatMessage {
        id: String,
        from: String,
        from_name: String,
        to: Option<String>,
        content: String,
        timestamp: i64,
    },
    /// A peer's reputation changed.
    ReputationUpdate { peer_id: String, new_score: Float64 },
    /// The full list of known peers.
    PeersList { peers: Vec<PeerListEntry> },
    /// Network statistics.
    Stats { peer_count: usize, message_count: u64, uptime_seconds: u64 },
    /// An error notice.
    Error { message: String },
    /// A vouch request.
    VouchRequest { id: String, voucher: String, vouchee: String, weight: Float64, timestamp: i64 },
    /// The answer to a vouch request.
    VouchAck {
        id: String,
        request_id: String,
        accepted: bool,
        new_reputation: Option<Float64>,
        timestamp: i64,
    },
    /// A credit line was created or updated.
    CreditLine {
        id: String,
        creditor: String,
        debtor: String,
        limit: Float64,
        balance: Float64,
        timestamp: i64,
    },
    /// A credit transfer.
    CreditTransfer {
        id: String,
        from: String,
        to: String,
        amount: Float64,
        memo: Option<String>,
        timestamp: i64,
    },
    /// A governance proposal.
    Proposal {
        id: String,
        proposer: String,
        title: String,
        description: String,
        proposal_type: String,
        status: String,
        yes_votes: u32,
        no_votes: u32,
        quorum: u32,
        deadline: i64,
        timestamp: i64,
    },
    /// A vote on a proposal.
    VoteCast {
        id: String,
        proposal_id: String,
        voter: String,
        vote: String,
        weight: Float64,
        timestamp: i64,
    },
    /// A reported resource contribution.
    ResourceContribution {
        id: String,
        peer_id: String,
        resource_type: String,
        amount: Float64,
        unit: String,
        timestamp: i64,
    },
    /// A snapshot of a resource pool.
    ResourcePoolUpdate {
        resource_type: String,
        total_available: Float64,
        total_used: Float64,
        contributors: Vec<ContributorEntry>,
        timestamp: i64,
    },
}

/// One peer of a peer list: its identity joined with its reputation.
#[derive(Debug, Clone, PartialEq)]
pub struct PeerListEntry {
    pub id: String,
    pub name: Option<String>,
    pub reputation: Float64,
    pub addresses: Vec<String>,
}

impl PeerListEntry {
    /// The entry for a peer with the given identity and reputation score.
    pub fn from_peer(id: String, name: Option<String>, addresses: Vec<String>, reputation: Float64) -> (r: PeerListEntry)
        ensures
            r.id == id,
            r.name == name,
            r.addresses == addresses,
            r.reputation == reputation,
    {
        PeerListEntry { id, name, reputation, addresses }
    }
}

/// One contributor of a resource pool.
#[derive(Debug, Clone, PartialEq)]
pub struct ContributorEntry {
    pub peer_id: String,
    pub contribution: Float64,
    pub percentage: Float64,
}

/// Commands sent from a client to the relay.
#[derive(Debug, Clone, PartialEq)]
pub enum ClientMessage {
    /// Send a chat message, to one peer when `to` names it, else to everyone.
    SendChat { content: String, to: Option<String> },
    /// Ask for the peer list.
    GetPeers,
    /// Ask for network statistics.
    GetStats,
    /// Subscribe the node to a topic.
    Subscribe { topic: String },
    /// Vouch for another peer.
    SendVouch { vouchee: String, weight: Float64, message: Option<String> },
    /// Accept or reject a vouch request.
    RespondVouch { request_id: String, accept: bool },
    /// Extend a credit line to another peer.
    CreateCreditLine { debtor: String, limit: Float64 },
    /// Transfer credit to another peer.
    TransferCredit { to: String, amount: Float64, memo: Option<String> },
    /// Create a governance proposal.
    CreateProposal { title: String, description: String, proposal_type: String },
    /// Vote on a proposal: `yes`, `no`, or anything else for abstain.
    CastVote { proposal_id: String, vote: String },
    /// Report a resource contribution.
    ReportResource { resource_type: String, amount: Float64, unit: String },
}

/// The discriminant that names an event's variant on the wire.
pub open spec fn event_tag(m: WsMessage) -> Seq<char> {
    match m {
        WsMessage::PeerJoined { .. } => "peer_joined"@,
        WsMessage::PeerLeft { .. } => "peer_left"@,
        WsMessage::ChatMessage { .. } => "chat_message"@,
        WsMessage::ReputationUpdate { .. } => "reputation_update"@,
        WsMessage::PeersList { .. } => "peers_list"@,
        WsMessage::Stats { .. } => "stats"@,
        WsMessage::Error { .. } => "error"@,
        WsMessage::VouchRequest { .. } => "vouch_request"@,
        WsMessage::VouchAck { .. } => "vouch_ack"@,
        WsMessage::CreditLine { .. } => "credit_line"@,
        WsMessage::CreditTransfer { .. } => "credit_transfer"@,
        WsMessage::Proposal { .. } => "proposal"@,
        WsMessage::VoteCast { .. } => "vote_cast"@,
        WsMessage::ResourceContribution { .. } => "resource_contribution"@,
        WsMessage::ResourcePoolUpdate { .. } => "resource_pool_update"@,
    }
}

/// The discriminant that names a command's variant on the wire.
pub open spec fn command_tag(c: ClientMessage) -> Seq<char> {
    match c {
        ClientMessage::SendChat { .. } => "send_chat"@,
        ClientMessage::GetPeers => "get_peers"@,
        ClientMessage::GetStats => "get_stats"@,
        ClientMessage::Subscribe { .. } => "subscribe"@,
        ClientMessage::SendVouch { .. } => "send_vouch"@,
        ClientMessage::RespondVouch { .. } => "respond_vouch"@,
        ClientMessage::CreateCreditLine { .. } => "create_credit_line"@,
        ClientMessage::TransferCredit { .. } => "transfer_credit"@,
        ClientMessage::CreateProposal { .. } => "create_proposal"@,
        ClientMessage::CastVote { .. } => "cast_vote"@,
        ClientMessage::ReportResource { .. } => "report_resource"@,
    }
}

impl WsMessage {
    /// The discriminant of this event on the wire.
    pub fn type_tag(&self) -> (r: &'static str)
        ensures
            r@ == event_tag(*self),
    {
        match self {
            WsMessage::PeerJoined { .. } => "peer_joined",
            WsMessage::PeerLeft { .. } => "peer_left",
            WsMessage::ChatMessage { .. } => "chat_message",
            WsMessage::ReputationUpdate { .. } => "reputation_update",
            WsMessage::PeersList { .. } => "peers_list",
            WsMessage::Stats { .. } => "stats",
            WsMessage::Error { .. } => "error",
            WsMessage::VouchRequest { .. } => "vouch_request",
            WsMessage::VouchAck { .. } => "vouch_ack",
            WsMessage::CreditLine { .. } => "credit_line",
            WsMessage::CreditTransfer { .. } => "credit_transfer",
            WsMessage::Proposal { .. } => "proposal",
            WsMessage::VoteCast { .. } => "vote_cast",
            WsMessage::ResourceContribution { .. } => "resource_contribution",
            WsMessage::ResourcePoolUpdate { .. } => "resource_pool_update",
        }
    }
}

impl ClientMessage {
    /// The discriminant of this command on the wire.
    pub fn type_tag(&self) -> (r: &'static str)
        ensures
            r@ == command_tag(*self),
    {
        match self {
            ClientMessage::SendChat { .. } => "send_chat",
            ClientMessage::GetPeers => "get_peers",
            ClientMessage::GetStats => "get_stats",
            ClientMessage::Subscribe { .. } => "subscribe",
            ClientMessage::SendVouch { .. } => "send_vouch",
            ClientMessage::RespondVouch { .. } => "respond_vouch",
            ClientMessage::CreateCreditLine { .. } => "create_credit_line",
            ClientMessage::TransferCredit { .. } => "transfer_credit",
            ClientMessage::CreateProposal { .. } => "create_proposal",
            ClientMessage::CastVote { .. } => "cast_vote",
            ClientMessage::ReportResource { .. } => "report_resource",
        }
    }
}

/// Index of an event's variant, in declaration order.
pub open spec fn event_variant(m: WsMessage) -> int {
    match m {
        WsMessage::PeerJoined { .. } => 0,
        WsMessage::PeerLeft { .. } => 1,
        WsMessage::ChatMessage { .. } => 2,
        WsMessage::ReputationUpdate { .. } => 3,
        WsMessage::PeersList { .. } => 4,
        WsMessage::Stats { .. } => 5,
        WsMessage::Error { .. } => 6,
        WsMessage::VouchRequest { .. } => 7,
        WsMessage::VouchAck { .. } => 8,
        WsMessage::CreditLine { .. } => 9,
        WsMessage::CreditTransfer { .. } => 10,
        WsMessage::Proposal { .. } => 11,
        WsMessage::VoteCast { .. } => 12,
        WsMessage::ResourceContribution { .. } => 13,
        WsMessage::ResourcePoolUpdate { .. } => 14,
    }
}

/// Two events with the same discriminant are of the same variant: the tag
/// alone tells a reader which variant to decode.
pub proof fn lemma_event_tags_distinct(a: WsMessage, b: WsMessage)
    requires
        event_tag(a) == event_tag(b),
    ensures
        event_variant(a) == event_variant(b),
{
    reveal_strlit("peer_joined");
    reveal_strlit("peer_left");
    reveal_strlit("chat_message");
    reveal_strlit("reputation_update");
    reveal_strlit("peers_list");
    reveal_strlit("stats");
    reveal_strlit("error");
    reveal_strlit("vouch_request");
    reveal_strlit("vouch_ack");
    reveal_strlit("credit_line");
    reveal_strlit("credit_transfer");
    reveal_strlit("proposal");
    reveal_strlit("vote_cast");
    reveal_strlit("resource_contribution");
    reveal_strlit("resource_pool_update");
    let ta = event_tag(a);
    let tb = event_tag(b);
    assert(ta.len() == tb.len());
    assert(ta[0] == tb[0]);
    assert(ta[1] == tb[1]);
    assert(ta[2] == tb[2]);
    assert(ta[5] == tb[5]);
    assert(ta.len() > 9 ==> ta[9] == tb[9]);
}

/// Index of a command's variant, in declaration order.
pub open spec fn command_variant(c: ClientMessage) -> int {
    match c {
        ClientMessage::SendChat { .. } => 0,
        ClientMessage::GetPeers => 1,
        ClientMessage::GetStats => 2,
        ClientMessage::Subscribe { .. } => 3,
        ClientMessage::SendVouch { .. } => 4,
        ClientMessage::RespondVouch { .. } => 5,
        ClientMessage::CreateCreditLine { .. } => 6,
        ClientMessage::TransferCredit { .. } => 7,
        ClientMessage::CreateProposal { .. } => 8,
        ClientMessage::CastVote { .. } => 9,
        ClientMessage::ReportResource { .. } => 10,
    }
}

/// Two commands with the same discriminant are of the same variant.
pub proof fn lemma_command_tags_distinct(a: ClientMessage, b: ClientMessage)
    requires
        command_tag(a) == command_tag(b),
    ensures
        command_variant(a) == command_variant(b),
{
    reveal_strlit("send_chat");
    reveal_strlit("get_peers");
    reveal_strlit("get_stats");
    reveal_strlit("subscribe");
    reveal_strlit("send_vouch");
    reveal_strlit("respond_vouch");
    reveal_strlit("create_credit_line");
    reveal_strlit("transfer_credit");
    reveal_strlit("create_proposal");
    reveal_strlit("cast_vote");
    reveal_strlit("report_resource");
    let ta = command_tag(a);
    let tb = command_tag(b);
    assert(ta.len() == tb.len());
    assert(ta[0] == tb[0]);
    assert(ta[1] == tb[1]);
    assert(ta[4] == tb[4]);
    assert(ta[5] == tb[5]);
}

} // verus!
