//! Translation of client commands into a network publish and the local echo
//! that stands in for it.
//!
//! The network never hands a node its own publications back, so each command
//! that publishes also yields the event that the sender should see, built
//! from the same values as the published message.

use vstd::prelude::*;

use crate::ids::{fresh_uuid, now_millis, parse_uuid, render_uuid, uuid_of, uuid_text};
use crate::messages::{ClientMessage, Float64, PeerListEntry, WsMessage, ONE_BITS, ZERO_BITS};
use crate::protocol::{ProtocolMessage, ResourceKind, Topic, Vote};

verus! {

/// Milliseconds in a day: how long a new proposal stays open.
pub const DAY_MILLIS: i64 = 86_400_000;

/// Votes needed for a new proposal to be decided.
pub const INITIAL_QUORUM: u32 = 3;

/// What the relay's node says of itself.
#[derive(Debug, Clone)]
pub struct NodeIdentity {
    /// The local peer's network identity.
    pub peer_id: String,
    /// The local display name.
    pub node_name: String,
}

/// The values that one translation draws from randomness and the clock.
#[derive(Debug, Clone, PartialEq)]
pub struct Draws {
    /// Identifier of the echoed event, in text form.
    pub echo_id: String,
    /// Identifier carried by the published message (a vouch request's id, a
    /// transfer's placeholder credit line).
    pub message_id: u128,
    /// `message_id` in text form.
    pub message_id_text: String,
    /// The current time in milliseconds since the Unix epoch.
    pub now: i64,
}

/// Whether the text forms in `d` are those of UUIDs: of `message_id` for
/// `message_id_text`, of some UUID for `echo_id`.
pub open spec fn draws_rendered(d: Draws) -> bool {
    &&& d.message_id_text@ == uuid_text(d.message_id)
    &&& exists|v: u128| d.echo_id@ == #[trigger] uuid_text(v)
}

/// What the relay does for one client command.
#[derive(Debug, Clone, PartialEq)]
pub enum Dispatch {
    /// Publish `message` on `topic`; once that succeeded, broadcast `echo`.
    Publish { topic: Topic, message: ProtocolMessage, echo: WsMessage },
    /// Answer with the peer list from the store.
    ListPeers,
    /// Answer with network statistics.
    ReportStats,
    /// Subscribe the node to a topic; nothing is echoed.
    SubscribeTopic { topic: String },
    /// The command names an identifier that is not a UUID: it is dropped.
    InvalidIdentifier,
}

/// The event broadcast after `dispatch`, given whether its publish succeeded.
pub open spec fn echo_of(dispatch: Dispatch, published: bool) -> Option<WsMessage> {
    match dispatch {
        Dispatch::Publish { echo, .. } => if published { Some(echo) } else { None },
        _ => None,
    }
}

/// The vote that a vote text stands for; the match is case-sensitive.
pub open spec fn vote_of(s: Seq<char>) -> Vote {
    if s == "yes"@ {
        Vote::For
    } else if s == "no"@ {
        Vote::Against
    } else {
        Vote::Abstain
    }
}

/// Whether `k` is the resource kind that the text `s` names.
pub open spec fn names_resource(s: String, k: ResourceKind) -> bool {
    if s@ == "bandwidth"@ {
        k is Bandwidth
    } else if s@ == "storage"@ {
        k is Storage
    } else if s@ == "compute"@ {
        k is Compute
    } else {
        k == ResourceKind::Other(s)
    }
}

/// The deadline of a proposal made at `now`: a day later, or the latest
/// representable time.
pub open spec fn deadline_after(now: i64) -> i64 {
    if now <= i64::MAX - DAY_MILLIS {
        (now + DAY_MILLIS) as i64
    } else {
        i64::MAX
    }
}

/// The topic that a command publishes on, if it publishes.
pub open spec fn topic_of(cmd: ClientMessage) -> Option<Topic> {
    match cmd {
        ClientMessage::SendChat { to, .. } => Some(if to is Some { Topic::Direct } else { Topic::Chat }),
        ClientMessage::SendVouch { .. } | ClientMessage::RespondVouch { .. } => Some(Topic::Vouch),
        ClientMessage::CreateCreditLine { .. } | ClientMessage::TransferCredit { .. } => Some(Topic::Credit),
        ClientMessage::CreateProposal { .. } | ClientMessage::CastVote { .. } => Some(Topic::Governance),
        ClientMessage::ReportResource { .. } => Some(Topic::Resource),
        _ => None,
    }
}

/// The identifier text that a command must carry, if it must carry one.
pub open spec fn required_id(cmd: ClientMessage) -> Option<Seq<char>> {
    match cmd {
        ClientMessage::RespondVouch { request_id, .. } => Some(request_id@),
        ClientMessage::CastVote { proposal_id, .. } => Some(proposal_id@),
        _ => None,
    }
}

/// The UUID that the identifier a command must carry spells, if it must
/// carry one and it spells one.
pub open spec fn parsed_id(cmd: ClientMessage) -> Option<u128> {
    match required_id(cmd) {
        Some(s) => uuid_of(s),
        None => None,
    }
}

/// Whether `cmd` is dropped for its identifier, given what that identifier
/// parsed to.
pub open spec fn has_invalid_id(cmd: ClientMessage, parsed: Option<u128>) -> bool {
    required_id(cmd) is Some && parsed is None
}

/// Whether `msg` and `echo` are what `cmd` publishes and echoes, when sent by
/// `node` with the drawn values `d`, its identifier having parsed to `parsed`.
pub open spec fn publishes(
    cmd: ClientMessage,
    parsed: Option<u128>,
    node: NodeIdentity,
    d: Draws,
    msg: ProtocolMessage,
    echo: WsMessage,
) -> bool {
    let me = node.peer_id;
    match cmd {
        ClientMessage::SendChat { content, to } => {
            msg == (ProtocolMessage::Content { from: me, text: content })
            && match echo {
                WsMessage::ChatMessage { id, from, from_name, to: echo_to, content: echo_content, timestamp } =>
                    id == d.echo_id && from == me && from_name == node.node_name
                    && echo_to == to && echo_content == content && timestamp == d.now,
                _ => false,
            }
        },
        ClientMessage::SendVouch { vouchee, weight, message } => {
            msg == (ProtocolMessage::VouchRequest { id: d.message_id, voucher: me, vouchee, stake: weight, message })
            && match echo {
                WsMessage::VouchRequest { id, voucher, vouchee: echo_vouchee, weight: echo_weight, timestamp } =>
                    id == d.message_id_text && voucher == me && echo_vouchee == vouchee
                    && echo_weight == weight && timestamp == d.now,
                _ => false,
            }
        },
        ClientMessage::RespondVouch { request_id, accept } => {
            parsed is Some
            && msg == (ProtocolMessage::VouchAck {
                vouch_id: parsed->Some_0, from: me, accepted: accept, timestamp: d.now })
            && match echo {
                WsMessage::VouchAck { id, request_id: echo_request, accepted, new_reputation, timestamp } =>
                    id == d.echo_id && echo_request == request_id && accepted == accept
                    && new_reputation is None && timestamp == d.now,
                _ => false,
            }
        },
        ClientMessage::CreateCreditLine { debtor, limit } => {
            msg == (ProtocolMessage::CreateCreditLine { creditor: me, debtor, limit })
            && match echo {
                WsMessage::CreditLine { id, creditor, debtor: echo_debtor, limit: echo_limit, balance, timestamp } =>
                    id == d.echo_id && creditor == me && echo_debtor == debtor
                    && echo_limit == limit && balance.bits == ZERO_BITS && timestamp == d.now,
                _ => false,
            }
        },
        ClientMessage::TransferCredit { to, amount, memo } => {
            msg == (ProtocolMessage::CreditTransfer { line_id: d.message_id, from: me, to, amount, memo })
            && match echo {
                WsMessage::CreditTransfer { id, from, to: echo_to, amount: echo_amount, memo: echo_memo, timestamp } =>
                    id == d.echo_id && from == me && echo_to == to && echo_amount == amount
                    && echo_memo == memo && timestamp == d.now,
                _ => false,
            }
        },
        ClientMessage::CreateProposal { title, description, proposal_type } => {
            msg == (ProtocolMessage::CreateProposal { proposer: me, title, description })
            && match echo {
                WsMessage::Proposal {
                    id, proposer, title: echo_title, description: echo_description,
                    proposal_type: echo_type, status, yes_votes, no_votes, quorum, deadline, timestamp,
                } =>
                    id == d.echo_id && proposer == me && echo_title == title
                    && echo_description == description && echo_type == proposal_type
                    && status@ == "active"@ && yes_votes == 0 && no_votes == 0
                    && quorum == INITIAL_QUORUM && deadline == deadline_after(d.now) && timestamp == d.now,
                _ => false,
            }
        },
        ClientMessage::CastVote { proposal_id, vote } => {
            parsed is Some
            && msg == (ProtocolMessage::CastVote {
                proposal_id: parsed->Some_0, voter: me, vote: vote_of(vote@),
                weight: Float64 { bits: ONE_BITS } })
            && match echo {
                WsMessage::VoteCast { id, proposal_id: echo_proposal, voter, vote: echo_vote, weight, timestamp } =>
                    id == d.echo_id && echo_proposal == proposal_id && voter == me
                    && echo_vote == vote && weight.bits == ONE_BITS && timestamp == d.now,
                _ => false,
            }
        },
        ClientMessage::ReportResource { resource_type, amount, unit } => {
            (match msg {
                ProtocolMessage::ResourceContribution { peer_id, resource, amount: msg_amount, unit: msg_unit } =>
                    peer_id == me && names_resource(resource_type, resource) && msg_amount == amount
                    && msg_unit == unit,
                _ => false,
            })
            && match echo {
                WsMessage::ResourceContribution { id, peer_id, resource_type: echo_type, amount: echo_amount, unit: echo_unit, timestamp } =>
                    id == d.echo_id && peer_id == me && echo_type == resource_type
                    && echo_amount == amount && echo_unit == unit && timestamp == d.now,
                _ => false,
            }
        },
        _ => false,
    }
}

/// Whether `r` is what the relay does for `cmd`, sent by `node` with the
/// drawn values `d`, the identifier that `cmd` carries having parsed to
/// `parsed` (of no account for a command that carries none).
pub open spec fn is_dispatch_with(cmd: ClientMessage, parsed: Option<u128>, node: NodeIdentity, d: Draws, r: Dispatch) -> bool {
    match cmd {
        ClientMessage::GetPeers => r is ListPeers,
        ClientMessage::GetStats => r is ReportStats,
        ClientMessage::Subscribe { topic } => r == Dispatch::SubscribeTopic { topic },
        _ => if has_invalid_id(cmd, parsed) {
            r is InvalidIdentifier
        } else {
            match r {
                Dispatch::Publish { topic, message, echo } =>
                    topic_of(cmd) == Some(topic) && publishes(cmd, parsed, node, d, message, echo),
                _ => false,
            }
        },
    }
}

/// Whether `r` is what the relay does for `cmd`, sent by `node` with the
/// drawn values `d`.
pub open spec fn is_dispatch(cmd: ClientMessage, node: NodeIdentity, d: Draws, r: Dispatch) -> bool {
    is_dispatch_with(cmd, parsed_id(cmd), node, d, r)
}

/// The vote that a vote text stands for.
pub fn parse_vote(vote: &String) -> (r: Vote)
    ensures
        r == vote_of(vote@),
{
    if *vote == "yes".to_owned() {
        Vote::For
    } else if *vote == "no".to_owned() {
        Vote::Against
    } else {
        Vote::Abstain
    }
}

/// The resource kind that a text names; any other text is kept as it is.
pub fn parse_resource_kind(resource_type: &String) -> (r: ResourceKind)
    ensures
        names_resource(*resource_type, r),
{
    if *resource_type == "bandwidth".to_owned() {
        ResourceKind::Bandwidth
    } else if *resource_type == "storage".to_owned() {
        ResourceKind::Storage
    } else if *resource_type == "compute".to_owned() {
        ResourceKind::Compute
    } else {
        ResourceKind::Other(resource_type.clone())
    }
}

/// The deadline of a proposal made at `now`.
pub fn proposal_deadline(now: i64) -> (r: i64)
    ensures
        r == deadline_after(now),
{
    if now <= i64::MAX - DAY_MILLIS {
        now + DAY_MILLIS
    } else {
        i64::MAX
    }
}

/// What the relay does for `cmd`, sent by `node`, with the values `d` drawn
/// from randomness and the clock: `translate_parsed` with the UUID that the
/// command's identifier spells.
pub fn translate(cmd: ClientMessage, node: &NodeIdentity, d: &Draws) -> (r: Dispatch)
    ensures
        is_dispatch(cmd, *node, *d, r),
{
    let parsed = match &cmd {
        ClientMessage::RespondVouch { request_id, .. } => parse_uuid(request_id.as_str()),
        ClientMessage::CastVote { proposal_id, .. } => parse_uuid(proposal_id.as_str()),
        _ => None,
    };
    translate_parsed(cmd, parsed, node, d)
}

/// What the relay does for `cmd`, sent by `node`, with the values `d` drawn
/// from randomness and the clock, where `parsed` is the UUID that the
/// identifier carried by a vouch answer or a vote spells, if it spells one.
///
/// A command that publishes yields exactly one publish, on the topic that
/// the command fixes, with the echo built from the same values. A vouch
/// answer or a vote whose identifier is not a UUID is dropped.
pub fn translate_parsed(cmd: ClientMessage, parsed: Option<u128>, node: &NodeIdentity, d: &Draws) -> (r: Dispatch)
    ensures
        is_dispatch_with(cmd, parsed, *node, *d, r),
{
    match cmd {
        ClientMessage::GetPeers => Dispatch::ListPeers,
        ClientMessage::GetStats => Dispatch::ReportStats,
        ClientMessage::Subscribe { topic } => Dispatch::SubscribeTopic { topic },
        ClientMessage::SendChat { content, to } => {
            let topic = if to.is_some() { Topic::Direct } else { Topic::Chat };
            let message = ProtocolMessage::Content { from: node.peer_id.clone(), text: content.clone() };
            let echo = WsMessage::ChatMessage {
                id: d.echo_id.clone(),
                from: node.peer_id.clone(),
                from_name: node.node_name.clone(),
                to,
                content,
                timestamp: d.now,
            };
            Dispatch::Publish { topic, message, echo }
        },
        ClientMessage::SendVouch { vouchee, weight, message } => {
            let request = ProtocolMessage::VouchRequest {
                id: d.message_id,
                voucher: node.peer_id.clone(),
                vouchee: vouchee.clone(),
                stake: weight,
                message,
            };
            let echo = WsMessage::VouchRequest {
                id: d.message_id_text.clone(),
                voucher: node.peer_id.clone(),
                vouchee,
                weight,
                timestamp: d.now,
            };
            Dispatch::Publish { topic: Topic::Vouch, message: request, echo }
        },
        ClientMessage::RespondVouch { request_id, accept } => {
            match parsed {
                None => Dispatch::InvalidIdentifier,
                Some(vouch_id) => {
                    let ack = ProtocolMessage::VouchAck {
                        vouch_id,
                        from: node.peer_id.clone(),
                        accepted: accept,
                        timestamp: d.now,
                    };
                    let echo = WsMessage::VouchAck {
                        id: d.echo_id.clone(),
                        request_id,
                        accepted: accept,
                        new_reputation: None,
                        timestamp: d.now,
                    };
                    Dispatch::Publish { topic: Topic::Vouch, message: ack, echo }
                },
            }
        },
        ClientMessage::CreateCreditLine { debtor, limit } => {
            let line = ProtocolMessage::CreateCreditLine {
                creditor: node.peer_id.clone(),
                debtor: debtor.clone(),
                limit,
            };
            let echo = WsMessage::CreditLine {
                id: d.echo_id.clone(),
                creditor: node.peer_id.clone(),
                debtor,
                limit,
                balance: Float64::zero(),
                timestamp: d.now,
            };
            Dispatch::Publish { topic: Topic::Credit, message: line, echo }
        },
        ClientMessage::TransferCredit { to, amount, memo } => {
            let transfer = ProtocolMessage::CreditTransfer {
                line_id: d.message_id,
                from: node.peer_id.clone(),
                to: to.clone(),
                amount,
                memo: clone_text(&memo),
            };
            let echo = WsMessage::CreditTransfer {
                id: d.echo_id.clone(),
                from: node.peer_id.clone(),
                to,
                amount,
                memo,
                timestamp: d.now,
            };
            Dispatch::Publish { topic: Topic::Credit, message: transfer, echo }
        },
        ClientMessage::CreateProposal { title, description, proposal_type } => {
            let proposal = ProtocolMessage::CreateProposal {
                proposer: node.peer_id.clone(),
                title: title.clone(),
                description: description.clone(),
            };
            let echo = WsMessage::Proposal {
                id: d.echo_id.clone(),
                proposer: node.peer_id.clone(),
                title,
                description,
                proposal_type,
                status: "active".to_owned(),
                yes_votes: 0,
                no_votes: 0,
                quorum: INITIAL_QUORUM,
                deadline: proposal_deadline(d.now),
                timestamp: d.now,
            };
            Dispatch::Publish { topic: Topic::Governance, message: proposal, echo }
        },
        ClientMessage::CastVote { proposal_id, vote } => {
            match parsed {
                None => Dispatch::InvalidIdentifier,
                Some(id) => {
                    let ballot = ProtocolMessage::CastVote {
                        proposal_id: id,
                        voter: node.peer_id.clone(),
                        vote: parse_vote(&vote),
                        weight: Float64::one(),
                    };
                    let echo = WsMessage::VoteCast {
                        id: d.echo_id.clone(),
                        proposal_id,
                        voter: node.peer_id.clone(),
                        vote,
                        weight: Float64::one(),
                        timestamp: d.now,
                    };
                    Dispatch::Publish { topic: Topic::Governance, message: ballot, echo }
                },
            }
        },
        ClientMessage::ReportResource { resource_type, amount, unit } => {
            let contribution = ProtocolMessage::ResourceContribution {
                peer_id: node.peer_id.clone(),
                resource: parse_resource_kind(&resource_type),
                amount,
                unit: unit.clone(),
            };
            let echo = WsMessage::ResourceContribution {
                id: d.echo_id.clone(),
                peer_id: node.peer_id.clone(),
                resource_type,
                amount,
                unit,
                timestamp: d.now,
            };
            Dispatch::Publish { topic: Topic::Resource, message: contribution, echo }
        },
    }
}

/// A copy of an optional text.
fn clone_text(t: &Option<String>) -> (r: Option<String>)
    ensures
        r == *t,
{
    match t {
        Some(s) => Some(s.clone()),
        None => None,
    }
}

/// What the relay does for `cmd`, sent by `node`, with fresh identifiers and
/// the current time: `translate` for some values drawn from randomness and
/// the clock.
pub fn dispatch_command(cmd: ClientMessage, node: &NodeIdentity) -> (r: Dispatch)
    ensures
        exists|d: Draws| draws_rendered(d) && #[trigger] is_dispatch(cmd, *node, d, r),
{
    let echo_id = fresh_uuid();
    let message_id = fresh_uuid();
    let d = Draws {
        echo_id: render_uuid(echo_id),
        message_id,
        message_id_text: render_uuid(message_id),
        now: now_millis(),
    };
    let r = translate(cmd, node, &d);
    assert(d.echo_id@ == uuid_text(echo_id));
    assert(draws_rendered(d) && is_dispatch(cmd, *node, d, r));
    r
}

/// The event to broadcast once the publish that `dispatch` asked for has
/// been tried: its echo if the publish succeeded, nothing if it failed or
/// if `dispatch` asked for no publish.
pub fn echo_after_publish(dispatch: Dispatch, published: bool) -> (r: Option<WsMessage>)
    ensures
        r == echo_of(dispatch, published),
{
    match dispatch {
        Dispatch::Publish { echo, .. } => if published { Some(echo) } else { None },
        _ => None,
    }
}

/// The answer to a peer-list request, given what the store returned: the
/// list of its peers, or nothing when the store failed.
pub fn peers_event(peers: Option<Vec<PeerListEntry>>) -> (r: Option<WsMessage>)
    ensures
        match peers {
            Some(p) => r == Some(WsMessage::PeersList { peers: p }),
            None => r is None,
        },
{
    match peers {
        Some(p) => Some(WsMessage::PeersList { peers: p }),
        None => None,
    }
}

/// The answer to a statistics request: the number of peers in the store,
/// the messages seen and the uptime, or nothing when the store failed.
pub fn stats_event(peer_count: Option<usize>, message_count: u64, uptime_seconds: u64) -> (r: Option<WsMessage>)
    ensures
        r == match peer_count {
            Some(n) => Some(WsMessage::Stats { peer_count: n, message_count, uptime_seconds }),
            None => None,
        },
{
    match peer_count {
        Some(n) => Some(WsMessage::Stats { peer_count: n, message_count, uptime_seconds }),
        None => None,
    }
}

/// A command that publishes yields exactly one publish, on the topic that the
/// command fixes, and its echo is broadcast exactly when that publish
/// succeeded; a command that does not publish yields neither.
pub proof fn lemma_one_publish_one_echo(
    cmd: ClientMessage,
    parsed: Option<u128>,
    node: NodeIdentity,
    d: Draws,
    r: Dispatch,
    published: bool,
)
    requires
        is_dispatch_with(cmd, parsed, node, d, r),
        !has_invalid_id(cmd, parsed),
    ensures
        topic_of(cmd) is Some <==> r is Publish,
        r is Publish ==> Some(r->Publish_topic) == topic_of(cmd),
        r is Publish ==> publishes(cmd, parsed, node, d, r->Publish_message, r->Publish_echo),
        echo_of(r, published) is Some <==> (r is Publish && published),
        r is Publish && published ==> echo_of(r, published) == Some(r->Publish_echo),
{
}

/// A vouch answer or a vote whose identifier is not a UUID publishes nothing
/// and broadcasts nothing.
pub proof fn lemma_invalid_id_is_dropped(cmd: ClientMessage, node: NodeIdentity, d: Draws, r: Dispatch, published: bool)
    requires
        is_dispatch(cmd, node, d, r),
        required_id(cmd) is Some,
        uuid_of(required_id(cmd)->Some_0) is None,
    ensures
        r is InvalidIdentifier,
        !(r is Publish),
        echo_of(r, published) is None,
{
}

/// A vote whose text is neither `yes` nor `no` is an abstention, and every
/// vote is published and echoed with weight one.
pub proof fn lemma_vote_weight_and_abstain(cmd: ClientMessage, parsed: Option<u128>, node: NodeIdentity, d: Draws, r: Dispatch)
    requires
        is_dispatch_with(cmd, parsed, node, d, r),
        cmd is CastVote,
        r is Publish,
    ensures
        r->Publish_message is CastVote,
        r->Publish_message->CastVote_weight.bits == ONE_BITS,
        r->Publish_echo is VoteCast,
        r->Publish_echo->VoteCast_weight.bits == ONE_BITS,
        r->Publish_echo->VoteCast_vote == cmd->CastVote_vote,
        cmd->CastVote_vote@ != "yes"@ && cmd->CastVote_vote@ != "no"@ ==> r->Publish_message->CastVote_vote == Vote::Abstain,
{
}

/// A resource report whose type is not one of `bandwidth`, `storage` and
/// `compute` is published as that other kind, and echoed with its type text
/// kept as it was.
pub proof fn lemma_other_resource_kept(cmd: ClientMessage, parsed: Option<u128>, node: NodeIdentity, d: Draws, r: Dispatch)
    requires
        is_dispatch_with(cmd, parsed, node, d, r),
        cmd is ReportResource,
        cmd->ReportResource_resource_type@ != "bandwidth"@,
        cmd->ReportResource_resource_type@ != "storage"@,
        cmd->ReportResource_resource_type@ != "compute"@,
    ensures
        r is Publish,
        r->Publish_message is ResourceContribution,
        r->Publish_message->ResourceContribution_resource == ResourceKind::Other(cmd->ReportResource_resource_type),
        r->Publish_echo is ResourceContribution,
        r->Publish_echo->ResourceContribution_resource_type == cmd->ReportResource_resource_type,
{
}

} // verus!
