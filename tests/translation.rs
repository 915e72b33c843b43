use mycelial_relay::messages::{ClientMessage, Float64, PeerListEntry, WsMessage, ONE_BITS, ZERO_BITS};
use mycelial_relay::protocol::{ProtocolMessage, ResourceKind, Topic, Vote};
use mycelial_relay::translator::{
    dispatch_command, echo_after_publish, parse_resource_kind, parse_vote, peers_event, proposal_deadline,
    stats_event, translate, translate_parsed, Dispatch, Draws, NodeIdentity, DAY_MILLIS, INITIAL_QUORUM,
};

const PROPOSAL_UUID: &str = "550e8400-e29b-41d4-a716-446655440000";

fn node() -> NodeIdentity {
    NodeIdentity { peer_id: "12D3KooWLocal".to_string(), node_name: "alice".to_string() }
}

fn draws() -> Draws {
    Draws {
        echo_id: text_of(0x1111_2222_3333_4444_5555_6666_7777_8888),
        message_id: 0xabcd,
        message_id_text: text_of(0xabcd),
        now: 1_700_000_000_000,
    }
}

fn text_of(v: u128) -> String {
    uuid::Uuid::from_u128(v).to_string()
}

fn num(x: f64) -> Float64 {
    Float64::from_bits(x.to_bits())
}

fn publish_parts(d: Dispatch) -> (Topic, ProtocolMessage, WsMessage) {
    match d {
        Dispatch::Publish { topic, message, echo } => (topic, message, echo),
        other => panic!("expected a publish, got {:?}", other),
    }
}

#[test]
fn send_chat_to_everyone_publishes_on_chat_and_echoes() {
    let d = draws();
    let cmd = ClientMessage::SendChat { content: "hi".to_string(), to: None };
    let (topic, message, echo) = publish_parts(translate(cmd, &node(), &d));
    assert_eq!(topic, Topic::Chat);
    assert_eq!(topic.name(), "/mycelial/1.0.0/chat");
    assert_eq!(message, ProtocolMessage::Content { from: "12D3KooWLocal".to_string(), text: "hi".to_string() });
    assert_eq!(
        echo,
        WsMessage::ChatMessage {
            id: d.echo_id.clone(),
            from: "12D3KooWLocal".to_string(),
            from_name: "alice".to_string(),
            to: None,
            content: "hi".to_string(),
            timestamp: 1_700_000_000_000,
        }
    );
}

#[test]
fn send_chat_to_one_peer_uses_direct_topic() {
    let cmd = ClientMessage::SendChat { content: "psst".to_string(), to: Some("bob".to_string()) };
    let (topic, _, echo) = publish_parts(translate(cmd, &node(), &draws()));
    assert_eq!(topic, Topic::Direct);
    assert_eq!(topic.name(), "/mycelial/1.0.0/direct");
    match echo {
        WsMessage::ChatMessage { to, content, .. } => {
            assert_eq!(to, Some("bob".to_string()));
            assert_eq!(content, "psst");
        }
        other => panic!("unexpected echo {:?}", other),
    }
}

#[test]
fn echo_only_after_successful_publish() {
    let cmd = ClientMessage::SendChat { content: "hi".to_string(), to: None };
    let d = translate(cmd, &node(), &draws());
    let (_, _, echo) = publish_parts(d.clone());
    assert_eq!(echo_after_publish(d.clone(), true), Some(echo));
    assert_eq!(echo_after_publish(d, false), None);
    assert_eq!(echo_after_publish(Dispatch::ListPeers, true), None);
}

#[test]
fn cast_vote_with_bad_id_is_dropped() {
    let cmd = ClientMessage::CastVote { proposal_id: "not-a-uuid".to_string(), vote: "yes".to_string() };
    let d = translate(cmd, &node(), &draws());
    assert_eq!(d, Dispatch::InvalidIdentifier);
    assert_eq!(echo_after_publish(d.clone(), true), None);
    assert_eq!(echo_after_publish(d, false), None);
}

#[test]
fn respond_vouch_with_bad_id_is_dropped() {
    let cmd = ClientMessage::RespondVouch { request_id: "1234".to_string(), accept: true };
    assert_eq!(translate(cmd, &node(), &draws()), Dispatch::InvalidIdentifier);
}

#[test]
fn respond_vouch_acknowledges_parsed_request() {
    let d = draws();
    let cmd = ClientMessage::RespondVouch { request_id: PROPOSAL_UUID.to_string(), accept: false };
    let (topic, message, echo) = publish_parts(translate(cmd, &node(), &d));
    assert_eq!(topic, Topic::Vouch);
    assert_eq!(
        message,
        ProtocolMessage::VouchAck {
            vouch_id: 0x550e8400_e29b_41d4_a716_446655440000,
            from: "12D3KooWLocal".to_string(),
            accepted: false,
            timestamp: d.now,
        }
    );
    assert_eq!(
        echo,
        WsMessage::VouchAck {
            id: d.echo_id.clone(),
            request_id: PROPOSAL_UUID.to_string(),
            accepted: false,
            new_reputation: None,
            timestamp: d.now,
        }
    );
}

#[test]
fn cast_vote_maps_text_and_fixes_weight() {
    let cases = [("yes", Vote::For), ("no", Vote::Against), ("maybe", Vote::Abstain), ("Yes", Vote::Abstain), ("", Vote::Abstain)];
    for (text, expected) in cases {
        let d = draws();
        let cmd = ClientMessage::CastVote { proposal_id: PROPOSAL_UUID.to_string(), vote: text.to_string() };
        let (topic, message, echo) = publish_parts(translate(cmd, &node(), &d));
        assert_eq!(topic, Topic::Governance);
        assert_eq!(
            message,
            ProtocolMessage::CastVote {
                proposal_id: 0x550e8400_e29b_41d4_a716_446655440000,
                voter: "12D3KooWLocal".to_string(),
                vote: expected,
                weight: num(1.0),
            }
        );
        assert_eq!(
            echo,
            WsMessage::VoteCast {
                id: d.echo_id.clone(),
                proposal_id: PROPOSAL_UUID.to_string(),
                voter: "12D3KooWLocal".to_string(),
                vote: text.to_string(),
                weight: num(1.0),
                timestamp: d.now,
            }
        );
    }
}

#[test]
fn parse_vote_is_case_sensitive() {
    assert_eq!(parse_vote(&"yes".to_string()), Vote::For);
    assert_eq!(parse_vote(&"no".to_string()), Vote::Against);
    assert_eq!(parse_vote(&"NO".to_string()), Vote::Abstain);
    assert_eq!(parse_vote(&"abstain".to_string()), Vote::Abstain);
}

#[test]
fn weight_constants_are_doubles() {
    assert_eq!(ONE_BITS, 1.0f64.to_bits());
    assert_eq!(ZERO_BITS, 0.0f64.to_bits());
    assert_eq!(Float64::one(), num(1.0));
    assert_eq!(Float64::zero(), num(0.0));
}

#[test]
fn report_resource_keeps_unknown_type() {
    let d = draws();
    let cmd = ClientMessage::ReportResource { resource_type: "gpu".to_string(), amount: num(2.5), unit: "hours".to_string() };
    let (topic, message, echo) = publish_parts(translate(cmd, &node(), &d));
    assert_eq!(topic, Topic::Resource);
    assert_eq!(
        message,
        ProtocolMessage::ResourceContribution {
            peer_id: "12D3KooWLocal".to_string(),
            resource: ResourceKind::Other("gpu".to_string()),
            amount: num(2.5),
            unit: "hours".to_string(),
        }
    );
    assert_eq!(
        echo,
        WsMessage::ResourceContribution {
            id: d.echo_id.clone(),
            peer_id: "12D3KooWLocal".to_string(),
            resource_type: "gpu".to_string(),
            amount: num(2.5),
            unit: "hours".to_string(),
            timestamp: d.now,
        }
    );
}

#[test]
fn resource_kinds_by_name() {
    assert_eq!(parse_resource_kind(&"bandwidth".to_string()), ResourceKind::Bandwidth);
    assert_eq!(parse_resource_kind(&"storage".to_string()), ResourceKind::Storage);
    assert_eq!(parse_resource_kind(&"compute".to_string()), ResourceKind::Compute);
    assert_eq!(parse_resource_kind(&"Compute".to_string()), ResourceKind::Other("Compute".to_string()));
}

#[test]
fn send_vouch_echo_carries_request_id() {
    let d = draws();
    let cmd = ClientMessage::SendVouch { vouchee: "bob".to_string(), weight: num(0.5), message: Some("trusted".to_string()) };
    let (topic, message, echo) = publish_parts(translate(cmd, &node(), &d));
    assert_eq!(topic, Topic::Vouch);
    assert_eq!(
        message,
        ProtocolMessage::VouchRequest {
            id: d.message_id,
            voucher: "12D3KooWLocal".to_string(),
            vouchee: "bob".to_string(),
            stake: num(0.5),
            message: Some("trusted".to_string()),
        }
    );
    assert_eq!(
        echo,
        WsMessage::VouchRequest {
            id: d.message_id_text.clone(),
            voucher: "12D3KooWLocal".to_string(),
            vouchee: "bob".to_string(),
            weight: num(0.5),
            timestamp: d.now,
        }
    );
}

#[test]
fn credit_line_opens_at_zero_balance() {
    let d = draws();
    let cmd = ClientMessage::CreateCreditLine { debtor: "bob".to_string(), limit: num(100.0) };
    let (topic, message, echo) = publish_parts(translate(cmd, &node(), &d));
    assert_eq!(topic, Topic::Credit);
    assert_eq!(
        message,
        ProtocolMessage::CreateCreditLine { creditor: "12D3KooWLocal".to_string(), debtor: "bob".to_string(), limit: num(100.0) }
    );
    assert_eq!(
        echo,
        WsMessage::CreditLine {
            id: d.echo_id.clone(),
            creditor: "12D3KooWLocal".to_string(),
            debtor: "bob".to_string(),
            limit: num(100.0),
            balance: num(0.0),
            timestamp: d.now,
        }
    );
}

#[test]
fn transfer_uses_placeholder_line_and_keeps_memo() {
    let d = draws();
    let cmd = ClientMessage::TransferCredit { to: "bob".to_string(), amount: num(7.25), memo: Some("lunch".to_string()) };
    let (topic, message, echo) = publish_parts(translate(cmd, &node(), &d));
    assert_eq!(topic, Topic::Credit);
    assert_eq!(
        message,
        ProtocolMessage::CreditTransfer {
            line_id: d.message_id,
            from: "12D3KooWLocal".to_string(),
            to: "bob".to_string(),
            amount: num(7.25),
            memo: Some("lunch".to_string()),
        }
    );
    assert_eq!(
        echo,
        WsMessage::CreditTransfer {
            id: d.echo_id.clone(),
            from: "12D3KooWLocal".to_string(),
            to: "bob".to_string(),
            amount: num(7.25),
            memo: Some("lunch".to_string()),
            timestamp: d.now,
        }
    );
}

#[test]
fn proposal_echo_has_initial_policy() {
    let d = draws();
    let cmd = ClientMessage::CreateProposal {
        title: "More storage".to_string(),
        description: "Double it".to_string(),
        proposal_type: "text".to_string(),
    };
    let (topic, message, echo) = publish_parts(translate(cmd, &node(), &d));
    assert_eq!(topic, Topic::Governance);
    assert_eq!(
        message,
        ProtocolMessage::CreateProposal {
            proposer: "12D3KooWLocal".to_string(),
            title: "More storage".to_string(),
            description: "Double it".to_string(),
        }
    );
    assert_eq!(
        echo,
        WsMessage::Proposal {
            id: d.echo_id.clone(),
            proposer: "12D3KooWLocal".to_string(),
            title: "More storage".to_string(),
            description: "Double it".to_string(),
            proposal_type: "text".to_string(),
            status: "active".to_string(),
            yes_votes: 0,
            no_votes: 0,
            quorum: 3,
            deadline: 1_700_000_000_000 + 86_400_000,
            timestamp: 1_700_000_000_000,
        }
    );
    assert_eq!(INITIAL_QUORUM, 3);
}

#[test]
fn proposal_deadline_saturates() {
    assert_eq!(proposal_deadline(0), 86_400_000);
    assert_eq!(proposal_deadline(-86_400_000), 0);
    assert_eq!(proposal_deadline(i64::MAX - DAY_MILLIS), i64::MAX);
    assert_eq!(proposal_deadline(i64::MAX - 1), i64::MAX);
}

#[test]
fn requests_bypass_the_network() {
    assert_eq!(translate(ClientMessage::GetPeers, &node(), &draws()), Dispatch::ListPeers);
    assert_eq!(translate(ClientMessage::GetStats, &node(), &draws()), Dispatch::ReportStats);
    assert_eq!(
        translate(ClientMessage::Subscribe { topic: "/x".to_string() }, &node(), &draws()),
        Dispatch::SubscribeTopic { topic: "/x".to_string() }
    );
}

#[test]
fn store_answers() {
    let entry = PeerListEntry::from_peer("p1".to_string(), Some("bob".to_string()), vec!["/ip4/1.2.3.4".to_string()], num(0.75));
    assert_eq!(entry.id, "p1");
    assert_eq!(entry.reputation, num(0.75));
    assert_eq!(peers_event(Some(vec![entry.clone()])), Some(WsMessage::PeersList { peers: vec![entry] }));
    assert_eq!(peers_event(None), None);
    assert_eq!(stats_event(Some(4), 10, 60), Some(WsMessage::Stats { peer_count: 4, message_count: 10, uptime_seconds: 60 }));
    assert_eq!(stats_event(Some(0), 10, 60), Some(WsMessage::Stats { peer_count: 0, message_count: 10, uptime_seconds: 60 }));
    assert_eq!(stats_event(None, 10, 60), None);
}

#[test]
fn dispatch_draws_fresh_identifiers() {
    let cmd = ClientMessage::SendChat { content: "hi".to_string(), to: None };
    let (_, _, first) = publish_parts(dispatch_command(cmd.clone(), &node()));
    let (_, _, second) = publish_parts(dispatch_command(cmd, &node()));
    match (first, second) {
        (WsMessage::ChatMessage { id: a, .. }, WsMessage::ChatMessage { id: b, .. }) => {
            assert!(uuid::Uuid::parse_str(&a).is_ok());
            assert_eq!(a.len(), 36);
            for (i, c) in a.chars().enumerate() {
                if i == 8 || i == 13 || i == 18 || i == 23 {
                    assert_eq!(c, '-');
                } else {
                    assert!(c.is_ascii_digit() || ('a'..='f').contains(&c));
                }
            }
            assert_ne!(a, b);
        }
        other => panic!("unexpected echoes {:?}", other),
    }
}

#[test]
fn two_subscribers_see_the_same_echo_in_order() {
    let (tx, mut first) = tokio::sync::broadcast::channel::<WsMessage>(16);
    let mut second = tx.subscribe();
    let before = WsMessage::PeerLeft { peer_id: "carol".to_string() };
    tx.send(before.clone()).unwrap();
    let cmd = ClientMessage::SendChat { content: "hi".to_string(), to: None };
    let echo = echo_after_publish(dispatch_command(cmd, &node()), true).unwrap();
    tx.send(echo.clone()).unwrap();
    for rx in [&mut first, &mut second] {
        assert_eq!(rx.try_recv().unwrap(), before);
        assert_eq!(rx.try_recv().unwrap(), echo);
    }
}

#[test]
fn translate_parsed_uses_given_identifier() {
    let d = draws();
    let cmd = ClientMessage::CastVote { proposal_id: "anything".to_string(), vote: "no".to_string() };
    assert_eq!(translate_parsed(cmd.clone(), None, &node(), &d), Dispatch::InvalidIdentifier);
    let (_, message, _) = publish_parts(translate_parsed(cmd, Some(42), &node(), &d));
    assert_eq!(
        message,
        ProtocolMessage::CastVote { proposal_id: 42, voter: "12D3KooWLocal".to_string(), vote: Vote::Against, weight: num(1.0) }
    );
}

#[test]
fn uuid_text_forms_are_accepted() {
    let d = draws();
    for text in ["550E8400-E29B-41D4-A716-446655440000", "550e8400e29b41d4a716446655440000", "urn:uuid:550e8400-e29b-41d4-a716-446655440000"] {
        let cmd = ClientMessage::RespondVouch { request_id: text.to_string(), accept: true };
        let (_, message, echo) = publish_parts(translate(cmd, &node(), &d));
        match (message, echo) {
            (ProtocolMessage::VouchAck { vouch_id, .. }, WsMessage::VouchAck { request_id, .. }) => {
                assert_eq!(vouch_id, 0x550e8400_e29b_41d4_a716_446655440000);
                assert_eq!(request_id, text);
            }
            other => panic!("unexpected {:?}", other),
        }
    }
}
