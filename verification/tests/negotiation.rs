use capcom::capcom::{
    direct_post, relay_post, unknown_card, CapcomState, Delivery, InboundRequest, PeerEndpoint,
    ProposeRequest, RegisterPeerRequest, RelayConfig,
};
use capcom::error::{ApiError, CoreError, ErrorCode};
use capcom::protocol::{
    AgentCard, ApprovalDecision, ApprovalDirection, CapcomFrame, CapcomProposal, HoustonEvent,
    ProposalIntent,
};

fn card(id: &str, name: &str) -> AgentCard {
    AgentCard {
        id: id.to_string(),
        name: name.to_string(),
        role: "prospecting".to_string(),
        skills: vec!["email-outreach".to_string()],
        integrations: vec!["gmail".to_string()],
    }
}

fn peer(peer_id: &str, self_id: &str, url: &str, c: AgentCard) -> PeerEndpoint {
    PeerEndpoint {
        peer_id: peer_id.to_string(),
        self_id: self_id.to_string(),
        base_url: url.to_string(),
        token: format!("token-{peer_id}"),
        card: c,
    }
}

fn proposal(id: &str) -> CapcomProposal {
    CapcomProposal {
        proposal_id: id.to_string(),
        from_agent: "a".to_string(),
        to_agent: "b".to_string(),
        intent: ProposalIntent::LeadHandoff,
        subject: "Lead: Acme".to_string(),
        terms: "{\"leadEmail\":\"buyer@acme.com\",\"value\":5000}".to_string(),
        message: "Warm lead, handing off.".to_string(),
        requires_approval: true,
    }
}

fn decision(id: &str, approved: bool, reason: Option<&str>) -> ApprovalDecision {
    ApprovalDecision {
        proposal_id: id.to_string(),
        approved,
        reason: reason.map(|r| r.to_string()),
    }
}

fn bad_request_msg(e: &ApiError) -> Option<String> {
    match &e.0 {
        CoreError::BadRequest(m) => Some(m.clone()),
        _ => None,
    }
}

fn not_found_msg(e: &ApiError) -> Option<String> {
    match &e.0 {
        CoreError::NotFound(m) => Some(m.clone()),
        _ => None,
    }
}

/// Engine A knows B as "agent-b" and announces itself to B as "agent-a".
fn engine_a() -> CapcomState {
    let mut a = CapcomState::new();
    let ack = a.register_peer(RegisterPeerRequest {
        peer: peer("agent-b", "agent-a", "http://b.example", card("b", "Inbound")),
    });
    assert!(ack.ok);
    a
}

/// Engine B knows A as "agent-a" and announces itself to A as "agent-b".
fn engine_b() -> CapcomState {
    let mut b = CapcomState::new();
    b.register_peer(RegisterPeerRequest {
        peer: peer("agent-a", "agent-b", "http://a.example", card("a", "Outbound")),
    });
    b
}

#[test]
fn propose_to_unknown_peer_is_refused() {
    let mut a = CapcomState::new();
    let r = a.propose(ProposeRequest { to_peer_id: "nobody".to_string(), proposal: proposal("p1") });
    let e = r.err().expect("unknown peer must be refused");
    assert_eq!(bad_request_msg(&e).as_deref(), Some("unknown peer"));
    assert_eq!(e.status(), 400);
    assert!(a.pending_proposals().is_empty());
}

#[test]
fn propose_stages_outbound_gate() {
    let mut a = engine_a();
    let (ack, ev) = a
        .propose(ProposeRequest { to_peer_id: "agent-b".to_string(), proposal: proposal("p1") })
        .ok()
        .expect("known peer");
    assert!(ack.ok);
    match ev {
        HoustonEvent::ApprovalRequest(req) => {
            assert_eq!(req.proposal.proposal_id, "p1");
            assert_eq!(req.peer.name, "Inbound");
            assert_eq!(req.direction, ApprovalDirection::Outbound);
        }
        HoustonEvent::Toast { .. } => panic!("expected a gate"),
    }
    let list = a.pending_proposals();
    assert_eq!(list.len(), 1);
    assert_eq!(list[0].reply_to_peer_id, "agent-b");
    assert_eq!(list[0].direction, ApprovalDirection::Outbound);
}

#[test]
fn bilateral_handoff_end_to_end() {
    let mut a = engine_a();
    let mut b = engine_b();
    a.propose(ProposeRequest { to_peer_id: "agent-b".to_string(), proposal: proposal("p1") })
        .ok()
        .unwrap();

    // A's human approves: the proposal leaves for B, announced as "agent-a".
    let post = match a.approve(decision("p1", true, None)).ok().unwrap() {
        Delivery::Direct(p) => p,
        Delivery::Relay(_) => panic!("direct mode expected"),
    };
    assert_eq!(post.url, "http://b.example/v1/capcom/inbound");
    assert_eq!(post.bearer, "token-agent-b");
    assert_eq!(post.from_peer_id, "agent-a");
    assert!(matches!(&post.frame, CapcomFrame::Proposal { proposal } if proposal.proposal_id == "p1"));
    assert!(a.pending_proposals().is_empty());

    // B receives it: its own inbound gate, with A's registered card.
    let (ack, ev) = b.inbound(InboundRequest { from_peer_id: post.from_peer_id.clone(), frame: post.frame });
    assert!(ack.ok);
    match ev {
        Some(HoustonEvent::ApprovalRequest(req)) => {
            assert_eq!(req.direction, ApprovalDirection::Inbound);
            assert_eq!(req.peer.name, "Outbound");
            assert_eq!(req.proposal.subject, "Lead: Acme");
        }
        _ => panic!("expected B's gate"),
    }
    let pending_b = b.pending_proposals();
    assert_eq!(pending_b.len(), 1);
    assert_eq!(pending_b[0].reply_to_peer_id, "agent-a");

    // B's human approves: READY goes back to A.
    let back = match b.approve(decision("p1", true, None)).ok().unwrap() {
        Delivery::Direct(p) => p,
        Delivery::Relay(_) => panic!("direct mode expected"),
    };
    assert_eq!(back.url, "http://a.example/v1/capcom/inbound");
    assert_eq!(back.from_peer_id, "agent-b");
    assert!(matches!(&back.frame, CapcomFrame::Ready { proposal_id } if proposal_id == "p1"));

    let ev = a.handle_inbound("agent-b", back.frame);
    match ev {
        Some(HoustonEvent::Toast { message, variant }) => {
            assert_eq!(message, "Deal p1 accepted by peer");
            assert_eq!(variant, "success");
        }
        _ => panic!("expected a toast"),
    }
}

#[test]
fn reject_path_closes_both_sides() {
    let mut a = engine_a();
    let mut b = engine_b();
    a.propose(ProposeRequest { to_peer_id: "agent-b".to_string(), proposal: proposal("p2") })
        .ok()
        .unwrap();
    let post = match a.approve(decision("p2", true, None)).ok().unwrap() {
        Delivery::Direct(p) => p,
        Delivery::Relay(_) => panic!(),
    };
    b.handle_inbound(&post.from_peer_id, post.frame);
    // B's human rejects without a reason.
    let back = match b.approve(decision("p2", false, None)).ok().unwrap() {
        Delivery::Direct(p) => p,
        Delivery::Relay(_) => panic!(),
    };
    assert!(b.pending_proposals().is_empty());
    match &back.frame {
        CapcomFrame::Reject { proposal_id, reason } => {
            assert_eq!(proposal_id, "p2");
            assert_eq!(reason, "declined by human");
        }
        _ => panic!("expected REJECT"),
    }
    match a.handle_inbound("agent-b", back.frame) {
        Some(HoustonEvent::Toast { message, variant }) => {
            assert_eq!(message, "Deal p2 rejected: declined by human");
            assert_eq!(variant, "error");
        }
        _ => panic!("expected a toast"),
    }
}

#[test]
fn reject_with_reason_carries_it() {
    let mut a = engine_a();
    a.propose(ProposeRequest { to_peer_id: "agent-b".to_string(), proposal: proposal("p3") })
        .ok()
        .unwrap();
    let post = match a.approve(decision("p3", false, Some("too expensive"))).ok().unwrap() {
        Delivery::Direct(p) => p,
        Delivery::Relay(_) => panic!(),
    };
    assert!(matches!(&post.frame, CapcomFrame::Reject { reason, .. } if reason == "too expensive"));
}

#[test]
fn approving_twice_is_not_found() {
    let mut a = engine_a();
    a.propose(ProposeRequest { to_peer_id: "agent-b".to_string(), proposal: proposal("p4") })
        .ok()
        .unwrap();
    assert!(a.approve(decision("p4", true, None)).is_ok());
    let e = a.approve(decision("p4", true, None)).err().unwrap();
    assert_eq!(not_found_msg(&e).as_deref(), Some("no such pending proposal"));
    assert_eq!(e.status(), 404);
}

#[test]
fn approve_when_peer_gone_is_bad_request_and_drops_proposal() {
    let mut b = CapcomState::new();
    // A frame from a peer that B never registered.
    b.handle_inbound("stranger", CapcomFrame::Proposal { proposal: proposal("p5") });
    let list = b.pending_proposals();
    assert_eq!(list.len(), 1);
    assert_eq!(list[0].peer.name, "Unknown peer (stranger)");
    assert_eq!(list[0].peer.role, "unknown");
    let e = b.approve(decision("p5", true, None)).err().unwrap();
    assert_eq!(bad_request_msg(&e).as_deref(), Some("peer gone"));
    assert!(b.pending_proposals().is_empty());
}

#[test]
fn relay_mode_addresses_the_mailbox() {
    let mut b = CapcomState::new();
    b.set_relay(Some(RelayConfig {
        url: "https://relay.example".to_string(),
        token: "rt".to_string(),
        room: "room9".to_string(),
        self_id: "agent-b".to_string(),
    }));
    assert!(b.relay().is_some());
    b.handle_inbound("agent-a", CapcomFrame::Counter { proposal: proposal("p6") });
    let post = match b.approve(decision("p6", true, None)).ok().unwrap() {
        Delivery::Relay(p) => p,
        Delivery::Direct(_) => panic!("relay mode expected"),
    };
    assert_eq!(post.url, "https://relay.example/room/room9/send");
    assert_eq!(post.bearer, "rt");
    assert_eq!(post.from, "agent-b");
    assert_eq!(post.to, "agent-a");
    assert!(matches!(&post.frame, CapcomFrame::Ready { proposal_id } if proposal_id == "p6"));
}

#[test]
fn discovery_frames_change_nothing() {
    let mut b = engine_b();
    assert!(b.handle_inbound("agent-a", CapcomFrame::Hello { card: card("a", "Outbound") }).is_none());
    assert!(b.handle_inbound("agent-a", CapcomFrame::Ack { card: card("a", "Outbound") }).is_none());
    assert!(b.pending_proposals().is_empty());
}

#[test]
fn register_replaces_same_peer_id() {
    let mut a = engine_a();
    a.register_peer(RegisterPeerRequest {
        peer: peer("agent-b", "agent-a", "http://b2.example", card("b", "Inbound v2")),
    });
    a.propose(ProposeRequest { to_peer_id: "agent-b".to_string(), proposal: proposal("p7") })
        .ok()
        .unwrap();
    match a.approve(decision("p7", true, None)).ok().unwrap() {
        Delivery::Direct(p) => assert_eq!(p.url, "http://b2.example/v1/capcom/inbound"),
        Delivery::Relay(_) => panic!(),
    }
}

#[test]
fn pending_lists_each_proposal_once() {
    let mut b = engine_b();
    b.handle_inbound("agent-a", CapcomFrame::Proposal { proposal: proposal("x") });
    b.handle_inbound("agent-a", CapcomFrame::Proposal { proposal: proposal("y") });
    b.handle_inbound("agent-a", CapcomFrame::Counter { proposal: proposal("x") });
    let ids: Vec<String> = b.pending_proposals().into_iter().map(|p| p.proposal.proposal_id).collect();
    assert_eq!(ids, vec!["x".to_string(), "y".to_string()]);
}

#[test]
fn unknown_card_shape() {
    let c = unknown_card("agent-z");
    assert_eq!(c.id, "agent-z");
    assert_eq!(c.name, "Unknown peer (agent-z)");
    assert_eq!(c.role, "unknown");
    assert!(c.skills.is_empty() && c.integrations.is_empty());
}

#[test]
fn post_plans() {
    let p = peer("agent-b", "agent-a", "http://b", card("b", "B"));
    let d = direct_post(&p, CapcomFrame::Ready { proposal_id: "q".to_string() });
    assert_eq!(d.url, "http://b/v1/capcom/inbound");
    assert_eq!(d.from_peer_id, "agent-a");
    let r = relay_post(
        &RelayConfig { url: "u".to_string(), token: "t".to_string(), room: "r".to_string(), self_id: "me".to_string() },
        "you",
        CapcomFrame::Ready { proposal_id: "q".to_string() },
    );
    assert_eq!(r.url, "u/room/r/send");
    assert_eq!((r.from.as_str(), r.to.as_str()), ("me", "you"));
}

#[test]
fn error_statuses() {
    assert_eq!(ApiError::bad_request("x".to_string()).status(), 400);
    assert_eq!(ApiError::not_found("x".to_string()).status(), 404);
    assert_eq!(ApiError::internal("x".to_string()).status(), 500);
    assert_eq!(capcom::error::http_status(ErrorCode::Conflict), 409);
    assert_eq!(capcom::error::http_status(ErrorCode::VersionMismatch), 409);
    assert_eq!(capcom::error::http_status(ErrorCode::Unauthorized), 401);
    assert_eq!(capcom::error::http_status(ErrorCode::Forbidden), 403);
    assert_eq!(capcom::error::http_status(ErrorCode::Unavailable), 503);
    let e: ApiError = CoreError::Internal("boom".to_string()).into();
    assert_eq!(e.0.code(), ErrorCode::Internal);
    assert_eq!(e.0.message(), "boom");
}

#[test]
fn verdict_consumed_once_with_calls_between() {
    let mut a = engine_a();
    a.propose(ProposeRequest { to_peer_id: "agent-b".to_string(), proposal: proposal("p8") })
        .ok()
        .unwrap();
    assert!(a.approve(decision("p8", false, None)).is_ok());
    a.register_peer(RegisterPeerRequest {
        peer: peer("agent-c", "agent-a", "http://c.example", card("c", "Other")),
    });
    a.propose(ProposeRequest { to_peer_id: "agent-c".to_string(), proposal: proposal("p9") })
        .ok()
        .unwrap();
    a.handle_inbound("agent-b", CapcomFrame::Ready { proposal_id: "p9".to_string() });
    let e = a.approve(decision("p8", true, None)).err().unwrap();
    assert_eq!(not_found_msg(&e).as_deref(), Some("no such pending proposal"));
}

#[test]
fn registered_peer_stays_across_calls() {
    let mut a = engine_a();
    a.register_peer(RegisterPeerRequest {
        peer: peer("agent-c", "agent-a", "http://c.example", card("c", "Other")),
    });
    a.handle_inbound("agent-c", CapcomFrame::Proposal { proposal: proposal("q1") });
    let _ = a.approve(decision("q1", false, None));
    let (_, ev) = a
        .propose(ProposeRequest { to_peer_id: "agent-b".to_string(), proposal: proposal("q2") })
        .ok()
        .expect("agent-b is still registered");
    match ev {
        HoustonEvent::ApprovalRequest(req) => assert_eq!(req.peer.name, "Inbound"),
        HoustonEvent::Toast { .. } => panic!(),
    }
}
