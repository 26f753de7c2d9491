//! The negotiation state of one engine and the decisions of its routes.
//!
//! Each engine keeps the proposals that wait for its human's verdict and the
//! peers it can talk to. A proposal never leaves, and never enters, without a
//! human approval: `propose` and `handle_inbound` only stage a proposal and
//! ask the local human; only `approve` yields a frame to deliver to the other side.
use vstd::prelude::*;

use crate::error::{ApiError, ErrorView};
use crate::protocol::{
    AgentCard, ApprovalDecision, ApprovalDirection, ApprovalRequest, ApprovalRequestView, CapcomFrame, CapcomProposal,
    CardView, DecisionView, EventView, FrameView, HoustonEvent, ProposalView,
};
use crate::table::KeyedTable;
use crate::text::{concat2, concat3};

verus! {

// ── Types ──────────────────────────────────────────────────────────

/// Coordinates of the relay, present only when the engine runs in relay mode.
pub struct RelayConfig {
    pub url: String,
    pub token: String,
    pub room: String,
    /// The agent id this engine sends as and polls its mailbox under.
    pub self_id: String,
}

/// A proposal awaiting this engine's human gate.
pub struct PendingProposal {
    pub proposal: CapcomProposal,
    pub peer: AgentCard,
    pub direction: ApprovalDirection,
    /// Where to send READY/REJECT (or the proposal) once the human decides.
    pub reply_to_peer_id: String,
}

/// A peer engine this engine can negotiate with.
pub struct PeerEndpoint {
    pub peer_id: String,
    /// The id this engine announces itself by to this peer.
    pub self_id: String,
    pub base_url: String,
    /// Bearer token for the peer engine.
    pub token: String,
    pub card: AgentCard,
}

/// Body of the route that registers a peer.
pub struct RegisterPeerRequest {
    pub peer: PeerEndpoint,
}

/// Body of the route that proposes to a peer.
pub struct ProposeRequest {
    pub to_peer_id: String,
    pub proposal: CapcomProposal,
}

/// Body of the route that receives a frame from a peer.
pub struct InboundRequest {
    pub from_peer_id: String,
    pub frame: CapcomFrame,
}

/// The routes' acknowledgement.
pub struct Ack {
    pub ok: bool,
}

/// A POST of a frame straight to a peer engine's inbound route.
pub struct PeerPost {
    pub url: String,
    pub bearer: String,
    pub from_peer_id: String,
    pub frame: CapcomFrame,
}

/// A POST of a frame into the relay's room mailbox, addressed to an agent id.
pub struct RelayPost {
    pub url: String,
    pub bearer: String,
    pub from: String,
    pub to: String,
    pub frame: CapcomFrame,
}

/// How a decided frame reaches the other side.
pub enum Delivery {
    Direct(PeerPost),
    Relay(RelayPost),
}

// ── Views ──────────────────────────────────────────────────────────

/// View of a [`RelayConfig`].
#[verifier::ext_equal]
pub ghost struct RelayView {
    pub url: Seq<char>,
    pub token: Seq<char>,
    pub room: Seq<char>,
    pub self_id: Seq<char>,
}

/// View of a [`PendingProposal`].
#[verifier::ext_equal]
pub ghost struct PendingView {
    pub proposal: ProposalView,
    pub peer: CardView,
    pub direction: ApprovalDirection,
    pub reply_to_peer_id: Seq<char>,
}

/// View of a [`PeerEndpoint`].
#[verifier::ext_equal]
pub ghost struct PeerView {
    pub peer_id: Seq<char>,
    pub self_id: Seq<char>,
    pub base_url: Seq<char>,
    pub token: Seq<char>,
    pub card: CardView,
}

/// View of a [`PeerPost`].
pub ghost struct PeerPostView {
    pub url: Seq<char>,
    pub bearer: Seq<char>,
    pub from_peer_id: Seq<char>,
    pub frame: FrameView,
}

/// View of a [`RelayPost`].
pub ghost struct RelayPostView {
    pub url: Seq<char>,
    pub bearer: Seq<char>,
    pub from: Seq<char>,
    pub to: Seq<char>,
    pub frame: FrameView,
}

/// View of a [`Delivery`].
pub ghost enum DeliveryView {
    Direct(PeerPostView),
    Relay(RelayPostView),
}

/// View of a [`CapcomState`]: pending proposals by proposal id, peers by peer id.
#[verifier::ext_equal]
pub ghost struct StateView {
    pub pending: Map<Seq<char>, PendingView>,
    pub peers: Map<Seq<char>, PeerView>,
    pub self_card: Option<CardView>,
    pub relay: Option<RelayView>,
}

impl View for RelayConfig {
    type V = RelayView;

    open spec fn view(&self) -> RelayView {
        RelayView { url: self.url@, token: self.token@, room: self.room@, self_id: self.self_id@ }
    }
}

impl View for PendingProposal {
    type V = PendingView;

    open spec fn view(&self) -> PendingView {
        PendingView {
            proposal: self.proposal@,
            peer: self.peer@,
            direction: self.direction,
            reply_to_peer_id: self.reply_to_peer_id@,
        }
    }
}

impl View for PeerEndpoint {
    type V = PeerView;

    open spec fn view(&self) -> PeerView {
        PeerView {
            peer_id: self.peer_id@,
            self_id: self.self_id@,
            base_url: self.base_url@,
            token: self.token@,
            card: self.card@,
        }
    }
}

impl View for PeerPost {
    type V = PeerPostView;

    open spec fn view(&self) -> PeerPostView {
        PeerPostView {
            url: self.url@,
            bearer: self.bearer@,
            from_peer_id: self.from_peer_id@,
            frame: self.frame@,
        }
    }
}

impl View for RelayPost {
    type V = RelayPostView;

    open spec fn view(&self) -> RelayPostView {
        RelayPostView {
            url: self.url@,
            bearer: self.bearer@,
            from: self.from@,
            to: self.to@,
            frame: self.frame@,
        }
    }
}

impl View for Delivery {
    type V = DeliveryView;

    open spec fn view(&self) -> DeliveryView {
        match self {
            Delivery::Direct(p) => DeliveryView::Direct(p@),
            Delivery::Relay(p) => DeliveryView::Relay(p@),
        }
    }
}

impl Clone for RelayConfig {
    fn clone(&self) -> (r: Self)
        ensures
            r@ == self@,
    {
        RelayConfig {
            url: self.url.clone(),
            token: self.token.clone(),
            room: self.room.clone(),
            self_id: self.self_id.clone(),
        }
    }
}

impl Clone for PendingProposal {
    fn clone(&self) -> (r: Self)
        ensures
            r@ == self@,
    {
        PendingProposal {
            proposal: self.proposal.clone(),
            peer: self.peer.clone(),
            direction: self.direction,
            reply_to_peer_id: self.reply_to_peer_id.clone(),
        }
    }
}

impl Clone for PeerEndpoint {
    fn clone(&self) -> (r: Self)
        ensures
            r@ == self@,
    {
        PeerEndpoint {
            peer_id: self.peer_id.clone(),
            self_id: self.self_id.clone(),
            base_url: self.base_url.clone(),
            token: self.token.clone(),
            card: self.card.clone(),
        }
    }
}

// ── Specification of the decisions ─────────────────────────────────

/// The card shown for a peer that this engine does not know.
pub open spec fn unknown_card_view(id: Seq<char>) -> CardView {
    CardView {
        id: id,
        name: "Unknown peer ("@ + id + ")"@,
        role: "unknown"@,
        skills: Seq::empty(),
        integrations: Seq::empty(),
    }
}

/// The card of the peer known as `id`, or the unknown-peer card.
pub open spec fn peer_card(s: StateView, id: Seq<char>) -> CardView {
    if s.peers.contains_key(id) {
        s.peers[id].card
    } else {
        unknown_card_view(id)
    }
}

/// `s` with `p` recorded as a known peer.
pub open spec fn with_peer(s: StateView, p: PeerView) -> StateView {
    StateView { peers: s.peers.insert(p.peer_id, p), ..s }
}

/// The approval request raised when this engine's agent proposes to peer `to`.
pub open spec fn outbound_gate(s: StateView, to: Seq<char>, proposal: ProposalView) -> ApprovalRequestView {
    ApprovalRequestView { proposal: proposal, peer: s.peers[to].card, direction: ApprovalDirection::Outbound }
}

/// The state after `propose`: the proposal staged at the outbound gate when
/// the peer `to` is known; otherwise the state unchanged.
pub open spec fn propose_outcome(s: StateView, to: Seq<char>, proposal: ProposalView) -> StateView {
    if s.peers.contains_key(to) {
        let staged = PendingView {
            proposal: proposal,
            peer: s.peers[to].card,
            direction: ApprovalDirection::Outbound,
            reply_to_peer_id: to,
        };
        StateView { pending: s.pending.insert(proposal.proposal_id, staged), ..s }
    } else {
        s
    }
}

/// What receiving a frame from peer `from` does to the state, and the event
/// it raises.
pub open spec fn inbound_outcome(s: StateView, from: Seq<char>, f: FrameView) -> (
    StateView,
    Option<EventView>,
) {
    match f {
        FrameView::Proposal { proposal } => inbound_gate_outcome(s, from, proposal),
        FrameView::Counter { proposal } => inbound_gate_outcome(s, from, proposal),
        FrameView::Ready { proposal_id } => (
            StateView { pending: s.pending.remove(proposal_id), ..s },
            Some(EventView::Toast { message: "Deal "@ + proposal_id + " accepted by peer"@, variant: "success"@ }),
        ),
        FrameView::Reject { proposal_id, reason } => (
            StateView { pending: s.pending.remove(proposal_id), ..s },
            Some(EventView::Toast { message: "Deal "@ + proposal_id + " rejected: "@ + reason, variant: "error"@ }),
        ),
        FrameView::Hello { .. } => (s, None),
        FrameView::Ack { .. } => (s, None),
    }
}

/// A received PROPOSAL or COUNTER: staged at the inbound gate, with the
/// reply going back to the sender.
pub open spec fn inbound_gate_outcome(s: StateView, from: Seq<char>, proposal: ProposalView) -> (
    StateView,
    Option<EventView>,
) {
    let staged = PendingView {
        proposal: proposal,
        peer: peer_card(s, from),
        direction: ApprovalDirection::Inbound,
        reply_to_peer_id: from,
    };
    (
        StateView { pending: s.pending.insert(proposal.proposal_id, staged), ..s },
        Some(
            EventView::ApprovalRequest(
                ApprovalRequestView { proposal: proposal, peer: peer_card(s, from), direction: ApprovalDirection::Inbound },
            ),
        ),
    )
}

/// The frame a human verdict produces: on approval the proposal itself
/// (outbound) or READY (inbound); on rejection a REJECT with the given reason,
/// "declined by human" when none is given.
pub open spec fn verdict_frame(p: PendingView, d: DecisionView) -> FrameView {
    if d.approved {
        match p.direction {
            ApprovalDirection::Outbound => FrameView::Proposal { proposal: p.proposal },
            ApprovalDirection::Inbound => FrameView::Ready { proposal_id: d.proposal_id },
        }
    } else {
        FrameView::Reject {
            proposal_id: d.proposal_id,
            reason: match d.reason {
                Some(r) => r,
                None => "declined by human"@,
            },
        }
    }
}

/// The POST that carries `f` straight to `peer`, announcing this engine by the
/// id the peer knows it as.
pub open spec fn direct_post_view(peer: PeerView, f: FrameView) -> PeerPostView {
    PeerPostView {
        url: peer.base_url + "/v1/capcom/inbound"@,
        bearer: peer.token,
        from_peer_id: peer.self_id,
        frame: f,
    }
}

/// The POST that drops `f` into the relay mailbox for agent `to`.
pub open spec fn relay_post_view(relay: RelayView, to: Seq<char>, f: FrameView) -> RelayPostView {
    RelayPostView {
        url: relay.url + "/room/"@ + relay.room + "/send"@,
        bearer: relay.token,
        from: relay.self_id,
        to: to,
        frame: f,
    }
}

/// What `approve` does. An unknown proposal is refused and nothing changes.
/// Otherwise the proposal leaves the pending set, and its frame goes through
/// the relay when one is configured, else straight to the peer, which must
/// still be known ("peer gone" otherwise, the proposal being removed all the same).
pub open spec fn approve_outcome(s: StateView, d: DecisionView) -> (
    StateView,
    Result<DeliveryView, ErrorView>,
) {
    if !s.pending.contains_key(d.proposal_id) {
        (s, Err(ErrorView::NotFound("no such pending proposal"@)))
    } else {
        let p = s.pending[d.proposal_id];
        let s2 = StateView { pending: s.pending.remove(d.proposal_id), ..s };
        let f = verdict_frame(p, d);
        match s.relay {
            Some(relay) => (s2, Ok(DeliveryView::Relay(relay_post_view(relay, p.reply_to_peer_id, f)))),
            None => if s.peers.contains_key(p.reply_to_peer_id) {
                (s2, Ok(DeliveryView::Direct(direct_post_view(s.peers[p.reply_to_peer_id], f))))
            } else {
                (s2, Err(ErrorView::BadRequest("peer gone"@)))
            },
        }
    }
}

// ── The state ──────────────────────────────────────────────────────

/// One engine's negotiation state.
pub struct CapcomState {
    pending: KeyedTable<PendingProposal>,
    peers: KeyedTable<PeerEndpoint>,
    self_card: Option<AgentCard>,
    relay: Option<RelayConfig>,
}

impl View for CapcomState {
    type V = StateView;

    closed spec fn view(&self) -> StateView {
        StateView {
            pending: self.pending@,
            peers: self.peers@,
            self_card: match self.self_card {
                Some(c) => Some(c@),
                None => None,
            },
            relay: match self.relay {
                Some(r) => Some(r@),
                None => None,
            },
        }
    }
}

/// A state's view is well formed: each pending proposal is filed under its
/// own id, and each peer under its own peer id.
pub open spec fn view_wf(s: StateView) -> bool {
    &&& forall|k: Seq<char>| #[trigger] s.pending.contains_key(k) ==> s.pending[k].proposal.proposal_id == k
    &&& forall|k: Seq<char>| #[trigger] s.peers.contains_key(k) ==> s.peers[k].peer_id == k
}

impl Default for CapcomState {
    fn default() -> (s: Self)
        ensures
            s@.pending == Map::<Seq<char>, PendingView>::empty(),
            s@.peers == Map::<Seq<char>, PeerView>::empty(),
            s@.self_card is None,
            s@.relay is None,
    {
        CapcomState::new()
    }
}

impl CapcomState {
    /// The state's invariant: both tables are well formed and file each
    /// entry under its own id.
    #[verifier::type_invariant]
    spec fn wf(self) -> bool {
        &&& self.pending.wf()
        &&& self.peers.wf()
        &&& view_wf(self@)
    }

    /// A fresh state: no pending proposal, no peer, no card, direct mode.
    pub fn new() -> (s: Self)
        ensures
            s@.pending == Map::<Seq<char>, PendingView>::empty(),
            s@.peers == Map::<Seq<char>, PeerView>::empty(),
            s@.self_card is None,
            s@.relay is None,
    {
        CapcomState { pending: KeyedTable::new(), peers: KeyedTable::new(), self_card: None, relay: None }
    }

    /// Switches relay mode on (`Some`) or off (`None`).
    pub fn set_relay(&mut self, relay: Option<RelayConfig>)
        ensures
            final(self)@ == (StateView {
                relay: match relay {
                    Some(r) => Some(r@),
                    None => None,
                },
                ..old(self)@
            }),
    {
        proof {
            use_type_invariant(&*self);
        }
        self.relay = relay;
    }

    /// Sets the card this engine advertises.
    pub fn set_self_card(&mut self, card: Option<AgentCard>)
        ensures
            final(self)@ == (StateView {
                self_card: match card {
                    Some(c) => Some(c@),
                    None => None,
                },
                ..old(self)@
            }),
    {
        proof {
            use_type_invariant(&*self);
        }
        self.self_card = card;
    }

    /// The card this engine advertises, if one is set.
    pub fn self_card(&self) -> (r: Option<AgentCard>)
        ensures
            match r {
                Some(c) => self@.self_card == Some(c@),
                None => self@.self_card is None,
            },
    {
        match &self.self_card {
            Some(c) => Some(c.clone()),
            None => None,
        }
    }

    /// The relay coordinates, if relay mode is on.
    pub fn relay(&self) -> (r: Option<RelayConfig>)
        ensures
            match r {
                Some(c) => self@.relay == Some(c@),
                None => self@.relay is None,
            },
    {
        match &self.relay {
            Some(c) => Some(c.clone()),
            None => None,
        }
    }

    /// Registers a peer engine, replacing any peer with the same id.
    pub fn register_peer(&mut self, req: RegisterPeerRequest) -> (r: Ack)
        ensures
            final(self)@ == with_peer(old(self)@, req.peer@),
            r.ok,
    {
        proof {
            use_type_invariant(&*self);
        }
        let key = req.peer.peer_id.clone();
        let mut peers = KeyedTable::new();
        std::mem::swap(&mut peers, &mut self.peers);
        peers.insert(key, req.peer);
        self.peers = peers;
        assert(self@ =~= with_peer(old(self)@, req.peer@));
        Ack { ok: true }
    }

    /// Stages a proposal to a known peer at this engine's outbound gate and
    /// returns the approval request; the proposal only leaves on approval.
    pub fn propose(&mut self, req: ProposeRequest) -> (r: Result<(Ack, HoustonEvent), ApiError>)
        ensures
            final(self)@ == propose_outcome(old(self)@, req.to_peer_id@, req.proposal@),
            r is Ok <==> old(self)@.peers.contains_key(req.to_peer_id@),
            r is Ok ==> final(self)@.pending == old(self)@.pending.insert(
                req.proposal@.proposal_id,
                PendingView {
                    proposal: req.proposal@,
                    peer: old(self)@.peers[req.to_peer_id@].card,
                    direction: ApprovalDirection::Outbound,
                    reply_to_peer_id: req.to_peer_id@,
                },
            ),
            r is Err ==> final(self)@ == old(self)@,
            match r {
                Ok((ack, ev)) => ack.ok && ev@ == EventView::ApprovalRequest(
                    outbound_gate(old(self)@, req.to_peer_id@, req.proposal@),
                ),
                Err(e) => e@ == ErrorView::BadRequest("unknown peer"@),
            },
    {
        proof {
            use_type_invariant(&*self);
        }
        let card = match self.peers.get(&req.to_peer_id) {
            Some(p) => p.card.clone(),
            None => {
                return Err(ApiError::bad_request("unknown peer".to_owned()));
            },
        };
        let staged = PendingProposal {
            proposal: req.proposal.clone(),
            peer: card.clone(),
            direction: ApprovalDirection::Outbound,
            reply_to_peer_id: req.to_peer_id,
        };
        let key = req.proposal.proposal_id.clone();
        let mut pending = KeyedTable::new();
        std::mem::swap(&mut pending, &mut self.pending);
        pending.insert(key, staged);
        self.pending = pending;
        assert(self@ =~= propose_outcome(old(self)@, req.to_peer_id@, req.proposal@));
        let ev = HoustonEvent::ApprovalRequest(
            ApprovalRequest { proposal: req.proposal, peer: card, direction: ApprovalDirection::Outbound },
        );
        Ok((Ack { ok: true }, ev))
    }

    /// Acts on a frame received from peer `from_peer_id`: a PROPOSAL or
    /// COUNTER is staged at the inbound gate, READY and REJECT settle a
    /// pending negotiation, HELLO and ACK change nothing. Returns the event to
    /// raise, if any.
    pub fn handle_inbound(&mut self, from_peer_id: &str, frame: CapcomFrame) -> (r: Option<HoustonEvent>)
        ensures
            final(self)@ == inbound_outcome(old(self)@, from_peer_id@, frame@).0,
            (frame@ matches FrameView::Proposal { proposal }) || (frame@ matches FrameView::Counter {
                proposal,
            }) ==> ({
                let p = match frame@ {
                    FrameView::Proposal { proposal } => proposal,
                    FrameView::Counter { proposal } => proposal,
                    _ => arbitrary(),
                };
                &&& final(self)@.pending == old(self)@.pending.insert(
                    p.proposal_id,
                    PendingView {
                        proposal: p,
                        peer: peer_card(old(self)@, from_peer_id@),
                        direction: ApprovalDirection::Inbound,
                        reply_to_peer_id: from_peer_id@,
                    },
                )
                &&& r matches Some(ev) && ev@ == EventView::ApprovalRequest(
                    ApprovalRequestView {
                        proposal: p,
                        peer: peer_card(old(self)@, from_peer_id@),
                        direction: ApprovalDirection::Inbound,
                    },
                )
            }),
            match r {
                Some(ev) => inbound_outcome(old(self)@, from_peer_id@, frame@).1 == Some(ev@),
                None => inbound_outcome(old(self)@, from_peer_id@, frame@).1 is None,
            },
    {
        proof {
            use_type_invariant(&*self);
        }
        match frame {
            CapcomFrame::Proposal { proposal } => Some(self.stage_inbound(from_peer_id, proposal)),
            CapcomFrame::Counter { proposal } => Some(self.stage_inbound(from_peer_id, proposal)),
            CapcomFrame::Ready { proposal_id } => {
                let mut pending = KeyedTable::new();
                std::mem::swap(&mut pending, &mut self.pending);
                let _ = pending.remove(&proposal_id);
                self.pending = pending;
                assert(self@ =~= inbound_outcome(old(self)@, from_peer_id@, frame@).0);
                let message = concat3("Deal ", proposal_id.as_str(), " accepted by peer");
                Some(HoustonEvent::Toast { message, variant: "success".to_owned() })
            },
            CapcomFrame::Reject { proposal_id, reason } => {
                let mut pending = KeyedTable::new();
                std::mem::swap(&mut pending, &mut self.pending);
                let _ = pending.remove(&proposal_id);
                self.pending = pending;
                assert(self@ =~= inbound_outcome(old(self)@, from_peer_id@, frame@).0);
                let head = concat3("Deal ", proposal_id.as_str(), " rejected: ");
                let message = concat2(head.as_str(), reason.as_str());
                Some(HoustonEvent::Toast { message, variant: "error".to_owned() })
            },
            CapcomFrame::Hello { .. } => None,
            CapcomFrame::Ack { .. } => None,
        }
    }

    /// Stages a received proposal for the local human.
    fn stage_inbound(&mut self, from_peer_id: &str, proposal: CapcomProposal) -> (ev: HoustonEvent)
        ensures
            final(self)@ == inbound_gate_outcome(old(self)@, from_peer_id@, proposal@).0,
            inbound_gate_outcome(old(self)@, from_peer_id@, proposal@).1 == Some(ev@),
    {
        proof {
            use_type_invariant(&*self);
        }
        let card = self.card_of(from_peer_id);
        let staged = PendingProposal {
            proposal: proposal.clone(),
            peer: card.clone(),
            direction: ApprovalDirection::Inbound,
            reply_to_peer_id: from_peer_id.to_owned(),
        };
        let key = proposal.proposal_id.clone();
        let mut pending = KeyedTable::new();
        std::mem::swap(&mut pending, &mut self.pending);
        pending.insert(key, staged);
        self.pending = pending;
        assert(self@ =~= inbound_gate_outcome(old(self)@, from_peer_id@, proposal@).0);
        HoustonEvent::ApprovalRequest(ApprovalRequest { proposal, peer: card, direction: ApprovalDirection::Inbound })
    }

    /// The card of the peer known as `id`, or the unknown-peer card.
    fn card_of(&self, id: &str) -> (c: AgentCard)
        ensures
            c@ == peer_card(self@, id@),
    {
        proof {
            use_type_invariant(self);
        }
        match self.peers.get(&id.to_owned()) {
            Some(p) => p.card.clone(),
            None => unknown_card(id),
        }
    }

    /// The route form of [`CapcomState::handle_inbound`].
    pub fn inbound(&mut self, req: InboundRequest) -> (r: (Ack, Option<HoustonEvent>))
        ensures
            final(self)@ == inbound_outcome(old(self)@, req.from_peer_id@, req.frame@).0,
            r.0.ok,
            match r.1 {
                Some(ev) => inbound_outcome(old(self)@, req.from_peer_id@, req.frame@).1 == Some(ev@),
                None => inbound_outcome(old(self)@, req.from_peer_id@, req.frame@).1 is None,
            },
    {
        let ev = self.handle_inbound(req.from_peer_id.as_str(), req.frame);
        (Ack { ok: true }, ev)
    }

    /// Applies the human's verdict on a pending proposal and says how to
    /// deliver the resulting frame to the other side.
    pub fn approve(&mut self, decision: ApprovalDecision) -> (r: Result<Delivery, ApiError>)
        ensures
            final(self)@ == approve_outcome(old(self)@, decision@).0,
            final(self)@.pending == old(self)@.pending.remove(decision@.proposal_id),
            final(self)@.peers == old(self)@.peers,
            match r {
                Ok(d) => approve_outcome(old(self)@, decision@).1 == Ok::<DeliveryView, ErrorView>(d@),
                Err(e) => approve_outcome(old(self)@, decision@).1 == Err::<DeliveryView, ErrorView>(e@),
            },
    {
        proof {
            use_type_invariant(&*self);
        }
        let mut table = KeyedTable::new();
        std::mem::swap(&mut table, &mut self.pending);
        let taken = table.remove(&decision.proposal_id);
        self.pending = table;
        let pending = match taken {
            Some(p) => p,
            None => {
                return Err(ApiError::not_found("no such pending proposal".to_owned()));
            },
        };
        let frame = decide_frame(&pending, decision);
        match &self.relay {
            Some(relay) => {
                let post = relay_post(relay, pending.reply_to_peer_id.as_str(), frame);
                Ok(Delivery::Relay(post))
            },
            None => {
                match self.peers.get(&pending.reply_to_peer_id) {
                    Some(peer) => Ok(Delivery::Direct(direct_post(peer, frame))),
                    None => Err(ApiError::bad_request("peer gone".to_owned())),
                }
            },
        }
    }

    /// The proposals awaiting this engine's human approval, each once.
    pub fn pending_proposals(&self) -> (r: Vec<PendingProposal>)
        ensures
            forall|i: int|
                #![trigger r@[i]]
                0 <= i < r@.len() ==> self@.pending.contains_key(r@[i]@.proposal.proposal_id)
                    && self@.pending[r@[i]@.proposal.proposal_id] == r@[i]@,
            forall|i: int, j: int|
                0 <= i < r@.len() && 0 <= j < r@.len() && i != j ==> r@[i]@.proposal.proposal_id
                    != r@[j]@.proposal.proposal_id,
            forall|k: Seq<char>|
                #[trigger] self@.pending.contains_key(k) ==> exists|i: int|
                    0 <= i < r@.len() && (#[trigger] r@[i])@.proposal.proposal_id == k,
    {
        proof {
            use_type_invariant(self);
            self.pending.lemma_ordered_views();
        }
        let vals = self.pending.values();
        let mut r: Vec<PendingProposal> = Vec::new();
        let n = vals.len();
        let mut i: usize = 0;
        while i < n
            invariant
                n == vals@.len(),
                vals@.len() == self.pending.values_seq().len(),
                forall|j: int| 0 <= j < n ==> *(#[trigger] vals@[j]) == self.pending.values_seq()[j],
                i <= n,
                r@.len() == i,
                forall|j: int| 0 <= j < i ==> (#[trigger] r@[j])@ == self.pending.values_seq()[j]@,
            decreases n - i,
        {
            r.push(vals[i].clone());
            i = i + 1;
        }
        proof {
            let ks = self.pending.keys_seq();
            let vs = self.pending.values_seq();
            assert forall|j: int| 0 <= j < r@.len() implies (#[trigger] r@[j])@.proposal.proposal_id == ks[j] by {
                assert(self@.pending.contains_key(ks[j]));
            }
            assert forall|k: Seq<char>| #[trigger] self@.pending.contains_key(k) implies exists|i: int|
                0 <= i < r@.len() && (#[trigger] r@[i])@.proposal.proposal_id == k by {
                let i = choose|i: int| 0 <= i < ks.len() && #[trigger] ks[i] == k;
                assert(r@[i]@.proposal.proposal_id == k);
            }
        }
        r
    }
}

/// The frame that a verdict produces for a pending proposal.
fn decide_frame(pending: &PendingProposal, decision: ApprovalDecision) -> (f: CapcomFrame)
    ensures
        f@ == verdict_frame(pending@, decision@),
{
    if decision.approved {
        match pending.direction {
            ApprovalDirection::Outbound => CapcomFrame::Proposal { proposal: pending.proposal.clone() },
            ApprovalDirection::Inbound => CapcomFrame::Ready { proposal_id: decision.proposal_id },
        }
    } else {
        let reason = match decision.reason {
            Some(r) => r,
            None => "declined by human".to_owned(),
        };
        CapcomFrame::Reject { proposal_id: decision.proposal_id, reason }
    }
}

/// The POST that carries `frame` straight to `peer`'s inbound route. The
/// sender announces itself by the id this peer knows it as (`self_id`), not
/// by the peer's own id.
pub fn direct_post(peer: &PeerEndpoint, frame: CapcomFrame) -> (r: PeerPost)
    ensures
        r@ == direct_post_view(peer@, frame@),
{
    PeerPost {
        url: concat2(peer.base_url.as_str(), "/v1/capcom/inbound"),
        bearer: peer.token.clone(),
        from_peer_id: peer.self_id.clone(),
        frame,
    }
}

/// The POST that drops `frame` into the relay's room mailbox for agent `to_agent`.
pub fn relay_post(relay: &RelayConfig, to_agent: &str, frame: CapcomFrame) -> (r: RelayPost)
    ensures
        r@ == relay_post_view(relay@, to_agent@, frame@),
{
    let head = concat3(relay.url.as_str(), "/room/", relay.room.as_str());
    RelayPost {
        url: concat2(head.as_str(), "/send"),
        bearer: relay.token.clone(),
        from: relay.self_id.clone(),
        to: to_agent.to_owned(),
        frame,
    }
}

/// The card shown for a peer this engine does not know.
pub fn unknown_card(id: &str) -> (c: AgentCard)
    ensures
        c@ == unknown_card_view(id@),
{
    let c = AgentCard {
        id: id.to_owned(),
        name: concat3("Unknown peer (", id, ")"),
        role: "unknown".to_owned(),
        skills: Vec::new(),
        integrations: Vec::new(),
    };
    assert(c@.skills =~= Seq::<Seq<char>>::empty());
    assert(c@.integrations =~= Seq::<Seq<char>>::empty());
    c
}

} // verus!
