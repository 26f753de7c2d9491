//! Properties that span several operations of the negotiation, proved over
//! the same specifications that the operations' contracts use.
use vstd::prelude::*;

use crate::capcom::{
    approve_outcome, direct_post_view, inbound_outcome, peer_card, propose_outcome, verdict_frame,
    with_peer, DeliveryView, PeerView, PendingView, RelayView, StateView,
};
use crate::error::ErrorView;
use crate::protocol::{
    ApprovalDirection, ApprovalRequestView, CardView, DecisionView, EventView, FrameView,
    ProposalView,
};

verus! {

/// Once a peer is registered, proposing to it succeeds: the proposal waits
/// at the outbound gate, addressed to that peer and shown with its card.
pub proof fn lemma_registered_peer_accepts_proposals(s: StateView, peer: PeerView, proposal: ProposalView)
    ensures
        with_peer(s, peer).peers.contains_key(peer.peer_id),
        propose_outcome(with_peer(s, peer), peer.peer_id, proposal).pending[proposal.proposal_id] == (PendingView {
            proposal: proposal,
            peer: peer.card,
            direction: ApprovalDirection::Outbound,
            reply_to_peer_id: peer.peer_id,
        }),
{
}

/// A verdict is final: once a proposal has been decided, approving it again
/// is refused as unknown, whatever the verdict.
pub proof fn lemma_verdict_is_final(s: StateView, first: DecisionView, second: DecisionView)
    requires
        s.pending.contains_key(first.proposal_id),
        second.proposal_id == first.proposal_id,
    ensures
        !approve_outcome(s, first).0.pending.contains_key(first.proposal_id),
        approve_outcome(approve_outcome(s, first).0, second).1 == Err::<DeliveryView, ErrorView>(
            ErrorView::NotFound("no such pending proposal"@),
        ),
{
}

/// Bilateral human gate, end to end between engine A and engine B, both in
/// direct mode. A proposal to B waits for A's human; on approval exactly that
/// proposal is sent to B, announced under the id A uses towards B. B then
/// raises its own inbound gate with the same proposal, shows the card it has
/// registered for A (not an unknown peer), and files the reply for A. When
/// B's human approves, READY goes back to A, and A's side of the negotiation
/// is closed on receipt.
pub proof fn lemma_bilateral_handoff(
    a: StateView,
    b: StateView,
    to_b: Seq<char>,
    proposal: ProposalView,
    reason_a: Option<Seq<char>>,
    reason_b: Option<Seq<char>>,
)
    requires
        a.relay is None,
        b.relay is None,
        a.peers.contains_key(to_b),
        b.peers.contains_key(a.peers[to_b].self_id),
    ensures
        ({
            let a_id = a.peers[to_b].self_id;
            let a1 = propose_outcome(a, to_b, proposal);
            let approve_a = DecisionView { proposal_id: proposal.proposal_id, approved: true, reason: reason_a };
            let a2 = approve_outcome(a1, approve_a);
            let sent = direct_post_view(a.peers[to_b], FrameView::Proposal { proposal: proposal });
            let b1 = inbound_outcome(b, a_id, sent.frame);
            let approve_b = DecisionView { proposal_id: proposal.proposal_id, approved: true, reason: reason_b };
            let b2 = approve_outcome(b1.0, approve_b);
            let back = direct_post_view(b.peers[a_id], FrameView::Ready { proposal_id: proposal.proposal_id });
            let a3 = inbound_outcome(a2.0, back.from_peer_id, back.frame);
            &&& a1.pending[proposal.proposal_id].direction == ApprovalDirection::Outbound
            &&& a2.1 == Ok::<DeliveryView, ErrorView>(DeliveryView::Direct(sent))
            &&& sent.from_peer_id == a_id
            &&& peer_card(b, a_id) == b.peers[a_id].card
            &&& b1.0.pending[proposal.proposal_id] == (PendingView {
                proposal: proposal,
                peer: b.peers[a_id].card,
                direction: ApprovalDirection::Inbound,
                reply_to_peer_id: a_id,
            })
            &&& b1.1 == Some(
                EventView::ApprovalRequest(
                    ApprovalRequestView {
                        proposal: proposal,
                        peer: b.peers[a_id].card,
                        direction: ApprovalDirection::Inbound,
                    },
                ),
            )
            &&& b2.1 == Ok::<DeliveryView, ErrorView>(DeliveryView::Direct(back))
            &&& !b2.0.pending.contains_key(proposal.proposal_id)
            &&& !a3.0.pending.contains_key(proposal.proposal_id)
            &&& a3.1 == Some(
                EventView::Toast {
                    message: "Deal "@ + proposal.proposal_id + " accepted by peer"@,
                    variant: "success"@,
                },
            )
        }),
{
    let a_id = a.peers[to_b].self_id;
    let a1 = propose_outcome(a, to_b, proposal);
    assert(a1.pending.contains_key(proposal.proposal_id));
    assert(a1.peers == a.peers);
    let sent = direct_post_view(a.peers[to_b], FrameView::Proposal { proposal: proposal });
    let b1 = inbound_outcome(b, a_id, sent.frame);
    assert(b1.0.peers == b.peers);
    assert(b1.0.pending.contains_key(proposal.proposal_id));
}

/// Either human can close the negotiation: a rejection removes the proposal
/// from the deciding side, sends REJECT with the given reason ("declined by
/// human" when none), and the receiving side drops the proposal and shows the
/// reason.
pub proof fn lemma_reject_closes_both_sides(
    a: StateView,
    b: StateView,
    decision: DecisionView,
    from: Seq<char>,
)
    requires
        a.relay is None,
        a.pending.contains_key(decision.proposal_id),
        a.peers.contains_key(a.pending[decision.proposal_id].reply_to_peer_id),
        !decision.approved,
    ensures
        ({
            let reason = match decision.reason {
                Some(r) => r,
                None => "declined by human"@,
            };
            let frame = FrameView::Reject { proposal_id: decision.proposal_id, reason: reason };
            let a1 = approve_outcome(a, decision);
            let b1 = inbound_outcome(b, from, frame);
            &&& !a1.0.pending.contains_key(decision.proposal_id)
            &&& a1.1 == Ok::<DeliveryView, ErrorView>(
                DeliveryView::Direct(
                    direct_post_view(a.peers[a.pending[decision.proposal_id].reply_to_peer_id], frame),
                ),
            )
            &&& !b1.0.pending.contains_key(decision.proposal_id)
            &&& b1.1 == Some(
                EventView::Toast {
                    message: "Deal "@ + decision.proposal_id + " rejected: "@ + reason,
                    variant: "error"@,
                },
            )
        }),
{
}

/// In relay mode the peer is addressed by agent id through the relay, so
/// approving a pending proposal always yields a delivery, to the id that the
/// proposal's reply goes to, whether or not a direct peer is registered.
pub proof fn lemma_relay_needs_no_peer(s: StateView, d: DecisionView)
    requires
        s.relay is Some,
        s.pending.contains_key(d.proposal_id),
    ensures
        approve_outcome(s, d).1 matches Ok(DeliveryView::Relay(post)) && post.to
            == s.pending[d.proposal_id].reply_to_peer_id && post.from == s.relay->0.self_id,
{
}

/// Frames that only announce agents change nothing and raise no gate.
pub proof fn lemma_discovery_frames_are_inert(s: StateView, from: Seq<char>, f: FrameView)
    requires
        f is Hello || f is Ack,
    ensures
        inbound_outcome(s, from, f) == (s, None::<EventView>),
{
}

/// A proposal or counter-offer received from a peer is never accepted by
/// itself: it waits at the local inbound gate, which it raises.
pub proof fn lemma_inbound_never_accepts(s: StateView, from: Seq<char>, proposal: ProposalView)
    ensures
        inbound_outcome(s, from, FrameView::Proposal { proposal: proposal }).0.pending[proposal.proposal_id].direction
            == ApprovalDirection::Inbound,
        inbound_outcome(s, from, FrameView::Counter { proposal: proposal }).0.pending[proposal.proposal_id].direction
            == ApprovalDirection::Inbound,
        inbound_outcome(s, from, FrameView::Proposal { proposal: proposal }).1 is Some,
{
}

// ── Call sequences ─────────────────────────────────────────────────

/// One call of an engine's handlers, by its arguments' views.
pub ghost enum Op {
    RegisterPeer(PeerView),
    Propose { to: Seq<char>, proposal: ProposalView },
    Inbound { from: Seq<char>, frame: FrameView },
    Approve(DecisionView),
    SetRelay(Option<RelayView>),
    SetSelfCard(Option<CardView>),
    ListPending,
    Compose,
}

/// The state after one call, as the methods' contracts state it.
pub open spec fn step(s: StateView, op: Op) -> StateView {
    match op {
        Op::RegisterPeer(p) => with_peer(s, p),
        Op::Propose { to, proposal } => propose_outcome(s, to, proposal),
        Op::Inbound { from, frame } => inbound_outcome(s, from, frame).0,
        Op::Approve(d) => approve_outcome(s, d).0,
        Op::SetRelay(r) => StateView { relay: r, ..s },
        Op::SetSelfCard(c) => StateView { self_card: c, ..s },
        Op::ListPending => s,
        Op::Compose => s,
    }
}

/// What one call hands over to be delivered to another engine, if anything.
pub open spec fn sends(s: StateView, op: Op) -> Option<DeliveryView> {
    match op {
        Op::Approve(d) => match approve_outcome(s, d).1 {
            Ok(dv) => Some(dv),
            Err(_) => None,
        },
        _ => None,
    }
}

/// The state after a sequence of calls.
pub open spec fn run(s: StateView, ops: Seq<Op>) -> StateView
    decreases ops.len(),
{
    if ops.len() == 0 {
        s
    } else {
        step(run(s, ops.drop_last()), ops.last())
    }
}

/// The frame a delivery carries.
pub open spec fn frame_of(dv: DeliveryView) -> FrameView {
    match dv {
        DeliveryView::Direct(p) => p.frame,
        DeliveryView::Relay(p) => p.frame,
    }
}

/// Some call of `ops` proposed `proposal` to `to`, a peer then known, and so
/// staged it for this engine's human.
pub open spec fn proposed_in(init: StateView, ops: Seq<Op>, to: Seq<char>, proposal: ProposalView) -> bool {
    exists|i: int|
        0 <= i < ops.len() && #[trigger] ops[i] == (Op::Propose { to: to, proposal: proposal })
            && run(init, ops.take(i)).peers.contains_key(to)
}

/// Some call of `ops` received `proposal` from `from` as a PROPOSAL or a
/// COUNTER, and so staged it for this engine's human.
pub open spec fn received_in(ops: Seq<Op>, from: Seq<char>, proposal: ProposalView) -> bool {
    exists|i: int|
        0 <= i < ops.len() && (#[trigger] ops[i] == (Op::Inbound {
            from: from,
            frame: FrameView::Proposal { proposal: proposal },
        }) || ops[i] == (Op::Inbound { from: from, frame: FrameView::Counter { proposal: proposal } }))
}

/// Every pending proposal is filed under its id and was staged by a call of
/// `ops`: outbound ones by a proposal to the peer it goes to, inbound ones by
/// a frame received from the peer the reply goes to.
pub open spec fn staged_by(init: StateView, ops: Seq<Op>) -> bool {
    forall|k: Seq<char>|
        #[trigger] run(init, ops).pending.contains_key(k) ==> {
            let e = run(init, ops).pending[k];
            &&& e.proposal.proposal_id == k
            &&& e.direction == ApprovalDirection::Outbound ==> proposed_in(
                init,
                ops,
                e.reply_to_peer_id,
                e.proposal,
            )
            &&& e.direction == ApprovalDirection::Inbound ==> received_in(ops, e.reply_to_peer_id, e.proposal)
        }
}

proof fn lemma_staged_by(init: StateView, ops: Seq<Op>)
    requires
        init.pending == Map::<Seq<char>, PendingView>::empty(),
    ensures
        staged_by(init, ops),
    decreases ops.len(),
{
    if ops.len() > 0 {
        let prev = ops.drop_last();
        let op = ops.last();
        let n = prev.len() as int;
        lemma_staged_by(init, prev);
        let s0 = run(init, prev);
        let s1 = run(init, ops);
        assert(s1 == step(s0, op));
        assert(ops.take(n) =~= prev);
        assert forall|k: Seq<char>| #[trigger] s1.pending.contains_key(k) implies {
            let e = s1.pending[k];
            &&& e.proposal.proposal_id == k
            &&& e.direction == ApprovalDirection::Outbound ==> proposed_in(init, ops, e.reply_to_peer_id, e.proposal)
            &&& e.direction == ApprovalDirection::Inbound ==> received_in(ops, e.reply_to_peer_id, e.proposal)
        } by {
            let e = s1.pending[k];
            if s0.pending.contains_key(k) && s0.pending[k] == e {
                let e0 = s0.pending[k];
                if e.direction == ApprovalDirection::Outbound {
                    let i = choose|i: int|
                        0 <= i < prev.len() && #[trigger] prev[i] == (Op::Propose {
                            to: e0.reply_to_peer_id,
                            proposal: e0.proposal,
                        }) && run(init, prev.take(i)).peers.contains_key(e0.reply_to_peer_id);
                    assert(ops[i] == prev[i]);
                    assert(ops.take(i) =~= prev.take(i));
                }
                if e.direction == ApprovalDirection::Inbound {
                    let i = choose|i: int|
                        0 <= i < prev.len() && (#[trigger] prev[i] == (Op::Inbound {
                            from: e0.reply_to_peer_id,
                            frame: FrameView::Proposal { proposal: e0.proposal },
                        }) || prev[i] == (Op::Inbound {
                            from: e0.reply_to_peer_id,
                            frame: FrameView::Counter { proposal: e0.proposal },
                        }));
                    assert(ops[i] == prev[i]);
                }
            } else {
                // The entry was staged by the last call.
                assert(ops[n] == op);
                match op {
                    Op::Propose { to, proposal } => {
                        assert(s0.peers.contains_key(to));
                    },
                    Op::Inbound { from, frame } => {},
                    _ => {},
                }
            }
        }
    }
}

/// Only a verdict sends anything, and only what the verdict and a staged
/// proposal call for. From an engine with nothing pending, whatever calls
/// came before: no call but `approve` hands over a frame; and the one frame
/// that `approve(d)` hands over is
/// - the proposal `p` itself only if the human approved and `p` was staged by
///   a call proposing it to that peer,
/// - READY only if the human approved a proposal received from that peer as a
///   PROPOSAL or COUNTER,
/// - REJECT only if the human rejected a pending proposal.
pub proof fn lemma_only_verdicts_send(init: StateView, ops: Seq<Op>, d: DecisionView)
    requires
        init.pending == Map::<Seq<char>, PendingView>::empty(),
    ensures
        forall|i: int|
            0 <= i < ops.len() && !(ops[i] is Approve) ==> sends(run(init, ops.take(i)), #[trigger] ops[i])
                is None,
        sends(run(init, ops), Op::Approve(d)) matches Some(dv) ==> {
            let s = run(init, ops);
            let e = s.pending[d.proposal_id];
            &&& s.pending.contains_key(d.proposal_id)
            &&& frame_of(dv) == verdict_frame(e, d)
            &&& match frame_of(dv) {
                FrameView::Proposal { proposal } => d.approved && proposal.proposal_id == d.proposal_id
                    && proposed_in(init, ops, e.reply_to_peer_id, proposal),
                FrameView::Ready { proposal_id } => d.approved && proposal_id == d.proposal_id
                    && e.direction == ApprovalDirection::Inbound && received_in(
                    ops,
                    e.reply_to_peer_id,
                    e.proposal,
                ),
                FrameView::Reject { proposal_id, reason } => !d.approved && proposal_id == d.proposal_id,
                _ => false,
            }
        },
{
    lemma_staged_by(init, ops);
    let s = run(init, ops);
    if s.pending.contains_key(d.proposal_id) {
        assert(s.pending[d.proposal_id].proposal.proposal_id == d.proposal_id);
    }
}

/// A verdict is consumed once: after `approve` on a pending proposal, and
/// any calls that do not stage that id again, a second verdict on the same id
/// is refused as unknown, whatever the first one's outcome.
pub proof fn lemma_verdict_consumed_once(s: StateView, d1: DecisionView, ops: Seq<Op>, d2: DecisionView)
    requires
        d2.proposal_id == d1.proposal_id,
        forall|i: int|
            0 <= i < ops.len() ==> !restages(run(approve_outcome(s, d1).0, ops.take(i)), #[trigger] ops[i], d1.proposal_id),
    ensures
        !run(approve_outcome(s, d1).0, ops).pending.contains_key(d1.proposal_id),
        approve_outcome(run(approve_outcome(s, d1).0, ops), d2).1 == Err::<DeliveryView, ErrorView>(
            ErrorView::NotFound("no such pending proposal"@),
        ),
    decreases ops.len(),
{
    let s1 = approve_outcome(s, d1).0;
    if ops.len() > 0 {
        let prev = ops.drop_last();
        let n = prev.len() as int;
        assert forall|i: int| 0 <= i < prev.len() implies !restages(run(s1, prev.take(i)), #[trigger] prev[i], d1.proposal_id) by {
            assert(prev[i] == ops[i]);
            assert(prev.take(i) =~= ops.take(i));
        }
        lemma_verdict_consumed_once(s, d1, prev, d2);
        assert(ops.take(n) =~= prev);
        assert(!restages(run(s1, ops.take(n)), ops[n], d1.proposal_id));
    }
}

/// `op`, made in state `s`, stages a proposal with id `id`: a proposal to a
/// peer known in `s`, or a PROPOSAL or COUNTER received from a peer.
pub open spec fn restages(s: StateView, op: Op, id: Seq<char>) -> bool {
    match op {
        Op::Propose { to, proposal } => proposal.proposal_id == id && s.peers.contains_key(to),
        Op::Inbound { frame, .. } => match frame {
            FrameView::Proposal { proposal } => proposal.proposal_id == id,
            FrameView::Counter { proposal } => proposal.proposal_id == id,
            _ => false,
        },
        _ => false,
    }
}

/// A registered peer stays registered until it is registered again: after
/// `register_peer(pe)` and any calls that do not register the same peer id,
/// proposing to it succeeds and waits for this engine's human, addressed to it
/// and shown with its card.
pub proof fn lemma_registered_peer_stays(s: StateView, pe: PeerView, ops: Seq<Op>, proposal: ProposalView)
    requires
        forall|i: int| 0 <= i < ops.len() ==> !(#[trigger] ops[i] matches Op::RegisterPeer(q) && q.peer_id == pe.peer_id),
    ensures
        run(with_peer(s, pe), ops).peers.contains_key(pe.peer_id),
        run(with_peer(s, pe), ops).peers[pe.peer_id] == pe,
        propose_outcome(run(with_peer(s, pe), ops), pe.peer_id, proposal).pending[proposal.proposal_id] == (PendingView {
            proposal: proposal,
            peer: pe.card,
            direction: ApprovalDirection::Outbound,
            reply_to_peer_id: pe.peer_id,
        }),
    decreases ops.len(),
{
    if ops.len() > 0 {
        let prev = ops.drop_last();
        assert forall|i: int| 0 <= i < prev.len() implies !(#[trigger] prev[i] matches Op::RegisterPeer(q) && q.peer_id == pe.peer_id) by {
            assert(prev[i] == ops[i]);
        }
        lemma_registered_peer_stays(s, pe, prev, proposal);
        assert(!(ops[ops.len() - 1] matches Op::RegisterPeer(q) && q.peer_id == pe.peer_id));
    }
}

} // verus!
