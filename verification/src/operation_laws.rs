//! What each operation does, stated over its inputs and results for every
//! input: which entries it adds, keeps and removes, which event it raises,
//! and which frame it sends where.
use vstd::prelude::*;

use crate::capcom::{
    approve_outcome, direct_post_view, inbound_outcome, outbound_gate, peer_card, propose_outcome,
    relay_post_view, with_peer, DeliveryView, PeerPostView, PeerView, PendingView, RelayPostView,
    StateView,
};
use crate::compose::{fallback_proposal, label_intent, reply_proposal, ReplyView};
use crate::error::{code_of, status_of, ErrorCode, ErrorView};
use crate::protocol::{
    ApprovalDirection, ApprovalRequestView, CardView, DecisionView, EventView, FrameView,
    ProposalIntent, ProposalView,
};
use crate::text::{
    contains_seq, first_index, has_brace_pair, json_escaped, json_object_span, json_string_literal,
    lemma_first_index, lowercase, prefix_chars,
};

verus! {

/// `t` holds the same pending proposals as `s` under every id but `id`.
pub open spec fn same_pending_except(s: StateView, t: StateView, id: Seq<char>) -> bool {
    forall|k: Seq<char>|
        k != id ==> (#[trigger] t.pending.contains_key(k) == s.pending.contains_key(k) && (
        s.pending.contains_key(k) ==> t.pending[k] == s.pending[k]))
}

/// `t` differs from `s` in its pending proposals at most.
pub open spec fn same_besides_pending(s: StateView, t: StateView) -> bool {
    t.peers == s.peers && t.relay == s.relay && t.self_card == s.self_card
}

/// The card shown for a peer: the registered card when the peer is known,
/// else a card with the peer's id, the name "Unknown peer (<id>)", the role
/// "unknown", and no skills or integrations.
pub proof fn lemma_peer_card(s: StateView, id: Seq<char>)
    ensures
        s.peers.contains_key(id) ==> peer_card(s, id) == s.peers[id].card,
        !s.peers.contains_key(id) ==> peer_card(s, id) == (CardView {
            id: id,
            name: "Unknown peer ("@ + id + ")"@,
            role: "unknown"@,
            skills: Seq::empty(),
            integrations: Seq::empty(),
        }),
{
}

/// Registering a peer files it under its own id, replaces any peer with that
/// id, and leaves every other peer and every pending proposal as they were.
pub proof fn lemma_register_peer(s: StateView, p: PeerView)
    ensures
        with_peer(s, p).peers.contains_key(p.peer_id),
        with_peer(s, p).peers[p.peer_id] == p,
        forall|k: Seq<char>|
            k != p.peer_id ==> (#[trigger] with_peer(s, p).peers.contains_key(k) == s.peers.contains_key(k)
                && (s.peers.contains_key(k) ==> with_peer(s, p).peers[k] == s.peers[k])),
        with_peer(s, p).pending == s.pending,
        with_peer(s, p).relay == s.relay,
        with_peer(s, p).self_card == s.self_card,
{
}

/// Proposing to a known peer adds exactly one pending proposal: the one
/// proposed, outbound, shown with the peer's card and answered to that peer;
/// every other pending proposal stays as it was. The approval request shows
/// the same proposal, card and direction. Proposing to an unknown peer
/// changes nothing.
pub proof fn lemma_propose(s: StateView, to: Seq<char>, p: ProposalView)
    ensures
        s.peers.contains_key(to) ==> {
            let t = propose_outcome(s, to, p);
            &&& t.pending.contains_key(p.proposal_id)
            &&& t.pending[p.proposal_id] == (PendingView {
                proposal: p,
                peer: s.peers[to].card,
                direction: ApprovalDirection::Outbound,
                reply_to_peer_id: to,
            })
            &&& same_pending_except(s, t, p.proposal_id)
            &&& same_besides_pending(s, t)
            &&& outbound_gate(s, to, p) == (ApprovalRequestView {
                proposal: p,
                peer: s.peers[to].card,
                direction: ApprovalDirection::Outbound,
            })
        },
        !s.peers.contains_key(to) ==> propose_outcome(s, to, p) == s,
{
}

/// A received PROPOSAL and a received COUNTER are handled alike: the
/// proposal waits for the local human, inbound, shown with the sender's card
/// and answered to the sender; every other pending proposal stays as it was;
/// and the approval request raised shows that proposal, card and direction.
pub proof fn lemma_inbound_offer(s: StateView, from: Seq<char>, p: ProposalView)
    ensures
        inbound_outcome(s, from, FrameView::Counter { proposal: p }) == inbound_outcome(
            s,
            from,
            FrameView::Proposal { proposal: p },
        ),
        ({
            let (t, ev) = inbound_outcome(s, from, FrameView::Proposal { proposal: p });
            &&& t.pending.contains_key(p.proposal_id)
            &&& t.pending[p.proposal_id] == (PendingView {
                proposal: p,
                peer: peer_card(s, from),
                direction: ApprovalDirection::Inbound,
                reply_to_peer_id: from,
            })
            &&& same_pending_except(s, t, p.proposal_id)
            &&& same_besides_pending(s, t)
            &&& ev == Some(
                EventView::ApprovalRequest(
                    ApprovalRequestView {
                        proposal: p,
                        peer: peer_card(s, from),
                        direction: ApprovalDirection::Inbound,
                    },
                ),
            )
        }),
{
}

/// READY and REJECT settle exactly the negotiation they name: it is no longer
/// pending, every other pending proposal stays, and a toast tells the human
/// ("Deal <id> accepted by peer" as a success, "Deal <id> rejected:
/// <reason>" as an error).
pub proof fn lemma_inbound_settle(s: StateView, from: Seq<char>, id: Seq<char>, reason: Seq<char>)
    ensures
        ({
            let (t, ev) = inbound_outcome(s, from, FrameView::Ready { proposal_id: id });
            &&& !t.pending.contains_key(id)
            &&& same_pending_except(s, t, id)
            &&& same_besides_pending(s, t)
            &&& ev == Some(
                EventView::Toast { message: "Deal "@ + id + " accepted by peer"@, variant: "success"@ },
            )
        }),
        ({
            let (t, ev) = inbound_outcome(s, from, FrameView::Reject { proposal_id: id, reason: reason });
            &&& !t.pending.contains_key(id)
            &&& same_pending_except(s, t, id)
            &&& same_besides_pending(s, t)
            &&& ev == Some(
                EventView::Toast { message: "Deal "@ + id + " rejected: "@ + reason, variant: "error"@ },
            )
        }),
{
}

/// A verdict on an unknown proposal is refused with "no such pending
/// proposal" and changes nothing. A verdict on a pending proposal removes
/// that proposal and no other, and the frame it sends is the proposal itself
/// (approved, outbound), READY with its id (approved, inbound), or REJECT with
/// its id and the human's reason, "declined by human" when none is given.
/// With a relay the frame goes into the relay mailbox for the peer the
/// proposal answers to; without one it goes straight to that peer's inbound
/// route, announced under this engine's id for that peer, or is refused with
/// "peer gone" when that peer is no longer registered.
pub proof fn lemma_approve(s: StateView, d: DecisionView)
    ensures
        !s.pending.contains_key(d.proposal_id) ==> approve_outcome(s, d) == (
            s,
            Err::<DeliveryView, ErrorView>(ErrorView::NotFound("no such pending proposal"@)),
        ),
        s.pending.contains_key(d.proposal_id) ==> {
            let e = s.pending[d.proposal_id];
            let (t, r) = approve_outcome(s, d);
            let frame = if d.approved {
                if e.direction == ApprovalDirection::Outbound {
                    FrameView::Proposal { proposal: e.proposal }
                } else {
                    FrameView::Ready { proposal_id: d.proposal_id }
                }
            } else {
                FrameView::Reject {
                    proposal_id: d.proposal_id,
                    reason: match d.reason {
                        Some(x) => x,
                        None => "declined by human"@,
                    },
                }
            };
            &&& !t.pending.contains_key(d.proposal_id)
            &&& same_pending_except(s, t, d.proposal_id)
            &&& same_besides_pending(s, t)
            &&& match s.relay {
                Some(relay) => r == Ok::<DeliveryView, ErrorView>(
                    DeliveryView::Relay(
                        RelayPostView {
                            url: relay.url + "/room/"@ + relay.room + "/send"@,
                            bearer: relay.token,
                            from: relay.self_id,
                            to: e.reply_to_peer_id,
                            frame: frame,
                        },
                    ),
                ),
                None => if s.peers.contains_key(e.reply_to_peer_id) {
                    let peer = s.peers[e.reply_to_peer_id];
                    r == Ok::<DeliveryView, ErrorView>(
                        DeliveryView::Direct(
                            PeerPostView {
                                url: peer.base_url + "/v1/capcom/inbound"@,
                                bearer: peer.token,
                                from_peer_id: peer.self_id,
                                frame: frame,
                            },
                        ),
                    )
                } else {
                    r == Err::<DeliveryView, ErrorView>(ErrorView::BadRequest("peer gone"@))
                },
            }
        },
{
}

/// The POSTs carry the frame unchanged: straight to a peer's inbound route
/// with its token, announced under the id this engine uses towards it; or
/// into the relay room's mailbox with the relay token, from this engine's
/// relay id to the addressed agent.
pub proof fn lemma_posts(peer: PeerView, relay: crate::capcom::RelayView, to: Seq<char>, f: FrameView)
    ensures
        direct_post_view(peer, f) == (PeerPostView {
            url: peer.base_url + "/v1/capcom/inbound"@,
            bearer: peer.token,
            from_peer_id: peer.self_id,
            frame: f,
        }),
        relay_post_view(relay, to, f) == (RelayPostView {
            url: relay.url + "/room/"@ + relay.room + "/send"@,
            bearer: relay.token,
            from: relay.self_id,
            to: to,
            frame: f,
        }),
{
}

/// A proposal built from the assistant's reply goes from the request's
/// sender to the request's recipient under the drawn id, asks for approval,
/// and carries the reply's subject, terms and message; its intent is the one
/// the reply names ("lead_handoff", "meeting", "data_share"), `Other` for any
/// other label.
pub proof fn lemma_reply_proposal(from_agent: Seq<char>, to_agent: Seq<char>, pid: Seq<char>, f: ReplyView)
    ensures
        reply_proposal(from_agent, to_agent, pid, f).from_agent == from_agent,
        reply_proposal(from_agent, to_agent, pid, f).to_agent == to_agent,
        reply_proposal(from_agent, to_agent, pid, f).proposal_id == pid,
        reply_proposal(from_agent, to_agent, pid, f).requires_approval,
        reply_proposal(from_agent, to_agent, pid, f).subject == f.subject,
        reply_proposal(from_agent, to_agent, pid, f).terms == f.terms,
        reply_proposal(from_agent, to_agent, pid, f).message == f.message,
        f.intent == "lead_handoff"@ ==> reply_proposal(from_agent, to_agent, pid, f).intent
            == ProposalIntent::LeadHandoff,
        f.intent == "meeting"@ ==> reply_proposal(from_agent, to_agent, pid, f).intent == ProposalIntent::Meeting,
        f.intent == "data_share"@ ==> reply_proposal(from_agent, to_agent, pid, f).intent
            == ProposalIntent::DataShare,
        f.intent != "lead_handoff"@ && f.intent != "meeting"@ && f.intent != "data_share"@ ==> reply_proposal(
            from_agent,
            to_agent,
            pid,
            f,
        ).intent == ProposalIntent::Other,
        label_intent(f.intent) == reply_proposal(from_agent, to_agent, pid, f).intent,
{
    reveal_strlit("lead_handoff");
    reveal_strlit("meeting");
    reveal_strlit("data_share");
    assert("lead_handoff"@.len() == 12 && "meeting"@.len() == 7 && "data_share"@.len() == 10);
}

/// The fallback reads the intent off the lowercased instruction only, so
/// instructions that differ only in case get the same intent. The first
/// keyword class present decides: "skill" gives `Other`; else "review" or
/// "contract" gives `DataShare`; else "meet" or "intro" gives `Meeting`;
/// else `LeadHandoff`. The proposal goes from the request's sender to its
/// recipient under the drawn id, echoes the instruction as its message, and
/// asks for approval.
pub proof fn lemma_fallback_intent(
    a: Seq<char>,
    b: Seq<char>,
    from_agent: Seq<char>,
    to_agent: Seq<char>,
    pid: Seq<char>,
)
    ensures
        lowercase(a) == lowercase(b) ==> fallback_proposal(a, from_agent, to_agent, pid).intent
            == fallback_proposal(b, from_agent, to_agent, pid).intent,
        ({
            let l = lowercase(a);
            let i = fallback_proposal(a, from_agent, to_agent, pid).intent;
            &&& contains_seq(l, "skill"@) ==> i == ProposalIntent::Other
            &&& !contains_seq(l, "skill"@) && (contains_seq(l, "review"@) || contains_seq(l, "contract"@))
                ==> i == ProposalIntent::DataShare
            &&& !contains_seq(l, "skill"@) && !contains_seq(l, "review"@) && !contains_seq(l, "contract"@)
                && (contains_seq(l, "meet"@) || contains_seq(l, "intro"@)) ==> i == ProposalIntent::Meeting
            &&& !contains_seq(l, "skill"@) && !contains_seq(l, "review"@) && !contains_seq(l, "contract"@)
                && !contains_seq(l, "meet"@) && !contains_seq(l, "intro"@) ==> i == ProposalIntent::LeadHandoff
        }),
        fallback_proposal(a, from_agent, to_agent, pid).from_agent == from_agent,
        fallback_proposal(a, from_agent, to_agent, pid).to_agent == to_agent,
        fallback_proposal(a, from_agent, to_agent, pid).proposal_id == pid,
        fallback_proposal(a, from_agent, to_agent, pid).message == a,
        fallback_proposal(a, from_agent, to_agent, pid).requires_approval,
{
}

/// Each error class is answered with its HTTP status: not found 404,
/// conflict and version mismatch 409, bad request 400, unauthorized 401,
/// forbidden 403, unavailable 503, internal 500; and each error of these
/// routes has the class of its kind.
pub proof fn lemma_statuses(m: Seq<char>)
    ensures
        status_of(ErrorCode::NotFound) == 404,
        status_of(ErrorCode::Conflict) == 409,
        status_of(ErrorCode::BadRequest) == 400,
        status_of(ErrorCode::Unauthorized) == 401,
        status_of(ErrorCode::Forbidden) == 403,
        status_of(ErrorCode::Unavailable) == 503,
        status_of(ErrorCode::VersionMismatch) == 409,
        status_of(ErrorCode::Internal) == 500,
        code_of(ErrorView::BadRequest(m)) == ErrorCode::BadRequest,
        code_of(ErrorView::NotFound(m)) == ErrorCode::NotFound,
        code_of(ErrorView::Internal(m)) == ErrorCode::Internal,
{
}

/// The first `n` characters: as many as the text has, up to `n`, and a
/// prefix of it.
pub proof fn lemma_prefix_chars(s: Seq<char>, n: nat)
    ensures
        prefix_chars(s, n).len() == if n <= s.len() { n } else { s.len() },
        forall|i: int| 0 <= i < prefix_chars(s, n).len() ==> #[trigger] prefix_chars(s, n)[i] == s[i],
{
}

/// The object found in a reply is a stretch of the reply that starts at its
/// first `{`, and there is one exactly when some `{` comes before some `}`.
pub proof fn lemma_json_object_span(s: Seq<char>)
    ensures
        json_object_span(s) matches Some(t) ==> {
            let f = first_index(s, '{');
            &&& 0 <= f < s.len()
            &&& s[f] == '{'
            &&& forall|j: int| 0 <= j < f ==> s[j] != '{'
            &&& f + t.len() <= s.len()
            &&& t == s.subrange(f, f + t.len())
        },
        json_object_span(s) is Some ==> has_brace_pair(s),
{
    lemma_first_index(s, '{');
    crate::text::lemma_last_index(s, '}');
    crate::text::lemma_brace_pair(s);
    let f = first_index(s, '{');
    if f < s.len() && exists|e: int| crate::text::closes_at(s, f, e) {
        let e = choose|e: int| crate::text::closes_at(s, f, e);
        assert(crate::text::scan(s, f, f).depth == 0 && !crate::text::scan(s, f, f).in_string);
        assert(crate::text::scan(s, f, f + 1) == crate::text::scan_step(crate::text::scan(s, f, f), s[f]));
        assert(crate::text::scan(s, f, f + 1).depth == 1);
        assert(e > f);
        assert(crate::text::scan(s, f, e).depth > 0);
        assert(crate::text::scan(s, f, e + 1) == crate::text::scan_step(crate::text::scan(s, f, e), s[e]));
        assert(s[e] == '}');
        assert(0 <= f < e < s.len() && s[f] == '{' && s[e] == '}');
    }
}

/// A text with no quote, backslash or control character is quoted as
/// itself between double quotes.
pub proof fn lemma_plain_json_literal(s: Seq<char>)
    requires
        forall|i: int| 0 <= i < s.len() ==> #[trigger] s[i] != '"' && s[i] != '\\' && (s[i] as int) >= 0x20,
    ensures
        json_escaped(s) == s,
        json_string_literal(s) == seq!['"'] + s + seq!['"'],
    decreases s.len(),
{
    if s.len() > 0 {
        let p = s.drop_last();
        assert forall|i: int| 0 <= i < p.len() implies #[trigger] p[i] != '"' && p[i] != '\\' && (p[i] as int) >= 0x20 by {
            assert(p[i] == s[i]);
        }
        lemma_plain_json_literal(p);
        let c = s.last();
        assert(c == s[s.len() - 1]);
        assert(c != '\u{8}' && c != '\t' && c != '\n' && c != '\u{c}' && c != '\r') by {
            assert((c as int) >= 0x20);
        }
        assert(s =~= p + seq![c]);
    }
}

} // verus!
