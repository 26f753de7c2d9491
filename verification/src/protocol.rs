//! The negotiation vocabulary: agent cards, proposals, frames, verdicts and
//! the events that raise a human gate.
//!
//! Every type has a view made of plain mathematical values (`Seq<char>` for
//! text), and a `clone` whose result has the same view.
use vstd::prelude::*;

verus! {

// ── Views ──────────────────────────────────────────────────────────

/// View of an [`AgentCard`].
#[verifier::ext_equal]
pub ghost struct CardView {
    pub id: Seq<char>,
    pub name: Seq<char>,
    pub role: Seq<char>,
    pub skills: Seq<Seq<char>>,
    pub integrations: Seq<Seq<char>>,
}

/// View of a [`CapcomProposal`].
#[verifier::ext_equal]
pub ghost struct ProposalView {
    pub proposal_id: Seq<char>,
    pub from_agent: Seq<char>,
    pub to_agent: Seq<char>,
    pub intent: ProposalIntent,
    pub subject: Seq<char>,
    pub terms: Seq<char>,
    pub message: Seq<char>,
    pub requires_approval: bool,
}

/// View of an [`ApprovalRequest`].
#[verifier::ext_equal]
pub ghost struct ApprovalRequestView {
    pub proposal: ProposalView,
    pub peer: CardView,
    pub direction: ApprovalDirection,
}

/// View of a [`CapcomFrame`].
pub ghost enum FrameView {
    Hello { card: CardView },
    Ack { card: CardView },
    Proposal { proposal: ProposalView },
    Counter { proposal: ProposalView },
    Ready { proposal_id: Seq<char> },
    Reject { proposal_id: Seq<char>, reason: Seq<char> },
}

/// View of an [`ApprovalDecision`].
#[verifier::ext_equal]
pub ghost struct DecisionView {
    pub proposal_id: Seq<char>,
    pub approved: bool,
    pub reason: Option<Seq<char>>,
}

/// View of a [`HoustonEvent`].
pub ghost enum EventView {
    ApprovalRequest(ApprovalRequestView),
    Toast { message: Seq<char>, variant: Seq<char> },
}

/// The characters of each string of a vector.
pub open spec fn strings_view(v: Seq<String>) -> Seq<Seq<char>> {
    v.map_values(|s: String| s@)
}

// ── Types ──────────────────────────────────────────────────────────

/// What an agent advertises about itself in HELLO/ACK.
pub struct AgentCard {
    pub id: String,
    pub name: String,
    pub role: String,
    pub skills: Vec<String>,
    pub integrations: Vec<String>,
}

/// What a proposal asks for.
#[derive(Clone, Copy, Debug, PartialEq, Eq, Structural)]
pub enum ProposalIntent {
    LeadHandoff,
    Meeting,
    DataShare,
    Other,
}

/// Which side of the user boundary a gated action crosses.
#[derive(Clone, Copy, Debug, PartialEq, Eq, Structural)]
pub enum ApprovalDirection {
    /// The action leaves this user's side.
    Outbound,
    /// The action enters this user's side.
    Inbound,
}

/// An offer made by one agent to another. `terms` holds the intent-specific
/// terms as JSON text.
pub struct CapcomProposal {
    pub proposal_id: String,
    pub from_agent: String,
    pub to_agent: String,
    pub intent: ProposalIntent,
    pub subject: String,
    pub terms: String,
    pub message: String,
    pub requires_approval: bool,
}

/// The payload of the human gate: the proposal, the peer, and the direction.
pub struct ApprovalRequest {
    pub proposal: CapcomProposal,
    pub peer: AgentCard,
    pub direction: ApprovalDirection,
}

/// The frames that two engines exchange while negotiating.
pub enum CapcomFrame {
    /// Opener: "here's who I am, want to talk?"
    Hello { card: AgentCard },
    /// Reply to HELLO: "here's who I am back."
    Ack { card: AgentCard },
    /// A makes an offer.
    Proposal { proposal: CapcomProposal },
    /// B counter-offers.
    Counter { proposal: CapcomProposal },
    /// Deal accepted: both human gates passed.
    Ready { proposal_id: String },
    /// Either side declines; `reason` is shown to the other human.
    Reject { proposal_id: String, reason: String },
}

/// The human's verdict on a pending proposal.
pub struct ApprovalDecision {
    pub proposal_id: String,
    pub approved: bool,
    pub reason: Option<String>,
}

/// The events this module raises towards the local user interface.
pub enum HoustonEvent {
    /// A human gate: the user must approve or reject.
    ApprovalRequest(ApprovalRequest),
    /// A short notice.
    Toast { message: String, variant: String },
}

// ── View impls ─────────────────────────────────────────────────────

impl View for AgentCard {
    type V = CardView;

    open spec fn view(&self) -> CardView {
        CardView {
            id: self.id@,
            name: self.name@,
            role: self.role@,
            skills: strings_view(self.skills@),
            integrations: strings_view(self.integrations@),
        }
    }
}

impl View for CapcomProposal {
    type V = ProposalView;

    open spec fn view(&self) -> ProposalView {
        ProposalView {
            proposal_id: self.proposal_id@,
            from_agent: self.from_agent@,
            to_agent: self.to_agent@,
            intent: self.intent,
            subject: self.subject@,
            terms: self.terms@,
            message: self.message@,
            requires_approval: self.requires_approval,
        }
    }
}

impl View for ApprovalRequest {
    type V = ApprovalRequestView;

    open spec fn view(&self) -> ApprovalRequestView {
        ApprovalRequestView { proposal: self.proposal@, peer: self.peer@, direction: self.direction }
    }
}

impl View for CapcomFrame {
    type V = FrameView;

    open spec fn view(&self) -> FrameView {
        match self {
            CapcomFrame::Hello { card } => FrameView::Hello { card: card@ },
            CapcomFrame::Ack { card } => FrameView::Ack { card: card@ },
            CapcomFrame::Proposal { proposal } => FrameView::Proposal { proposal: proposal@ },
            CapcomFrame::Counter { proposal } => FrameView::Counter { proposal: proposal@ },
            CapcomFrame::Ready { proposal_id } => FrameView::Ready { proposal_id: proposal_id@ },
            CapcomFrame::Reject { proposal_id, reason } => FrameView::Reject {
                proposal_id: proposal_id@,
                reason: reason@,
            },
        }
    }
}

impl View for ApprovalDecision {
    type V = DecisionView;

    open spec fn view(&self) -> DecisionView {
        DecisionView {
            proposal_id: self.proposal_id@,
            approved: self.approved,
            reason: match self.reason {
                Some(r) => Some(r@),
                None => None,
            },
        }
    }
}

impl View for HoustonEvent {
    type V = EventView;

    open spec fn view(&self) -> EventView {
        match self {
            HoustonEvent::ApprovalRequest(r) => EventView::ApprovalRequest(r@),
            HoustonEvent::Toast { message, variant } => EventView::Toast {
                message: message@,
                variant: variant@,
            },
        }
    }
}

// ── Clones ─────────────────────────────────────────────────────────

/// A copy of a vector of strings, string for string.
pub fn clone_strings(v: &Vec<String>) -> (r: Vec<String>)
    ensures
        strings_view(r@) == strings_view(v@),
{
    let mut r: Vec<String> = Vec::new();
    let n = v.len();
    let mut i: usize = 0;
    while i < n
        invariant
            n == v@.len(),
            i <= n,
            r@.len() == i,
            forall|j: int| 0 <= j < i ==> (#[trigger] r@[j])@ == v@[j]@,
        decreases n - i,
    {
        r.push(v[i].clone());
        i = i + 1;
    }
    assert(strings_view(r@) =~= strings_view(v@));
    r
}

impl Clone for AgentCard {
    fn clone(&self) -> (r: Self)
        ensures
            r@ == self@,
    {
        AgentCard {
            id: self.id.clone(),
            name: self.name.clone(),
            role: self.role.clone(),
            skills: clone_strings(&self.skills),
            integrations: clone_strings(&self.integrations),
        }
    }
}

impl Clone for CapcomProposal {
    fn clone(&self) -> (r: Self)
        ensures
            r@ == self@,
    {
        CapcomProposal {
            proposal_id: self.proposal_id.clone(),
            from_agent: self.from_agent.clone(),
            to_agent: self.to_agent.clone(),
            intent: self.intent,
            subject: self.subject.clone(),
            terms: self.terms.clone(),
            message: self.message.clone(),
            requires_approval: self.requires_approval,
        }
    }
}

impl Clone for ApprovalRequest {
    fn clone(&self) -> (r: Self)
        ensures
            r@ == self@,
    {
        ApprovalRequest {
            proposal: self.proposal.clone(),
            peer: self.peer.clone(),
            direction: self.direction,
        }
    }
}

impl Clone for CapcomFrame {
    fn clone(&self) -> (r: Self)
        ensures
            r@ == self@,
    {
        match self {
            CapcomFrame::Hello { card } => CapcomFrame::Hello { card: card.clone() },
            CapcomFrame::Ack { card } => CapcomFrame::Ack { card: card.clone() },
            CapcomFrame::Proposal { proposal } => CapcomFrame::Proposal { proposal: proposal.clone() },
            CapcomFrame::Counter { proposal } => CapcomFrame::Counter { proposal: proposal.clone() },
            CapcomFrame::Ready { proposal_id } => CapcomFrame::Ready { proposal_id: proposal_id.clone() },
            CapcomFrame::Reject { proposal_id, reason } => CapcomFrame::Reject {
                proposal_id: proposal_id.clone(),
                reason: reason.clone(),
            },
        }
    }
}

impl Clone for ApprovalDecision {
    fn clone(&self) -> (r: Self)
        ensures
            r@ == self@,
    {
        let reason = match &self.reason {
            Some(s) => Some(s.clone()),
            None => None,
        };
        ApprovalDecision { proposal_id: self.proposal_id.clone(), approved: self.approved, reason }
    }
}

impl Clone for HoustonEvent {
    fn clone(&self) -> (r: Self)
        ensures
            r@ == self@,
    {
        match self {
            HoustonEvent::ApprovalRequest(req) => HoustonEvent::ApprovalRequest(req.clone()),
            HoustonEvent::Toast { message, variant } => HoustonEvent::Toast {
                message: message.clone(),
                variant: variant.clone(),
            },
        }
    }
}

} // verus!
