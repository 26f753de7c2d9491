//! Composing a structured proposal from a free-text instruction: from the
//! reply of the engine's assistant CLI when there is one, else by a keyword
//! heuristic that always succeeds.
use vstd::prelude::*;

use crate::protocol::{CapcomProposal, ProposalIntent, ProposalView};
use crate::text::{
    concat3, contains_seq, contains_text, extract_json_object, json_object_span, json_quote,
    json_string_literal, lowercase, prefix_chars, take_chars, to_lowercase,
};

verus! {

/// Body of the route that composes a proposal.
pub struct ComposeRequest {
    pub instruction: String,
    /// Who the caller addresses; carried for its follow-up `propose`.
    pub to_peer_id: String,
    pub from_agent: String,
    pub to_agent: String,
}

/// The composed proposal and which path composed it ("assistant" or "fallback").
pub struct ComposeResponse {
    pub proposal: CapcomProposal,
    pub source: String,
}

/// How many characters of the instruction the fallback keeps as the subject.
pub const SUBJECT_CHARS: usize = 60;

/// The intent that the fallback reads off the lowercased instruction.
pub open spec fn fallback_intent(lower: Seq<char>) -> ProposalIntent {
    if contains_seq(lower, "skill"@) {
        ProposalIntent::Other
    } else if contains_seq(lower, "review"@) || contains_seq(lower, "contract"@) {
        ProposalIntent::DataShare
    } else if contains_seq(lower, "meet"@) || contains_seq(lower, "intro"@) {
        ProposalIntent::Meeting
    } else {
        ProposalIntent::LeadHandoff
    }
}

/// The proposal the fallback composes: the instruction echoed as message,
/// its first characters as subject, and `{"instruction": ...}` as terms.
pub open spec fn fallback_proposal(
    instruction: Seq<char>,
    from_agent: Seq<char>,
    to_agent: Seq<char>,
    pid: Seq<char>,
) -> ProposalView {
    ProposalView {
        proposal_id: pid,
        from_agent: from_agent,
        to_agent: to_agent,
        intent: fallback_intent(lowercase(instruction)),
        subject: prefix_chars(instruction, SUBJECT_CHARS as nat),
        terms: "{\"instruction\":"@ + json_string_literal(instruction) + "}"@,
        message: instruction,
        requires_approval: true,
    }
}

/// The intent named by a label of the reply format; any other label is `Other`.
pub open spec fn label_intent(label: Seq<char>) -> ProposalIntent {
    if label == "lead_handoff"@ {
        ProposalIntent::LeadHandoff
    } else if label == "meeting"@ {
        ProposalIntent::Meeting
    } else if label == "data_share"@ {
        ProposalIntent::DataShare
    } else {
        ProposalIntent::Other
    }
}

/// The instructions given to the assistant, naming both agents.
pub open spec fn system_prompt(from_agent: Seq<char>, to_agent: Seq<char>) -> Seq<char> {
    PROMPT_HEAD@ + from_agent + " to_agent="@ + to_agent + "."@
}

/// The fixed part of the instructions given to the assistant, up to the sender's id.
pub const PROMPT_HEAD: &'static str = "You convert a user instruction into a CAPCOM proposal for agent-to-agent negotiation. Output ONLY minified JSON, no prose, matching exactly: {\"intent\":\"lead_handoff|data_share|meeting|other\",\"subject\":\"short title\",\"terms\":{...relevant key/values...},\"message\":\"one sentence to the peer\"}. from_agent=";

/// Whether two texts are equal.
pub fn text_eq(a: &str, b: &str) -> (r: bool)
    ensures
        r == (a@ == b@),
{
    let x = a.to_owned();
    let y = b.to_owned();
    x == y
}

/// The intent named by a label of the reply format.
pub fn intent_from_label(label: &str) -> (r: ProposalIntent)
    ensures
        r == label_intent(label@),
{
    if text_eq(label, "lead_handoff") {
        ProposalIntent::LeadHandoff
    } else if text_eq(label, "meeting") {
        ProposalIntent::Meeting
    } else if text_eq(label, "data_share") {
        ProposalIntent::DataShare
    } else {
        ProposalIntent::Other
    }
}

/// The assistant's instructions when composing for `from_agent` to `to_agent`.
pub fn assistant_system_prompt(from_agent: &str, to_agent: &str) -> (r: String)
    ensures
        r@ == system_prompt(from_agent@, to_agent@),
{
    let mut r = PROMPT_HEAD.to_owned();
    r.append(from_agent);
    r.append(" to_agent=");
    r.append(to_agent);
    r.append(".");
    r
}

/// The proposal built from the fields of the assistant's reply.
pub fn proposal_from_reply(
    req: &ComposeRequest,
    pid: &str,
    intent: &str,
    subject: String,
    terms: String,
    message: String,
) -> (p: CapcomProposal)
    ensures
        p@ == (ProposalView {
            proposal_id: pid@,
            from_agent: req.from_agent@,
            to_agent: req.to_agent@,
            intent: label_intent(intent@),
            subject: subject@,
            terms: terms@,
            message: message@,
            requires_approval: true,
        }),
{
    CapcomProposal {
        proposal_id: pid.to_owned(),
        from_agent: req.from_agent.clone(),
        to_agent: req.to_agent.clone(),
        intent: intent_from_label(intent),
        subject,
        terms,
        message,
        requires_approval: true,
    }
}

/// The keyword heuristic: sniff the intent from the instruction and echo it.
pub fn compose_fallback(req: &ComposeRequest, pid: &str) -> (p: CapcomProposal)
    ensures
        p@ == fallback_proposal(req.instruction@, req.from_agent@, req.to_agent@, pid@),
        p@.intent == fallback_intent(lowercase(req.instruction@)),
        p@.from_agent == req.from_agent@ && p@.to_agent == req.to_agent@ && p@.proposal_id == pid@,
        p@.message == req.instruction@ && p@.requires_approval,
{
    let lower = to_lowercase(req.instruction.as_str());
    let l = lower.as_str();
    let intent = if contains_text(l, "skill") {
        ProposalIntent::Other
    } else if contains_text(l, "review") || contains_text(l, "contract") {
        ProposalIntent::DataShare
    } else if contains_text(l, "meet") || contains_text(l, "intro") {
        ProposalIntent::Meeting
    } else {
        ProposalIntent::LeadHandoff
    };
    let quoted = json_quote(req.instruction.as_str());
    CapcomProposal {
        proposal_id: pid.to_owned(),
        from_agent: req.from_agent.clone(),
        to_agent: req.to_agent.clone(),
        intent,
        subject: take_chars(req.instruction.as_str(), SUBJECT_CHARS),
        terms: concat3("{\"instruction\":", quoted.as_str(), "}"),
        message: req.instruction.clone(),
        requires_approval: true,
    }
}

/// The answer of the compose route: the assistant's proposal when there is one,
/// else the fallback's, with the path that produced it.
pub fn compose_response(req: &ComposeRequest, pid: &str, from_assistant: Option<CapcomProposal>) -> (r:
    ComposeResponse)
    ensures
        match from_assistant {
            Some(p) => r.proposal@ == p@ && r.source@ == "assistant"@,
            None => r.proposal@ == fallback_proposal(req.instruction@, req.from_agent@, req.to_agent@, pid@)
                && r.source@ == "fallback"@,
        },
{
    match from_assistant {
        Some(proposal) => ComposeResponse { proposal, source: "assistant".to_owned() },
        None => ComposeResponse { proposal: compose_fallback(req, pid), source: "fallback".to_owned() },
    }
}

/// The fields of the assistant's reply object.
pub struct ReplyFields {
    pub intent: String,
    pub subject: String,
    pub terms: String,
    pub message: String,
}

/// View of [`ReplyFields`].
pub ghost struct ReplyView {
    pub intent: Seq<char>,
    pub subject: Seq<char>,
    pub terms: Seq<char>,
    pub message: Seq<char>,
}

impl View for ReplyFields {
    type V = ReplyView;

    open spec fn view(&self) -> ReplyView {
        ReplyView { intent: self.intent@, subject: self.subject@, terms: self.terms@, message: self.message@ }
    }
}

/// The proposal made of a reply's fields.
pub open spec fn reply_proposal(
    from_agent: Seq<char>,
    to_agent: Seq<char>,
    pid: Seq<char>,
    f: ReplyView,
) -> ProposalView {
    ProposalView {
        proposal_id: pid,
        from_agent: from_agent,
        to_agent: to_agent,
        intent: label_intent(f.intent),
        subject: f.subject,
        terms: f.terms,
        message: f.message,
        requires_approval: true,
    }
}

/// From the assistant's raw output to a proposal: the first `{...}` block of
/// the output is handed to `parse`, and the fields it yields make the
/// proposal. `None` when the output holds no such block or `parse` fails.
pub fn proposal_from_assistant_output<F: Fn(&str) -> Option<ReplyFields>>(
    req: &ComposeRequest,
    pid: &str,
    output: &str,
    parse: F,
) -> (r: Option<CapcomProposal>)
    requires
        forall|t: &str| parse.requires((t,)),
    ensures
        json_object_span(output@) is None ==> r is None,
        r matches Some(p) ==> p@.from_agent == req.from_agent@ && p@.to_agent == req.to_agent@
            && p@.proposal_id == pid@ && p@.requires_approval,
        r matches Some(p) ==> exists|t: &str, f: ReplyFields|
            Some(t@) == json_object_span(output@) && parse.ensures((t,), Some(f)) && p@
                == reply_proposal(req.from_agent@, req.to_agent@, pid@, f@),
        json_object_span(output@) is Some && r is None ==> exists|t: &str|
            Some(t@) == json_object_span(output@) && parse.ensures((t,), None::<ReplyFields>),
{
    let obj = match extract_json_object(output) {
        Some(t) => t,
        None => {
            return None;
        },
    };
    match parse(obj) {
        Some(f) => {
            let p = proposal_from_reply(req, pid, f.intent.as_str(), f.subject, f.terms, f.message);
            Some(p)
        },
        None => None,
    }
}

} // verus!
