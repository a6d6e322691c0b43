//! The dispatcher: the single entry point invoked for each inbound call. It
//! looks the requested path up in the rule table, builds the configured
//! response through the Generic Wire Codec, and treats a path no rule was
//! mounted for as a test-configuration error to be aborted on loudly, never
//! answered with a default response.

use vstd::prelude::*;

use crate::codec::GenericProstEncoder;
use crate::codec::lemma_frame_round_trip;
use crate::codec::spec_frame;
use crate::codec::spec_frame_body;
use crate::codec::spec_is_frame;
use crate::rule::Rule;
use crate::status::StatusCode;
use crate::table::RuleTable;
use crate::table::lemma_first_match_properties;
use crate::table::spec_first_match;

verus! {

/// The response built for a matched rule: the status carried in the status
/// trailer, the rule's payload exactly as configured, and the body bytes put
/// on the wire — that payload framed by the Generic Wire Codec, or an empty
/// body when the rule sets none.
#[derive(Debug, Clone, PartialEq, Eq)]
pub struct Reply {
    pub status: StatusCode,
    pub payload: Option<Vec<u8>>,
    pub body: Vec<u8>,
}

/// What handling one call produces. `NoMatchingRule` is deliberately not a
/// protocol error to send back: it is the distinguished fatal outcome on
/// which the serving task aborts, so that a gap in test setup fails the test
/// instead of being masked by a made-up response.
#[derive(Debug, Clone, PartialEq, Eq)]
pub enum DispatchOutcome {
    Matched(Reply),
    NoMatchingRule,
}

/// The wire body a rule configures: its payload framed, or nothing.
pub open spec fn spec_response_body(rule: Rule) -> Seq<u8> {
    match rule.payload {
        Some(p) => spec_frame(p@),
        None => Seq::<u8>::empty(),
    }
}

/// Handle one call: look `path` up in `table` and build the response of the
/// first rule mounted for it — its payload framed by the Generic Wire Codec
/// and its status, success when it set none. A path with no mounted rule
/// yields the fatal `NoMatchingRule` outcome and never a reply.
pub fn dispatch(table: &RuleTable, path: &String) -> (out: DispatchOutcome)
    requires
        table.spec_wf(),
    ensures
        match spec_first_match(table@, path@) {
            Some(rule) => (out matches DispatchOutcome::Matched(reply) && reply.status
                == rule.spec_effective_status() && (match rule.payload {
                Some(p) => reply.payload matches Some(q) && q@ == p@,
                None => reply.payload is None,
            }) && reply.body@ == spec_response_body(rule)),
            None => out == DispatchOutcome::NoMatchingRule,
        },
{
    match table.find(path) {
        None => DispatchOutcome::NoMatchingRule,
        Some(rule) => {
            proof {
                lemma_first_match_properties(table@, path@);
                let j = choose|j: int| 0 <= j < table@.len() && table@[j] == *rule;
                assert(table@[j].spec_wf());
            }
            let status = rule.effective_status();
            let mut payload: Option<Vec<u8>> = None;
            let mut body: Vec<u8> = Vec::new();
            match &rule.payload {
                Some(p) => {
                    let item = p.clone();
                    proof {
                        assert(item@ =~= p@);
                    }
                    let kept = p.clone();
                    proof {
                        assert(kept@ =~= p@);
                    }
                    let mut encoder = GenericProstEncoder::new();
                    encoder.encode(item, &mut body);
                    payload = Some(kept);
                },
                None => {},
            }
            DispatchOutcome::Matched(Reply { status, payload, body })
        },
    }
}

/// Round trip of a configured payload through a reply: the framed body the
/// dispatcher builds for a rule with a payload is one well-formed frame, and
/// stripping its framing yields exactly the bytes the rule configured.
pub proof fn lemma_reply_body_round_trip(rule: Rule)
    requires
        rule.spec_wf(),
        rule.payload is Some,
    ensures
        spec_is_frame(spec_response_body(rule)),
        spec_frame_body(spec_response_body(rule)) == rule.payload.unwrap()@,
{
    lemma_frame_round_trip(rule.payload.unwrap()@);
}

/// Isolation of concurrent lookups on distinct paths: since handling a call
/// never mutates the table, each of two calls on different paths is answered
/// from the first rule mounted for its own path, and those rules are distinct
/// records — neither call can receive the other's configured response.
pub proof fn lemma_dispatch_isolation(rules: Seq<Rule>, p1: Seq<char>, p2: Seq<char>)
    requires
        p1 != p2,
    ensures
        spec_first_match(rules, p1) matches Some(r1) ==> r1.path@ == p1,
        spec_first_match(rules, p2) matches Some(r2) ==> r2.path@ == p2,
        (spec_first_match(rules, p1) is Some && spec_first_match(rules, p2) is Some)
            ==> spec_first_match(rules, p1) != spec_first_match(rules, p2),
{
    lemma_first_match_properties(rules, p1);
    lemma_first_match_properties(rules, p2);
}

} // verus!
