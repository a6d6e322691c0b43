//! Rules — path-to-response bindings — and the fluent builder test code uses
//! to construct them before mounting.

use vstd::prelude::*;

use crate::status::StatusCode;
use crate::table::RuleTable;
use crate::table::ValidationError;

verus! {

/// A path-to-response binding. Once mounted into a [`RuleTable`] a rule is
/// never mutated: every call to its path is answered from the same record.
#[derive(Debug)]
pub struct Rule {
    /// The exact RPC method path the rule matches, e.g. `/service.Name/Method`.
    pub path: String,
    /// The status the response carries; success is implied when it is absent
    /// and a payload is present.
    pub status: Option<StatusCode>,
    /// An opaque, pre-serialized response message body.
    pub payload: Option<Vec<u8>>,
}

impl Rule {
    /// A rule must configure a status, a payload, or both; one with neither
    /// is rejected when mounted, never at request time.
    pub open spec fn spec_is_valid(self) -> bool {
        self.status is Some || self.payload is Some
    }

    /// The machine bound the wire framing forces: a payload must fit the
    /// four-byte length field of a frame.
    pub open spec fn spec_wf(self) -> bool {
        self.payload matches Some(p) ==> p@.len() <= u32::MAX
    }

    /// The status a response built from this rule carries: the configured
    /// one, or success when none was set.
    pub open spec fn spec_effective_status(self) -> StatusCode {
        match self.status {
            Some(s) => s,
            None => StatusCode::Okay,
        }
    }

    /// Whether the rule configures at least one of status and payload.
    pub fn is_valid(&self) -> (v: bool)
        ensures
            v == self.spec_is_valid(),
    {
        self.status.is_some() || self.payload.is_some()
    }

    /// The status a response built from this rule carries.
    pub fn effective_status(&self) -> (s: StatusCode)
        ensures
            s == self.spec_effective_status(),
    {
        match self.status {
            Some(s) => s,
            None => StatusCode::Okay,
        }
    }
}

/// A fluent, value-accumulating configuration object: `given` names the path,
/// `return_status` and `return_body` optionally fill in the response, and
/// `mount` validates the accumulated rule and appends it to a table.
#[derive(Debug)]
pub struct RequestBuilder {
    path: String,
    status_code: Option<StatusCode>,
    result: Option<Vec<u8>>,
}

impl RequestBuilder {
    /// The rule this builder has accumulated so far.
    pub closed spec fn spec_rule(self) -> Rule {
        Rule { path: self.path, status: self.status_code, payload: self.result }
    }

    /// Start a builder for calls to `path`, with no response configured yet.
    pub fn given(path: &str) -> (b: RequestBuilder)
        ensures
            b.spec_rule().path@ == path@,
            b.spec_rule().status is None,
            b.spec_rule().payload is None,
    {
        RequestBuilder { path: path.to_owned(), status_code: None, result: None }
    }

    /// Configure the status the response carries.
    pub fn return_status(self, status: StatusCode) -> (b: RequestBuilder)
        ensures
            b.spec_rule() == (Rule { status: Some(status), ..self.spec_rule() }),
    {
        RequestBuilder { status_code: Some(status), ..self }
    }

    /// Configure the opaque, pre-serialized bytes the response carries as its
    /// body. The bytes must fit the four-byte length field of a wire frame.
    pub fn return_body(self, body: Vec<u8>) -> (b: RequestBuilder)
        requires
            body@.len() <= u32::MAX,
        ensures
            b.spec_rule() == (Rule { payload: Some(body), ..self.spec_rule() }),
    {
        RequestBuilder { result: Some(body), ..self }
    }

    /// Whether the accumulated payload fits the four-byte length field of a
    /// wire frame: the machine bound `mount` requires. An unverified caller
    /// can test it before mounting.
    pub fn payload_within_limit(&self) -> (ok: bool)
        ensures
            ok == self.spec_rule().spec_wf(),
    {
        match &self.result {
            Some(b) => b.len() <= u32::MAX as usize,
            None => true,
        }
    }

    /// Validate the accumulated rule and append it to the table: the only
    /// step of the builder with an observable side effect. Fails with
    /// [`ValidationError::InvalidRule`], leaving the table unchanged, exactly
    /// when neither a status nor a payload was configured.
    pub fn mount(self, table: &mut RuleTable) -> (r: Result<(), ValidationError>)
        requires
            self.spec_rule().spec_wf(),
        ensures
            old(table).spec_wf() ==> final(table).spec_wf(),
            self.spec_rule().spec_is_valid() ==> r is Ok && final(table)@ == old(table)@.push(
                self.spec_rule(),
            ),
            !self.spec_rule().spec_is_valid() ==> r == Result::<(), ValidationError>::Err(
                ValidationError::InvalidRule,
            ) && final(table)@ == old(table)@,
    {
        table.mount(Rule { path: self.path, status: self.status_code, payload: self.result })
    }
}

} // verus!
