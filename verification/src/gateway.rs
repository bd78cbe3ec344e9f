//! The request validator and response mapper: structural checks on an
//! inbound submission, in a fixed order with the first violation
//! short-circuiting, and the mapping of codec and bridge outcomes to
//! outward status codes and bodies.

use crate::noun::{Noun, NounV};
use crate::protocol::{nouns_view, spec_cause_noun, spec_first_reply, CauseV, LedgerReplyV,
    SnarkDetails, SnarkDetailsV, SnarkSummary, SnarkSummaryV, Submission, SubmissionV,
    first_reply, submit_to_noun};
use vstd::prelude::*;
use vstd::string::StringExecFns;

verus! {

/// Why a dispatch against the ledger failed.
#[derive(Clone, Copy, Debug, PartialEq, Eq, Structural)]
pub enum DispatchError {
    /// The transport or channel to the ledger process failed.
    Transport,
    /// The ledger rejected the cause.
    Rejected,
    /// A configured per-dispatch timeout expired.
    Timeout,
}

/// An outward response body.
#[derive(Debug, PartialEq, Eq)]
pub enum Body {
    /// Acknowledgment of a submit or delete.
    Ack { success: bool, id: Option<u64>, message: String },
    /// The full record of one submission.
    Detail(SnarkDetails),
    /// The list view: abbreviated records and their total count.
    Listing { snarks: Vec<SnarkSummary>, total: u64 },
    /// A structured error.
    Failure { error: String },
}

/// Mathematical model of an outward response body.
pub enum BodyV {
    Ack { success: bool, id: Option<u64>, message: Seq<char> },
    Detail(SnarkDetailsV),
    Listing { snarks: Seq<SnarkSummaryV>, total: u64 },
    Failure { error: Seq<char> },
}

impl View for Body {
    type V = BodyV;

    open spec fn view(&self) -> BodyV {
        match self {
            Body::Ack { success, id, message } => BodyV::Ack {
                success: *success,
                id: *id,
                message: message@,
            },
            Body::Detail(d) => BodyV::Detail(d@),
            Body::Listing { snarks, total } => BodyV::Listing {
                snarks: snarks@.map_values(|s: SnarkSummary| s@),
                total: *total,
            },
            Body::Failure { error } => BodyV::Failure { error: error@ },
        }
    }
}

/// An outward response: a status code and a body.
#[derive(Debug, PartialEq, Eq)]
pub struct HttpReply {
    pub status: u16,
    pub body: Body,
}

/// Mathematical model of an outward response.
pub struct HttpReplyV {
    pub status: u16,
    pub body: BodyV,
}

impl View for HttpReply {
    type V = HttpReplyV;

    open spec fn view(&self) -> HttpReplyV {
        HttpReplyV { status: self.status, body: self.body@ }
    }
}

/// What decoding a Base64 text yields.  The result depends on the
/// characters alone; the validator only asks whether it exists.
pub uninterp spec fn base64_decoded(s: Seq<char>) -> Option<Seq<u8>>;

/// Relies on `base64::decode` (the standard alphabet, with padding): it
/// decodes a text or fails, on the text's characters alone.
#[verifier::external_body]
fn base64_check(s: &str) -> (r: Option<Vec<u8>>)
    ensures
        match r {
            Some(v) => base64_decoded(s@) == Some(v@),
            None => base64_decoded(s@) is None,
        },
{
    base64::decode(s).ok()
}

/// The first violated check of a submission, in the fixed order: proof
/// present, verification key present, submitter present, proof is valid
/// Base64, verification key is valid Base64.
pub open spec fn spec_validation_error(s: SubmissionV) -> Option<Seq<char>> {
    if s.proof_data.len() == 0 {
        Some("Proof data is required"@)
    } else if s.verification_key.len() == 0 {
        Some("Verification key is required"@)
    } else if s.submitter.len() == 0 {
        Some("Submitter is required"@)
    } else if base64_decoded(s.proof_data) is None {
        Some("Invalid Base64 in proof data"@)
    } else if base64_decoded(s.verification_key) is None {
        Some("Invalid Base64 in verification key"@)
    } else {
        None
    }
}

/// Check a submission's structural preconditions, returning the first
/// violation's message.
pub fn validate_submission(sub: &Submission) -> (r: Option<String>)
    ensures
        match (r, spec_validation_error(sub@)) {
            (Some(m), Some(sm)) => m@ == sm,
            (None, None) => true,
            _ => false,
        },
{
    if sub.proof_data.as_str().is_empty() {
        Some(String::from_str("Proof data is required"))
    } else if sub.verification_key.as_str().is_empty() {
        Some(String::from_str("Verification key is required"))
    } else if sub.submitter.as_str().is_empty() {
        Some(String::from_str("Submitter is required"))
    } else if base64_check(sub.proof_data.as_str()).is_none() {
        Some(String::from_str("Invalid Base64 in proof data"))
    } else if base64_check(sub.verification_key.as_str()).is_none() {
        Some(String::from_str("Invalid Base64 in verification key"))
    } else {
        None
    }
}

/// A rejected request: status 400 with the violation's message.
pub open spec fn spec_bad_request(m: Seq<char>) -> HttpReplyV {
    HttpReplyV { status: 400, body: BodyV::Failure { error: m } }
}

/// Validate a submission and, where every check passes, encode the
/// submit cause for dispatch.  The first violated check short-circuits:
/// a rejected submission reaches neither the codec nor the ledger.
pub fn submit_request(sub: &Submission) -> (r: Result<Noun, HttpReply>)
    ensures
        match r {
            Ok(n) => spec_validation_error(sub@) is None && n@ == spec_cause_noun(
                CauseV::Submit(sub@),
            ),
            Err(rep) => spec_validation_error(sub@) matches Some(m) && rep@ == spec_bad_request(m),
        },
{
    match validate_submission(sub) {
        Some(m) => Err(HttpReply { status: 400, body: Body::Failure { error: m } }),
        None => Ok(submit_to_noun(sub)),
    }
}

/// The status and body a recognized ledger outcome maps to.
pub open spec fn spec_reply_http(rep: LedgerReplyV) -> HttpReplyV {
    match rep {
        LedgerReplyV::Accepted { id } => HttpReplyV {
            status: 201,
            body: BodyV::Ack {
                success: true,
                id: Some(id),
                message: "SNARK submitted successfully"@,
            },
        },
        LedgerReplyV::Deleted { id } => HttpReplyV {
            status: 200,
            body: BodyV::Ack { success: true, id: Some(id), message: "SNARK deleted"@ },
        },
        LedgerReplyV::Missing { .. } => HttpReplyV {
            status: 404,
            body: BodyV::Failure { error: "SNARK not found"@ },
        },
        LedgerReplyV::Detail(d) => HttpReplyV { status: 200, body: BodyV::Detail(d) },
        LedgerReplyV::Listing { snarks, total } => HttpReplyV {
            status: 200,
            body: BodyV::Listing { snarks, total },
        },
    }
}

/// The model of a dispatch outcome: the effect nouns, or the failure.
pub open spec fn outcome_view(o: Result<Vec<Noun>, DispatchError>) -> Result<
    Seq<NounV>,
    DispatchError,
> {
    match o {
        Ok(effs) => Ok(nouns_view(effs@)),
        Err(e) => Err(e),
    }
}

/// The response a submit dispatch maps to: the first recognized effect
/// speaks for itself; with none, a generic created acknowledgment; a
/// failed dispatch is a server error.
pub open spec fn spec_submit_response(o: Result<Seq<NounV>, DispatchError>) -> HttpReplyV {
    match o {
        Ok(effs) => match spec_first_reply(effs) {
            Some(rep) => spec_reply_http(rep),
            None => HttpReplyV {
                status: 201,
                body: BodyV::Ack {
                    success: true,
                    id: None,
                    message: "SNARK submitted successfully"@,
                },
            },
        },
        Err(_) => HttpReplyV {
            status: 500,
            body: BodyV::Failure { error: "Failed to submit SNARK"@ },
        },
    }
}

/// Map a submit dispatch outcome to its response.
pub fn submit_response(o: Result<Vec<Noun>, DispatchError>) -> (r: HttpReply)
    ensures
        r@ == spec_submit_response(outcome_view(o)),
{
    match o {
        Ok(effs) => match first_reply(&effs) {
            Some(rep) => reply_http(rep),
            None => HttpReply {
                status: 201,
                body: Body::Ack {
                    success: true,
                    id: None,
                    message: String::from_str("SNARK submitted successfully"),
                },
            },
        },
        Err(_) => HttpReply {
            status: 500,
            body: Body::Failure { error: String::from_str("Failed to submit SNARK") },
        },
    }
}

/// The response a get dispatch maps to: a recognized effect speaks for
/// itself; with none, the ledger's answer could not be read; a
/// rejection means the id is unknown, any other failure is a server
/// error.
pub open spec fn spec_get_response(o: Result<Seq<NounV>, DispatchError>) -> HttpReplyV {
    match o {
        Ok(effs) => match spec_first_reply(effs) {
            Some(rep) => spec_reply_http(rep),
            None => HttpReplyV {
                status: 500,
                body: BodyV::Failure { error: "Invalid response from kernel"@ },
            },
        },
        Err(DispatchError::Rejected) => HttpReplyV {
            status: 404,
            body: BodyV::Failure { error: "SNARK not found"@ },
        },
        Err(_) => HttpReplyV {
            status: 500,
            body: BodyV::Failure { error: "Failed to fetch SNARK"@ },
        },
    }
}

/// Map a get dispatch outcome to its response.
pub fn get_response(o: Result<Vec<Noun>, DispatchError>) -> (r: HttpReply)
    ensures
        r@ == spec_get_response(outcome_view(o)),
{
    match o {
        Ok(effs) => match first_reply(&effs) {
            Some(rep) => reply_http(rep),
            None => HttpReply {
                status: 500,
                body: Body::Failure { error: String::from_str("Invalid response from kernel") },
            },
        },
        Err(DispatchError::Rejected) => HttpReply {
            status: 404,
            body: Body::Failure { error: String::from_str("SNARK not found") },
        },
        Err(_) => HttpReply {
            status: 500,
            body: Body::Failure { error: String::from_str("Failed to fetch SNARK") },
        },
    }
}

/// The response a list dispatch maps to: a recognized effect speaks for
/// itself; with none, the empty list view; a failed dispatch is a
/// server error.
pub open spec fn spec_list_response(o: Result<Seq<NounV>, DispatchError>) -> HttpReplyV {
    match o {
        Ok(effs) => match spec_first_reply(effs) {
            Some(rep) => spec_reply_http(rep),
            None => HttpReplyV {
                status: 200,
                body: BodyV::Listing { snarks: Seq::empty(), total: 0 },
            },
        },
        Err(_) => HttpReplyV {
            status: 500,
            body: BodyV::Failure { error: "Failed to list SNARKs"@ },
        },
    }
}

/// Map a list dispatch outcome to its response.
pub fn list_response(o: Result<Vec<Noun>, DispatchError>) -> (r: HttpReply)
    ensures
        r@ == spec_list_response(outcome_view(o)),
{
    match o {
        Ok(effs) => match first_reply(&effs) {
            Some(rep) => reply_http(rep),
            None => {
                let snarks: Vec<SnarkSummary> = Vec::new();
                proof {
                    assert(snarks@.map_values(|s: SnarkSummary| s@) =~= Seq::<
                        SnarkSummaryV,
                    >::empty());
                }
                HttpReply { status: 200, body: Body::Listing { snarks, total: 0 } }
            },
        },
        Err(_) => HttpReply {
            status: 500,
            body: Body::Failure { error: String::from_str("Failed to list SNARKs") },
        },
    }
}

/// The response a delete dispatch maps to: a recognized effect speaks
/// for itself; with none, a generic deleted acknowledgment; a rejection
/// means the id is unknown, any other failure is a server error.
pub open spec fn spec_delete_response(o: Result<Seq<NounV>, DispatchError>) -> HttpReplyV {
    match o {
        Ok(effs) => match spec_first_reply(effs) {
            Some(rep) => spec_reply_http(rep),
            None => HttpReplyV {
                status: 200,
                body: BodyV::Ack { success: true, id: None, message: "SNARK deleted"@ },
            },
        },
        Err(DispatchError::Rejected) => HttpReplyV {
            status: 404,
            body: BodyV::Failure { error: "SNARK not found"@ },
        },
        Err(_) => HttpReplyV {
            status: 500,
            body: BodyV::Failure { error: "Failed to delete SNARK"@ },
        },
    }
}

/// Map a delete dispatch outcome to its response.
pub fn delete_response(o: Result<Vec<Noun>, DispatchError>) -> (r: HttpReply)
    ensures
        r@ == spec_delete_response(outcome_view(o)),
{
    match o {
        Ok(effs) => match first_reply(&effs) {
            Some(rep) => reply_http(rep),
            None => HttpReply {
                status: 200,
                body: Body::Ack {
                    success: true,
                    id: None,
                    message: String::from_str("SNARK deleted"),
                },
            },
        },
        Err(DispatchError::Rejected) => HttpReply {
            status: 404,
            body: Body::Failure { error: String::from_str("SNARK not found") },
        },
        Err(_) => HttpReply {
            status: 500,
            body: Body::Failure { error: String::from_str("Failed to delete SNARK") },
        },
    }
}

/// Build the outward response a recognized ledger outcome stands for.
fn reply_http(rep: crate::protocol::LedgerReply) -> (r: HttpReply)
    ensures
        r@ == spec_reply_http(rep@),
{
    match rep {
        crate::protocol::LedgerReply::Accepted { id } => HttpReply {
            status: 201,
            body: Body::Ack {
                success: true,
                id: Some(id),
                message: String::from_str("SNARK submitted successfully"),
            },
        },
        crate::protocol::LedgerReply::Deleted { id } => HttpReply {
            status: 200,
            body: Body::Ack { success: true, id: Some(id), message: String::from_str(
                "SNARK deleted",
            ) },
        },
        crate::protocol::LedgerReply::Missing { .. } => HttpReply {
            status: 404,
            body: Body::Failure { error: String::from_str("SNARK not found") },
        },
        crate::protocol::LedgerReply::Detail(d) => HttpReply {
            status: 200,
            body: Body::Detail(d),
        },
        crate::protocol::LedgerReply::Listing { snarks, total } => HttpReply {
            status: 200,
            body: Body::Listing { snarks, total },
        },
    }
}

} // verus!
