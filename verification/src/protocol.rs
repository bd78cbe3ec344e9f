//! The cause/effect protocol: the four request causes (and the one-time
//! init cause) with their fixed positional noun layouts, and the
//! decoding of a ledger effect stream into a typed outcome.  Effect
//! decoding is total: every noun is either matched to a known shape or
//! safely ignored.

use crate::codec::{decode_atom, decode_list, encode_list, encode_text, spec_decode_atom,
    spec_decode_list, spec_encode_list, spec_encode_text};
use crate::noun::{atom_bytes_to_u64, be_bytes, spec_atom_u64, u64_to_atom_bytes, Noun, NounV};
use vstd::prelude::*;

verus! {

/// The fields of a proof submission, as validated upstream.
#[derive(Debug, PartialEq, Eq)]
pub struct Submission {
    pub proof_data: String,
    pub public_inputs: Vec<String>,
    pub verification_key: String,
    pub proof_system: String,
    pub submitter: String,
    pub notes: Option<String>,
}

/// Mathematical model of a submission.
pub struct SubmissionV {
    pub proof_data: Seq<char>,
    pub public_inputs: Seq<Seq<char>>,
    pub verification_key: Seq<char>,
    pub proof_system: Seq<char>,
    pub submitter: Seq<char>,
    pub notes: Option<Seq<char>>,
}

impl View for Submission {
    type V = SubmissionV;

    open spec fn view(&self) -> SubmissionV {
        SubmissionV {
            proof_data: self.proof_data@,
            public_inputs: self.public_inputs.deep_view(),
            verification_key: self.verification_key@,
            proof_system: self.proof_system@,
            submitter: self.submitter@,
            notes: match self.notes {
                Some(s) => Some(s@),
                None => None,
            },
        }
    }
}

/// A request sent to the ledger.
#[derive(Debug, PartialEq, Eq)]
pub enum Cause {
    Submit(Submission),
    Get(u64),
    List,
    Delete(u64),
    Init,
}

/// Mathematical model of a cause.
pub enum CauseV {
    Submit(SubmissionV),
    Get(u64),
    List,
    Delete(u64),
    Init,
}

impl View for Cause {
    type V = CauseV;

    open spec fn view(&self) -> CauseV {
        match self {
            Cause::Submit(s) => CauseV::Submit(s@),
            Cause::Get(id) => CauseV::Get(*id),
            Cause::List => CauseV::List,
            Cause::Delete(id) => CauseV::Delete(*id),
            Cause::Init => CauseV::Init,
        }
    }
}

/// The notes text that goes to the ledger: absent notes become the
/// empty text.
pub open spec fn spec_notes_text(notes: Option<Seq<char>>) -> Seq<char> {
    match notes {
        Some(t) => t,
        None => Seq::empty(),
    }
}

/// The fixed positional layout of a submit cause: the tag, then proof,
/// inputs, verification key, proof system, submitter and notes as a
/// right-nested tuple.
pub open spec fn spec_submit_noun(s: SubmissionV) -> NounV {
    NounV::Cell(
        Box::new(spec_encode_text("submit-snark"@)),
        Box::new(NounV::Cell(
            Box::new(spec_encode_text(s.proof_data)),
            Box::new(NounV::Cell(
                Box::new(spec_encode_list(s.public_inputs)),
                Box::new(NounV::Cell(
                    Box::new(spec_encode_text(s.verification_key)),
                    Box::new(NounV::Cell(
                        Box::new(spec_encode_text(s.proof_system)),
                        Box::new(NounV::Cell(
                            Box::new(spec_encode_text(s.submitter)),
                            Box::new(spec_encode_text(spec_notes_text(s.notes))),
                        )),
                    )),
                )),
            )),
        )),
    )
}

/// The noun each cause dispatches as: tagged pairs for submit, get and
/// delete; bare tag atoms for list and init.
pub open spec fn spec_cause_noun(c: CauseV) -> NounV {
    match c {
        CauseV::Submit(s) => spec_submit_noun(s),
        CauseV::Get(id) => NounV::Cell(
            Box::new(spec_encode_text("get-snark"@)),
            Box::new(NounV::Atom(be_bytes(id as nat))),
        ),
        CauseV::List => spec_encode_text("list-snarks"@),
        CauseV::Delete(id) => NounV::Cell(
            Box::new(spec_encode_text("delete-snark"@)),
            Box::new(NounV::Atom(be_bytes(id as nat))),
        ),
        CauseV::Init => spec_encode_text("init"@),
    }
}

/// Wrap validated submission fields into a submit cause.
pub fn build_submit_cause(s: Submission) -> (c: Cause)
    ensures
        c@ == CauseV::Submit(s@),
{
    Cause::Submit(s)
}

/// Wrap an id into a get cause.
pub fn build_get_cause(id: u64) -> (c: Cause)
    ensures
        c@ == CauseV::Get(id),
{
    Cause::Get(id)
}

/// The list cause.
pub fn build_list_cause() -> (c: Cause)
    ensures
        c@ == CauseV::List,
{
    Cause::List
}

/// Wrap an id into a delete cause.
pub fn build_delete_cause(id: u64) -> (c: Cause)
    ensures
        c@ == CauseV::Delete(id),
{
    Cause::Delete(id)
}

/// The init cause, dispatched exactly once before any other.
pub fn build_init_cause() -> (c: Cause)
    ensures
        c@ == CauseV::Init,
{
    Cause::Init
}

/// Encode a cause into the noun the ledger expects.
pub fn cause_to_noun(c: &Cause) -> (n: Noun)
    ensures
        n@ == spec_cause_noun(c@),
{
    proof {
        reveal_with_fuel(crate::noun::noun_view, 16);
    }
    match c {
        Cause::Submit(s) => submit_to_noun(s),
        Cause::Get(id) => Noun::Cell(
            Box::new(encode_text("get-snark")),
            Box::new(Noun::Atom(u64_to_atom_bytes(*id))),
        ),
        Cause::List => encode_text("list-snarks"),
        Cause::Delete(id) => Noun::Cell(
            Box::new(encode_text("delete-snark")),
            Box::new(Noun::Atom(u64_to_atom_bytes(*id))),
        ),
        Cause::Init => encode_text("init"),
    }
}

/// Encode a submission's fields in their fixed positional order.
pub fn submit_to_noun(s: &Submission) -> (n: Noun)
    ensures
        n@ == spec_submit_noun(s@),
{
    proof {
        reveal_with_fuel(crate::noun::noun_view, 16);
    }
    let notes = match &s.notes {
        Some(t) => encode_text(t.as_str()),
        None => {
            let empty = encode_text("");
            proof {
                reveal_strlit("");
                assert(""@ =~= Seq::<char>::empty());
            }
            empty
        },
    };
    proof {
        assert(notes@ == spec_encode_text(spec_notes_text(s@.notes)));
    }
    Noun::Cell(
        Box::new(encode_text("submit-snark")),
        Box::new(Noun::Cell(
            Box::new(encode_text(s.proof_data.as_str())),
            Box::new(Noun::Cell(
                Box::new(encode_list(&s.public_inputs)),
                Box::new(Noun::Cell(
                    Box::new(encode_text(s.verification_key.as_str())),
                    Box::new(Noun::Cell(
                        Box::new(encode_text(s.proof_system.as_str())),
                        Box::new(Noun::Cell(
                            Box::new(encode_text(s.submitter.as_str())),
                            Box::new(notes),
                        )),
                    )),
                )),
            )),
        )),
    )
}

/// The abbreviated record of one submission, for the list view.
#[derive(Debug, PartialEq, Eq)]
pub struct SnarkSummary {
    pub id: u64,
    pub proof_system: String,
    pub submitter: String,
    pub submitted: String,
    pub status: String,
    pub notes: String,
}

/// Mathematical model of an abbreviated record.
pub struct SnarkSummaryV {
    pub id: u64,
    pub proof_system: Seq<char>,
    pub submitter: Seq<char>,
    pub submitted: Seq<char>,
    pub status: Seq<char>,
    pub notes: Seq<char>,
}

impl View for SnarkSummary {
    type V = SnarkSummaryV;

    open spec fn view(&self) -> SnarkSummaryV {
        SnarkSummaryV {
            id: self.id,
            proof_system: self.proof_system@,
            submitter: self.submitter@,
            submitted: self.submitted@,
            status: self.status@,
            notes: self.notes@,
        }
    }
}

/// The full record of one submission, as the ledger reports it.
#[derive(Debug, PartialEq, Eq)]
pub struct SnarkDetails {
    pub id: u64,
    pub proof_data: String,
    pub public_inputs: Vec<String>,
    pub verification_key: String,
    pub proof_system: String,
    pub submitter: String,
    pub submitted: String,
    pub status: String,
    pub error_message: Option<String>,
    pub notes: String,
}

/// Mathematical model of a submission record.
pub struct SnarkDetailsV {
    pub id: u64,
    pub proof_data: Seq<char>,
    pub public_inputs: Seq<Seq<char>>,
    pub verification_key: Seq<char>,
    pub proof_system: Seq<char>,
    pub submitter: Seq<char>,
    pub submitted: Seq<char>,
    pub status: Seq<char>,
    pub error_message: Option<Seq<char>>,
    pub notes: Seq<char>,
}

impl View for SnarkDetails {
    type V = SnarkDetailsV;

    open spec fn view(&self) -> SnarkDetailsV {
        SnarkDetailsV {
            id: self.id,
            proof_data: self.proof_data@,
            public_inputs: self.public_inputs.deep_view(),
            verification_key: self.verification_key@,
            proof_system: self.proof_system@,
            submitter: self.submitter@,
            submitted: self.submitted@,
            status: self.status@,
            error_message: match self.error_message {
                Some(s) => Some(s@),
                None => None,
            },
            notes: self.notes@,
        }
    }
}

/// A recognized outcome decoded from the ledger's effects.
#[derive(Debug, PartialEq, Eq)]
pub enum LedgerReply {
    /// The ledger accepted a submission and assigned it an id.
    Accepted { id: u64 },
    /// The ledger deleted the submission with this id.
    Deleted { id: u64 },
    /// The ledger holds no submission under the requested id.
    Missing { id: u64 },
    /// The full record of one submission.
    Detail(SnarkDetails),
    /// The list view: abbreviated records and the total count.
    Listing { snarks: Vec<SnarkSummary>, total: u64 },
}

/// Mathematical model of a recognized outcome.
pub enum LedgerReplyV {
    Accepted { id: u64 },
    Deleted { id: u64 },
    Missing { id: u64 },
    Detail(SnarkDetailsV),
    Listing { snarks: Seq<SnarkSummaryV>, total: u64 },
}

impl View for LedgerReply {
    type V = LedgerReplyV;

    open spec fn view(&self) -> LedgerReplyV {
        match self {
            LedgerReply::Accepted { id } => LedgerReplyV::Accepted { id: *id },
            LedgerReply::Deleted { id } => LedgerReplyV::Deleted { id: *id },
            LedgerReply::Missing { id } => LedgerReplyV::Missing { id: *id },
            LedgerReply::Detail(d) => LedgerReplyV::Detail(d@),
            LedgerReply::Listing { snarks, total } => LedgerReplyV::Listing {
                snarks: snarks@.map_values(|s: SnarkSummary| s@),
                total: *total,
            },
        }
    }
}

/// The text a noun holds, where it is a valid text atom.
pub open spec fn spec_text_of(n: NounV) -> Option<Seq<char>> {
    match spec_decode_atom(n) {
        Ok(s) => Some(s),
        Err(_) => None,
    }
}

/// The `u64` a noun holds, where it is a canonical atom that fits.
pub open spec fn spec_u64_of(n: NounV) -> Option<u64> {
    match n {
        NounV::Atom(b) => spec_atom_u64(b),
        NounV::Cell(_, _) => None,
    }
}

/// A detail effect payload: id, then proof, inputs, verification key,
/// proof system, submitter, submission time, status, error message and
/// notes as a right-nested tuple.  An empty error-message text stands
/// for no error.
pub open spec fn spec_detail_payload(n: NounV) -> Option<SnarkDetailsV> {
    match n {
        NounV::Cell(id_n, r1) => match (spec_u64_of(*id_n), *r1) {
            (Some(id), NounV::Cell(proof_n, r2)) => match (spec_text_of(*proof_n), *r2) {
                (Some(proof_t), NounV::Cell(inputs_n, r3)) => match (
                    spec_decode_list(*inputs_n),
                    *r3,
                ) {
                    (Ok(inputs), NounV::Cell(vk_n, r4)) => match (spec_text_of(*vk_n), *r4) {
                        (Some(vk_t), NounV::Cell(system_n, r5)) => match (
                            spec_text_of(*system_n),
                            *r5,
                        ) {
                            (Some(system_t), NounV::Cell(submitter_n, r6)) => match (
                                spec_text_of(*submitter_n),
                                *r6,
                            ) {
                                (Some(submitter_t), NounV::Cell(submitted_n, r7)) => match (
                                    spec_text_of(*submitted_n),
                                    *r7,
                                ) {
                                    (Some(submitted_t), NounV::Cell(status_n, r8)) => match (
                                        spec_text_of(*status_n),
                                        *r8,
                                    ) {
                                        (Some(status_t), NounV::Cell(err_n, notes_n)) => match (
                                            spec_text_of(*err_n),
                                            spec_text_of(*notes_n),
                                        ) {
                                            (Some(err_t), Some(notes_t)) => Some(
                                                SnarkDetailsV {
                                                    id,
                                                    proof_data: proof_t,
                                                    public_inputs: inputs,
                                                    verification_key: vk_t,
                                                    proof_system: system_t,
                                                    submitter: submitter_t,
                                                    submitted: submitted_t,
                                                    status: status_t,
                                                    error_message: if err_t.len() == 0 {
                                                        None
                                                    } else {
                                                        Some(err_t)
                                                    },
                                                    notes: notes_t,
                                                },
                                            ),
                                            _ => None,
                                        },
                                        _ => None,
                                    },
                                    _ => None,
                                },
                                _ => None,
                            },
                            _ => None,
                        },
                        _ => None,
                    },
                    _ => None,
                },
                _ => None,
            },
            _ => None,
        },
        NounV::Atom(_) => None,
    }
}

/// A summary payload: id, then proof system, submitter, submission
/// time, status and notes as a right-nested tuple.
pub open spec fn spec_summary_payload(n: NounV) -> Option<SnarkSummaryV> {
    match n {
        NounV::Cell(id_n, r1) => match (spec_u64_of(*id_n), *r1) {
            (Some(id), NounV::Cell(system_n, r2)) => match (spec_text_of(*system_n), *r2) {
                (Some(system_t), NounV::Cell(submitter_n, r3)) => match (
                    spec_text_of(*submitter_n),
                    *r3,
                ) {
                    (Some(submitter_t), NounV::Cell(submitted_n, r4)) => match (
                        spec_text_of(*submitted_n),
                        *r4,
                    ) {
                        (Some(submitted_t), NounV::Cell(status_n, notes_n)) => match (
                            spec_text_of(*status_n),
                            spec_text_of(*notes_n),
                        ) {
                            (Some(status_t), Some(notes_t)) => Some(
                                SnarkSummaryV {
                                    id,
                                    proof_system: system_t,
                                    submitter: submitter_t,
                                    submitted: submitted_t,
                                    status: status_t,
                                    notes: notes_t,
                                },
                            ),
                            _ => None,
                        },
                        _ => None,
                    },
                    _ => None,
                },
                _ => None,
            },
            _ => None,
        },
        NounV::Atom(_) => None,
    }
}

/// The ordered summaries a noun holds: heads of right-nested cells down
/// to the empty-list atom, each a summary payload.
pub open spec fn spec_summaries(n: NounV) -> Option<Seq<SnarkSummaryV>>
    decreases n,
{
    match n {
        NounV::Atom(b) => if b.len() == 0 {
            Some(Seq::empty())
        } else {
            None
        },
        NounV::Cell(h, t) => match (spec_summary_payload(*h), spec_summaries(*t)) {
            (Some(s), Some(rest)) => Some(seq![s] + rest),
            _ => None,
        },
    }
}

/// A list effect payload: the total count, then the summaries.
pub open spec fn spec_list_payload(n: NounV) -> Option<(u64, Seq<SnarkSummaryV>)> {
    match n {
        NounV::Cell(total_n, rest) => match (spec_u64_of(*total_n), spec_summaries(*rest)) {
            (Some(total), Some(snarks)) => Some((total, snarks)),
            _ => None,
        },
        NounV::Atom(_) => None,
    }
}

/// The outcome one effect decodes to, where its shape is recognized: a
/// cell whose head is one of the known tag atoms and whose tail is that
/// tag's payload.
pub open spec fn spec_decode_effect(n: NounV) -> Option<LedgerReplyV> {
    match n {
        NounV::Cell(tag, rest) => if *tag == spec_encode_text("snark-ack"@) {
            match spec_u64_of(*rest) {
                Some(id) => Some(LedgerReplyV::Accepted { id }),
                None => None,
            }
        } else if *tag == spec_encode_text("snark-deleted"@) {
            match spec_u64_of(*rest) {
                Some(id) => Some(LedgerReplyV::Deleted { id }),
                None => None,
            }
        } else if *tag == spec_encode_text("snark-missing"@) {
            match spec_u64_of(*rest) {
                Some(id) => Some(LedgerReplyV::Missing { id }),
                None => None,
            }
        } else if *tag == spec_encode_text("snark-detail"@) {
            match spec_detail_payload(*rest) {
                Some(d) => Some(LedgerReplyV::Detail(d)),
                None => None,
            }
        } else if *tag == spec_encode_text("snark-list"@) {
            match spec_list_payload(*rest) {
                Some((total, snarks)) => Some(LedgerReplyV::Listing { snarks, total }),
                None => None,
            }
        } else {
            None
        },
        NounV::Atom(_) => None,
    }
}

/// The first recognized outcome in an effect stream, scanned in order.
pub open spec fn spec_first_reply(effs: Seq<NounV>) -> Option<LedgerReplyV>
    decreases effs.len(),
{
    if effs.len() == 0 {
        None
    } else {
        match spec_decode_effect(effs.first()) {
            Some(r) => Some(r),
            None => spec_first_reply(effs.drop_first()),
        }
    }
}

/// The models of a sequence of effect nouns.
pub open spec fn nouns_view(effs: Seq<Noun>) -> Seq<NounV> {
    effs.map_values(|n: Noun| n@)
}

/// Whether a noun is the text atom of the given tag.
fn is_tag(n: &Noun, tag: &str) -> (r: bool)
    ensures
        r == (n@ == spec_encode_text(tag@)),
{
    match n {
        Noun::Atom(b) => {
            let t = encode_text(tag);
            match t {
                Noun::Atom(tb) => bytes_eq(b, &tb),
                Noun::Cell(_, _) => false,
            }
        },
        Noun::Cell(_, _) => false,
    }
}

/// Whether two byte strings are equal.
fn bytes_eq(a: &Vec<u8>, b: &Vec<u8>) -> (r: bool)
    ensures
        r == (a@ == b@),
{
    if a.len() != b.len() {
        proof {
            assert(a@ != b@);
        }
        return false;
    }
    let mut i: usize = 0;
    while i < a.len()
        invariant
            i <= a.len(),
            a.len() == b.len(),
            forall|j: int| 0 <= j < i ==> a@[j] == b@[j],
        decreases a.len() - i,
    {
        if a[i] != b[i] {
            return false;
        }
        i = i + 1;
    }
    proof {
        assert(a@ =~= b@);
    }
    true
}

/// The `u64` an effect payload noun holds, if any.
fn u64_of(n: &Noun) -> (r: Option<u64>)
    ensures
        r == spec_u64_of(n@),
{
    match n {
        Noun::Atom(b) => atom_bytes_to_u64(b),
        Noun::Cell(_, _) => None,
    }
}

/// The text an effect payload noun holds, if any.
fn text_of(n: &Noun) -> (r: Option<String>)
    ensures
        match (r, spec_text_of(n@)) {
            (Some(s), Some(t)) => s@ == t,
            (None, None) => true,
            _ => false,
        },
{
    match decode_atom(n) {
        Ok(s) => Some(s),
        Err(_) => None,
    }
}

/// Decode a detail effect payload.
fn detail_payload(n: &Noun) -> (r: Option<SnarkDetails>)
    ensures
        match (r, spec_detail_payload(n@)) {
            (Some(d), Some(dv)) => d@ == dv,
            (None, None) => true,
            _ => false,
        },
{
    proof {
        reveal_with_fuel(crate::noun::noun_view, 16);
    }
    let (id_n, r1) = match n {
        Noun::Cell(a, b) => (&**a, &**b),
        Noun::Atom(_) => {
            return None;
        },
    };
    let id = match u64_of(id_n) {
        Some(v) => v,
        None => {
            return None;
        },
    };
    let (proof_n, r2) = match r1 {
        Noun::Cell(a, b) => (&**a, &**b),
        Noun::Atom(_) => {
            return None;
        },
    };
    let proof_data = match text_of(proof_n) {
        Some(s) => s,
        None => {
            return None;
        },
    };
    let (inputs_n, r3) = match r2 {
        Noun::Cell(a, b) => (&**a, &**b),
        Noun::Atom(_) => {
            return None;
        },
    };
    let public_inputs = match decode_list(inputs_n) {
        Ok(v) => v,
        Err(_) => {
            return None;
        },
    };
    let (vk_n, r4) = match r3 {
        Noun::Cell(a, b) => (&**a, &**b),
        Noun::Atom(_) => {
            return None;
        },
    };
    let verification_key = match text_of(vk_n) {
        Some(s) => s,
        None => {
            return None;
        },
    };
    let (system_n, r5) = match r4 {
        Noun::Cell(a, b) => (&**a, &**b),
        Noun::Atom(_) => {
            return None;
        },
    };
    let proof_system = match text_of(system_n) {
        Some(s) => s,
        None => {
            return None;
        },
    };
    let (submitter_n, r6) = match r5 {
        Noun::Cell(a, b) => (&**a, &**b),
        Noun::Atom(_) => {
            return None;
        },
    };
    let submitter = match text_of(submitter_n) {
        Some(s) => s,
        None => {
            return None;
        },
    };
    let (submitted_n, r7) = match r6 {
        Noun::Cell(a, b) => (&**a, &**b),
        Noun::Atom(_) => {
            return None;
        },
    };
    let submitted = match text_of(submitted_n) {
        Some(s) => s,
        None => {
            return None;
        },
    };
    let (status_n, r8) = match r7 {
        Noun::Cell(a, b) => (&**a, &**b),
        Noun::Atom(_) => {
            return None;
        },
    };
    let status = match text_of(status_n) {
        Some(s) => s,
        None => {
            return None;
        },
    };
    let (err_n, notes_n) = match r8 {
        Noun::Cell(a, b) => (&**a, &**b),
        Noun::Atom(_) => {
            return None;
        },
    };
    let err_t = match text_of(err_n) {
        Some(s) => s,
        None => {
            return None;
        },
    };
    let notes = match text_of(notes_n) {
        Some(s) => s,
        None => {
            return None;
        },
    };
    let error_message = if err_t.as_str().is_empty() {
        None
    } else {
        Some(err_t)
    };
    Some(SnarkDetails {
        id,
        proof_data,
        public_inputs,
        verification_key,
        proof_system,
        submitter,
        submitted,
        status,
        error_message,
        notes,
    })
}

/// Decode a summary payload.
fn summary_payload(n: &Noun) -> (r: Option<SnarkSummary>)
    ensures
        match (r, spec_summary_payload(n@)) {
            (Some(s), Some(sv)) => s@ == sv,
            (None, None) => true,
            _ => false,
        },
{
    proof {
        reveal_with_fuel(crate::noun::noun_view, 16);
    }
    let (id_n, r1) = match n {
        Noun::Cell(a, b) => (&**a, &**b),
        Noun::Atom(_) => {
            return None;
        },
    };
    let id = match u64_of(id_n) {
        Some(v) => v,
        None => {
            return None;
        },
    };
    let (system_n, r2) = match r1 {
        Noun::Cell(a, b) => (&**a, &**b),
        Noun::Atom(_) => {
            return None;
        },
    };
    let proof_system = match text_of(system_n) {
        Some(s) => s,
        None => {
            return None;
        },
    };
    let (submitter_n, r3) = match r2 {
        Noun::Cell(a, b) => (&**a, &**b),
        Noun::Atom(_) => {
            return None;
        },
    };
    let submitter = match text_of(submitter_n) {
        Some(s) => s,
        None => {
            return None;
        },
    };
    let (submitted_n, r4) = match r3 {
        Noun::Cell(a, b) => (&**a, &**b),
        Noun::Atom(_) => {
            return None;
        },
    };
    let submitted = match text_of(submitted_n) {
        Some(s) => s,
        None => {
            return None;
        },
    };
    let (status_n, notes_n) = match r4 {
        Noun::Cell(a, b) => (&**a, &**b),
        Noun::Atom(_) => {
            return None;
        },
    };
    let status = match text_of(status_n) {
        Some(s) => s,
        None => {
            return None;
        },
    };
    let notes = match text_of(notes_n) {
        Some(s) => s,
        None => {
            return None;
        },
    };
    Some(SnarkSummary { id, proof_system, submitter, submitted, status, notes })
}

/// Decode the ordered summaries of a list effect.
fn summaries_payload(n: &Noun) -> (r: Option<Vec<SnarkSummary>>)
    ensures
        match (r, spec_summaries(n@)) {
            (Some(v), Some(l)) => v@.map_values(|s: SnarkSummary| s@) == l,
            (None, None) => true,
            _ => false,
        },
    decreases *n,
{
    match n {
        Noun::Atom(b) => if b.len() == 0 {
            let r: Vec<SnarkSummary> = Vec::new();
            proof {
                assert(r@.map_values(|s: SnarkSummary| s@) =~~= Seq::<SnarkSummaryV>::empty());
            }
            Some(r)
        } else {
            None
        },
        Noun::Cell(h, t) => match summary_payload(h) {
            None => None,
            Some(s) => match summaries_payload(t) {
                None => None,
                Some(v) => {
                    let ghost rest = v@.map_values(|x: SnarkSummary| x@);
                    let mut v = v;
                    v.insert(0, s);
                    proof {
                        assert(v@.map_values(|x: SnarkSummary| x@) =~~= seq![s@] + rest);
                    }
                    Some(v)
                },
            },
        },
    }
}

/// Decode a list effect payload.
fn list_payload(n: &Noun) -> (r: Option<(u64, Vec<SnarkSummary>)>)
    ensures
        match (r, spec_list_payload(n@)) {
            (Some((total, v)), Some((st, sl))) => total == st && v@.map_values(
                |s: SnarkSummary| s@,
            ) == sl,
            (None, None) => true,
            _ => false,
        },
{
    proof {
        reveal_with_fuel(crate::noun::noun_view, 16);
    }
    let (total_n, rest) = match n {
        Noun::Cell(a, b) => (&**a, &**b),
        Noun::Atom(_) => {
            return None;
        },
    };
    let total = match u64_of(total_n) {
        Some(v) => v,
        None => {
            return None;
        },
    };
    let snarks = match summaries_payload(rest) {
        Some(v) => v,
        None => {
            return None;
        },
    };
    Some((total, snarks))
}

/// Decode one effect into a recognized outcome, or `None` where its
/// shape is not recognized.
pub fn decode_effect(n: &Noun) -> (r: Option<LedgerReply>)
    ensures
        match (r, spec_decode_effect(n@)) {
            (Some(a), Some(b)) => a@ == b,
            (None, None) => true,
            _ => false,
        },
{
    let (tag, rest) = match n {
        Noun::Cell(a, b) => (&**a, &**b),
        Noun::Atom(_) => {
            return None;
        },
    };
    if is_tag(tag, "snark-ack") {
        match u64_of(rest) {
            Some(id) => Some(LedgerReply::Accepted { id }),
            None => None,
        }
    } else if is_tag(tag, "snark-deleted") {
        match u64_of(rest) {
            Some(id) => Some(LedgerReply::Deleted { id }),
            None => None,
        }
    } else if is_tag(tag, "snark-missing") {
        match u64_of(rest) {
            Some(id) => Some(LedgerReply::Missing { id }),
            None => None,
        }
    } else if is_tag(tag, "snark-detail") {
        match detail_payload(rest) {
            Some(d) => Some(LedgerReply::Detail(d)),
            None => None,
        }
    } else if is_tag(tag, "snark-list") {
        match list_payload(rest) {
            Some((total, snarks)) => Some(LedgerReply::Listing { snarks, total }),
            None => None,
        }
    } else {
        None
    }
}

/// Scan an effect stream in order and return the first recognized
/// outcome, or `None` where no effect is recognized.
pub fn first_reply(effs: &Vec<Noun>) -> (r: Option<LedgerReply>)
    ensures
        match (r, spec_first_reply(nouns_view(effs@))) {
            (Some(a), Some(b)) => a@ == b,
            (None, None) => true,
            _ => false,
        },
{
    let ghost all = nouns_view(effs@);
    let mut i: usize = 0;
    proof {
        assert(all.skip(0) =~~= all);
    }
    while i < effs.len()
        invariant
            i <= effs.len(),
            all == nouns_view(effs@),
            spec_first_reply(all) == spec_first_reply(all.skip(i as int)),
        decreases effs.len() - i,
    {
        proof {
            assert(all.skip(i as int).first() == effs@[i as int]@);
            assert(all.skip(i as int).drop_first() =~~= all.skip(i as int + 1));
        }
        match decode_effect(&effs[i]) {
            Some(r) => {
                return Some(r);
            },
            None => {},
        }
        i = i + 1;
    }
    proof {
        assert(all.skip(effs@.len() as int).len() == 0);
    }
    None
}

} // verus!
