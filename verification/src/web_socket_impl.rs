//! The upload session state machine.
//!
//! One session owns one connection.  It waits for a metadata message, then
//! for exactly the declared number of binary chunks; the chunk that
//! completes the upload triggers one evaluation, whose result is serialized
//! back to the client before the session resets for a possible next
//! submission.  Every step is a pure decision: the caller performs the file
//! appends, runs the evaluation pipeline, and sends what the directives
//! say.  The transition function is stated as spec functions, each step's
//! contract ties the executable step to it, and the laws at the end of the
//! module are proved over it.

use crate::global_types::{EvaluationResult, OrderView, SubmissionView, SubmittedOrderData};
use crate::prusa_slicer_cli::ExtractionError;
use crate::prusa_slicer_interface::EvaluationError;
use crate::text::{dec_str, json_escaped, price_text, push_json_escaped, push_price_text,
    push_u128_decimal};
use vstd::prelude::*;

verus! {

/// Why a session was closed.
#[derive(Clone, Copy, PartialEq, Eq, Structural, Debug)]
pub enum CloseReason {
    /// The metadata message did not parse into a submission.
    MetadataParseFailure,
    /// The submission declared no copies or no chunks.
    InvalidSubmission,
    /// A metadata message arrived while chunks were still expected.
    MetadataWhileReceiving,
    /// A binary frame arrived before any metadata.
    BinaryBeforeMetadata,
    /// More binary frames arrived than the submission declared.
    ChunkCountExceeded { received: u32, total: u32 },
    /// A chunk could not be appended to the destination file.
    ChunkWriteFailure { chunk: u32 },
    /// The evaluation's extraction stage failed.
    EvaluationFailure { error: ExtractionError },
    /// The evaluation result could not be persisted.
    DatabaseFailure,
}

impl CloseReason {
    /// The reason as reported to the client.
    pub open spec fn spec_message(self) -> Seq<char> {
        match self {
            CloseReason::MetadataParseFailure => {
                "Failed to parse SubmittedOrderData from text payload"@
            },
            CloseReason::InvalidSubmission => {
                "Submission must declare at least one copy and one chunk"@
            },
            CloseReason::MetadataWhileReceiving => {
                "Received a new submission while chunks were still expected"@
            },
            CloseReason::BinaryBeforeMetadata => {
                "No submitted form data available to process the STL model."@
            },
            CloseReason::ChunkCountExceeded { received, total } => {
                "Incorrect number of chunks received "@ + dec_str(received as int) + " out of "@
                    + dec_str(total as int)
            },
            CloseReason::ChunkWriteFailure { chunk } => {
                "Internal error while processing the file chunk "@ + dec_str(chunk as int)
            },
            CloseReason::EvaluationFailure { error } => {
                "Order evaluation failed: "@ + error.spec_message()
            },
            CloseReason::DatabaseFailure => "Internal database error"@,
        }
    }

    /// Renders the reason text.
    pub fn message(&self) -> (r: String)
        ensures
            r@ == self.spec_message(),
    {
        match self {
            CloseReason::MetadataParseFailure => {
                String::from_str("Failed to parse SubmittedOrderData from text payload")
            },
            CloseReason::InvalidSubmission => {
                String::from_str("Submission must declare at least one copy and one chunk")
            },
            CloseReason::MetadataWhileReceiving => {
                String::from_str("Received a new submission while chunks were still expected")
            },
            CloseReason::BinaryBeforeMetadata => {
                String::from_str("No submitted form data available to process the STL model.")
            },
            CloseReason::ChunkCountExceeded { received, total } => {
                let mut s = String::from_str("Incorrect number of chunks received ");
                push_u128_decimal(&mut s, *received as u128);
                s.append(" out of ");
                push_u128_decimal(&mut s, *total as u128);
                s
            },
            CloseReason::ChunkWriteFailure { chunk } => {
                let mut s = String::from_str("Internal error while processing the file chunk ");
                push_u128_decimal(&mut s, *chunk as u128);
                s
            },
            CloseReason::EvaluationFailure { error } => {
                let mut s = String::from_str("Order evaluation failed: ");
                s.append(error.message());
                s
            },
            CloseReason::DatabaseFailure => String::from_str("Internal database error"),
        }
    }
}

/// What a session step asks its caller to do.
pub enum SessionDirective {
    /// Nothing to do; keep feeding the session.
    Proceed,
    /// Append the arrived chunk to the named destination file; on the first
    /// chunk, remove any stale file of that name first.
    AppendChunk { file_name: String, fresh_start: bool },
    /// All declared chunks arrived: run the evaluation pipeline for this
    /// submission and report the outcome back to the session.
    EvaluationDue { form: SubmittedOrderData },
    /// Send this text to the client.
    SendText { payload: String },
    /// Close the connection for this reason.
    Close { reason: CloseReason },
}

/// The mathematical image of a directive.
pub ghost enum DirectiveView {
    Proceed,
    Append { file_name: Seq<char>, fresh_start: bool },
    EvaluationDue { form: SubmissionView },
    Send { payload: Seq<char> },
    Close { reason: CloseReason },
}

impl View for SessionDirective {
    type V = DirectiveView;

    open spec fn view(&self) -> DirectiveView {
        match self {
            SessionDirective::Proceed => DirectiveView::Proceed,
            SessionDirective::AppendChunk { file_name, fresh_start } => {
                DirectiveView::Append { file_name: file_name@, fresh_start: *fresh_start }
            },
            SessionDirective::EvaluationDue { form } => DirectiveView::EvaluationDue {
                form: form@,
            },
            SessionDirective::SendText { payload } => DirectiveView::Send { payload: payload@ },
            SessionDirective::Close { reason } => DirectiveView::Close { reason: *reason },
        }
    }
}

/// The session's state: waiting for metadata, or receiving the declared
/// chunks of one submission.
pub ghost enum SessionView {
    AwaitingMetadata,
    Receiving { form: SubmissionView, received: int },
}

/// Whether a submission may open an upload.
pub open spec fn spec_valid_submission(f: SubmissionView) -> bool {
    f.copies_nbr >= 1 && f.nbr_of_chunks >= 1
}

/// One upload session: the submission being received, if any, and how many
/// chunks of it have been appended.
pub struct UploadSession {
    submitted_form: Option<SubmittedOrderData>,
    chunks_received: u32,
}

impl View for UploadSession {
    type V = SessionView;

    closed spec fn view(&self) -> SessionView {
        match self.submitted_form {
            None => SessionView::AwaitingMetadata,
            Some(f) => SessionView::Receiving { form: f@, received: self.chunks_received as int },
        }
    }
}

/// What a metadata message does to a session: during an upload it is a
/// protocol violation; otherwise it opens an upload when it parsed into a
/// valid submission and closes the session when it did not.
pub open spec fn spec_handle_text(s: SessionView, parsed: Option<SubmissionView>) -> (
    SessionView,
    DirectiveView,
) {
    match s {
        SessionView::Receiving { form, received } => (
            SessionView::AwaitingMetadata,
            DirectiveView::Close { reason: CloseReason::MetadataWhileReceiving },
        ),
        SessionView::AwaitingMetadata => match parsed {
            None => (
                SessionView::AwaitingMetadata,
                DirectiveView::Close { reason: CloseReason::MetadataParseFailure },
            ),
            Some(f) => if spec_valid_submission(f) {
                (SessionView::Receiving { form: f, received: 0 }, DirectiveView::Proceed)
            } else {
                (
                    SessionView::AwaitingMetadata,
                    DirectiveView::Close { reason: CloseReason::InvalidSubmission },
                )
            },
        },
    }
}

/// What a binary frame does to a session: before metadata it is rejected;
/// beyond the declared count it closes the session; otherwise it is to be
/// appended, freshly when it is the first chunk.
pub open spec fn spec_handle_binary(s: SessionView) -> (SessionView, DirectiveView) {
    match s {
        SessionView::AwaitingMetadata => (
            SessionView::AwaitingMetadata,
            DirectiveView::Close { reason: CloseReason::BinaryBeforeMetadata },
        ),
        SessionView::Receiving { form, received } => {
            if received >= form.nbr_of_chunks {
                (
                    SessionView::AwaitingMetadata,
                    DirectiveView::Close {
                        reason: CloseReason::ChunkCountExceeded {
                            received: received as u32,
                            total: form.nbr_of_chunks as u32,
                        },
                    },
                )
            } else {
                (s, DirectiveView::Append { file_name: form.file_name, fresh_start: received == 0 })
            }
        },
    }
}

/// What a successful append does: the count advances, and the chunk that
/// reaches the declared count makes the evaluation due, exactly once.
pub open spec fn spec_append_ok(s: SessionView) -> (SessionView, DirectiveView) {
    match s {
        SessionView::AwaitingMetadata => (s, DirectiveView::Proceed),
        SessionView::Receiving { form, received } => {
            if received < form.nbr_of_chunks {
                let next = SessionView::Receiving { form, received: received + 1 };
                if received + 1 == form.nbr_of_chunks {
                    (next, DirectiveView::EvaluationDue { form })
                } else {
                    (next, DirectiveView::Proceed)
                }
            } else {
                (s, DirectiveView::Proceed)
            }
        },
    }
}

/// What a failed append does: the session closes, naming the chunk that
/// could not be written.
pub open spec fn spec_append_failed(s: SessionView) -> (SessionView, DirectiveView) {
    let arrived = match s {
        SessionView::AwaitingMetadata => 1int,
        SessionView::Receiving { form, received } => received + 1,
    };
    let chunk = if arrived <= u32::MAX as int {
        arrived
    } else {
        u32::MAX as int
    };
    (
        SessionView::AwaitingMetadata,
        DirectiveView::Close { reason: CloseReason::ChunkWriteFailure { chunk: chunk as u32 } },
    )
}

/// What the evaluation's outcome does: a success is serialized and sent and
/// the session resets for a possible next submission; a failure closes the
/// session naming the failed stage.
pub open spec fn spec_process_outcome(s: SessionView, outcome: Result<
    OrderView,
    EvaluationError,
>) -> (SessionView, DirectiveView) {
    match outcome {
        Ok(res) => (
            SessionView::AwaitingMetadata,
            DirectiveView::Send { payload: spec_serialize_evaluation_result(res) },
        ),
        Err(EvaluationError::Extraction(e)) => (
            SessionView::AwaitingMetadata,
            DirectiveView::Close { reason: CloseReason::EvaluationFailure { error: e } },
        ),
        Err(EvaluationError::Database(_)) => (
            SessionView::AwaitingMetadata,
            DirectiveView::Close { reason: CloseReason::DatabaseFailure },
        ),
    }
}

/// The image of a parsed metadata message.
pub open spec fn spec_opt_view(p: Option<SubmittedOrderData>) -> Option<SubmissionView> {
    match p {
        None => None,
        Some(f) => Some(f@),
    }
}

/// The image of an evaluation outcome.
pub open spec fn spec_outcome_view(o: Result<EvaluationResult, EvaluationError>) -> Result<
    OrderView,
    EvaluationError,
> {
    match o {
        Ok(res) => Ok(res@),
        Err(e) => Err(e),
    }
}

impl UploadSession {
    /// A fresh session, waiting for metadata.
    pub fn new() -> (s: UploadSession)
        ensures
            s@ == SessionView::AwaitingMetadata,
    {
        UploadSession { submitted_form: None, chunks_received: 0 }
    }

    /// Forgets the submission in progress and waits for metadata again.
    pub fn reset_session(&mut self)
        ensures
            final(self)@ == SessionView::AwaitingMetadata,
    {
        self.submitted_form = None;
        self.chunks_received = 0;
    }

    /// Consumes one metadata message, already parsed by the transport
    /// (`None` when it did not deserialize into a submission).
    pub fn handle_text_payload(&mut self, parsed: Option<SubmittedOrderData>) -> (d:
        SessionDirective)
        ensures
            (final(self)@, d@) == spec_handle_text(old(self)@, spec_opt_view(parsed)),
    {
        if self.submitted_form.is_some() {
            self.reset_session();
            return SessionDirective::Close { reason: CloseReason::MetadataWhileReceiving };
        }
        match parsed {
            None => SessionDirective::Close { reason: CloseReason::MetadataParseFailure },
            Some(f) => {
                if f.copies_nbr >= 1 && f.nbr_of_chunks >= 1 {
                    self.submitted_form = Some(f);
                    self.chunks_received = 0;
                    SessionDirective::Proceed
                } else {
                    SessionDirective::Close { reason: CloseReason::InvalidSubmission }
                }
            },
        }
    }

    /// Consumes one binary frame.
    pub fn handle_binary_frame(&mut self) -> (d: SessionDirective)
        ensures
            (final(self)@, d@) == spec_handle_binary(old(self)@),
    {
        match &self.submitted_form {
            None => SessionDirective::Close { reason: CloseReason::BinaryBeforeMetadata },
            Some(form) => {
                if self.chunks_received >= form.nbr_of_chunks {
                    let reason = CloseReason::ChunkCountExceeded {
                        received: self.chunks_received,
                        total: form.nbr_of_chunks,
                    };
                    self.reset_session();
                    SessionDirective::Close { reason }
                } else {
                    let file_name = form.file_name.clone();
                    let fresh_start = self.chunks_received == 0;
                    SessionDirective::AppendChunk { file_name, fresh_start }
                }
            },
        }
    }

    /// Records that the caller appended the arrived chunk.
    pub fn chunk_append_succeeded(&mut self) -> (d: SessionDirective)
        ensures
            (final(self)@, d@) == spec_append_ok(old(self)@),
    {
        match &self.submitted_form {
            None => SessionDirective::Proceed,
            Some(form) => {
                if self.chunks_received < form.nbr_of_chunks {
                    let form_copy = form.duplicate();
                    let total = form.nbr_of_chunks;
                    self.chunks_received = self.chunks_received + 1;
                    if self.chunks_received == total {
                        SessionDirective::EvaluationDue { form: form_copy }
                    } else {
                        SessionDirective::Proceed
                    }
                } else {
                    SessionDirective::Proceed
                }
            },
        }
    }

    /// Records that the caller could not append the arrived chunk.
    pub fn chunk_append_failed(&mut self) -> (d: SessionDirective)
        ensures
            (final(self)@, d@) == spec_append_failed(old(self)@),
    {
        let chunk = match &self.submitted_form {
            None => 1u32,
            Some(_) => if self.chunks_received < u32::MAX {
                self.chunks_received + 1
            } else {
                u32::MAX
            },
        };
        self.reset_session();
        SessionDirective::Close { reason: CloseReason::ChunkWriteFailure { chunk } }
    }

    /// Consumes the outcome of the evaluation this session requested.
    pub fn process_evaluation_outcome(&mut self, outcome: Result<
        EvaluationResult,
        EvaluationError,
    >) -> (d: SessionDirective)
        ensures
            (final(self)@, d@) == spec_process_outcome(old(self)@, spec_outcome_view(outcome)),
    {
        self.reset_session();
        match outcome {
            Ok(res) => SessionDirective::SendText { payload: serialize_evaluation_result(res) },
            Err(EvaluationError::Extraction(e)) => SessionDirective::Close {
                reason: CloseReason::EvaluationFailure { error: e },
            },
            Err(EvaluationError::Database(_)) => SessionDirective::Close {
                reason: CloseReason::DatabaseFailure,
            },
        }
    }

    /// The reply to a frame that is neither text nor binary; the session
    /// does not change.
    pub fn handle_unsupported(&self) -> (t: String)
        ensures
            t@ == "Unsupported message type. Only text and binary messages are supported."@,
    {
        String::from_str("Unsupported message type. Only text and binary messages are supported.")
    }
}

/// The result message sent back to the client after a successful
/// evaluation, as one JSON object.
pub open spec fn spec_serialize_evaluation_result(r: OrderView) -> Seq<char> {
    "{\"type\":\"evaluation_result\",\"name\":\""@ + json_escaped(r.name) + "\",\"email\":\""@
        + json_escaped(r.email) + "\",\"copies_nbr\":"@ + dec_str(r.copies_nbr)
        + ",\"file_name\":\""@ + json_escaped(r.file_name) + "\",\"price\":\""@ + price_text(
        r.price_grosze,
    ) + "\",\"material_type\":\""@ + r.material_type.name()
        + "\",\"status\":\"success\",\"message\":\"Evaluation completed successfully.\"}"@
}

/// Serializes an evaluation result for the client.
pub fn serialize_evaluation_result(eval_result: EvaluationResult) -> (r: String)
    ensures
        r@ == spec_serialize_evaluation_result(eval_result@),
{
    let mut s = String::from_str("{\"type\":\"evaluation_result\",\"name\":\"");
    push_json_escaped(&mut s, eval_result.name.as_str());
    s.append("\",\"email\":\"");
    push_json_escaped(&mut s, eval_result.email.as_str());
    s.append("\",\"copies_nbr\":");
    push_u128_decimal(&mut s, eval_result.copies_nbr as u128);
    s.append(",\"file_name\":\"");
    push_json_escaped(&mut s, eval_result.file_name.as_str());
    s.append("\",\"price\":\"");
    push_price_text(&mut s, eval_result.price_grosze);
    s.append("\",\"material_type\":\"");
    s.append(eval_result.material_type.as_str());
    s.append("\",\"status\":\"success\",\"message\":\"Evaluation completed successfully.\"}");
    s
}

/// Sending a binary frame before any metadata is rejected without touching
/// anything persistent: the session stays as it was, the caller is told
/// only to close, and no append, no evaluation and no store operation is
/// requested.
pub proof fn lemma_binary_before_metadata_rejected()
    ensures
        spec_handle_binary(SessionView::AwaitingMetadata).0 == SessionView::AwaitingMetadata,
        spec_handle_binary(SessionView::AwaitingMetadata).1 == (DirectiveView::Close {
            reason: CloseReason::BinaryBeforeMetadata,
        }),
{
}

/// One more binary frame than declared closes the session with the
/// chunk-count reason: no append and no second evaluation is requested.
pub proof fn lemma_excess_chunk_closes(form: SubmissionView)
    ensures
        spec_handle_binary(
            (SessionView::Receiving { form, received: form.nbr_of_chunks }),
        ).0 == SessionView::AwaitingMetadata,
        (spec_handle_binary((SessionView::Receiving { form, received: form.nbr_of_chunks })).1
            matches DirectiveView::Close { reason } && reason is ChunkCountExceeded),
{
}

/// Re-sending a metadata message while chunks are expected is a protocol
/// violation, whatever the message holds: the session closes with that
/// reason and the upload in progress is abandoned.
pub proof fn lemma_metadata_resend_rejected(
    form: SubmissionView,
    received: int,
    parsed: Option<SubmissionView>,
)
    ensures
        spec_handle_text((SessionView::Receiving { form, received }), parsed) == ((
            SessionView::AwaitingMetadata,
            DirectiveView::Close { reason: CloseReason::MetadataWhileReceiving },
        )),
{
}

/// The state and the number of evaluations requested after `i` successful
/// chunk rounds (one binary frame, one successful append each).
pub open spec fn spec_run_chunks(s: SessionView, i: nat) -> (SessionView, int)
    decreases i,
{
    if i == 0 {
        (s, 0)
    } else {
        let prev = spec_run_chunks(s, (i - 1) as nat);
        let after_binary = spec_handle_binary(prev.0);
        let after_append = spec_append_ok(after_binary.0);
        (
            after_append.0,
            prev.1 + (if after_binary.1 is EvaluationDue {
                1int
            } else {
                0int
            }) + (if after_append.1 is EvaluationDue {
                1int
            } else {
                0int
            }),
        )
    }
}

/// For every valid submission declaring `k` chunks: starting right after
/// the metadata was accepted, `i <= k` successful chunk rounds leave the
/// session receiving with count `i`, and evaluation has been requested
/// exactly once when `i == k` and not at all before — one upload triggers
/// one evaluation.  A successful outcome then emits exactly one result
/// message, `spec_process_outcome` sending the serialized record and
/// resetting the session; one persisted record per upload is the
/// evaluation pipeline's own contract.
pub proof fn lemma_upload_requests_one_evaluation(form: SubmissionView, k: nat, i: nat)
    requires
        spec_valid_submission(form),
        form.nbr_of_chunks == k,
        i <= k,
    ensures
        spec_run_chunks((SessionView::Receiving { form, received: 0 }), i).0
            == (SessionView::Receiving { form, received: i as int }),
        spec_run_chunks((SessionView::Receiving { form, received: 0 }), i).1 == (if i == k {
            1int
        } else {
            0int
        }),
    decreases i,
{
    if i > 0 {
        lemma_upload_requests_one_evaluation(form, k, (i - 1) as nat);
    }
}

} // verus!