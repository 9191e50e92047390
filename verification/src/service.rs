//! The extraction endpoint's decision logic.
//!
//! The caller performs the outside work — reading the requested file, and
//! running the PDF text extractor on the bytes read, under its own
//! protection, since the extractor aborts on some documents it does not
//! support — and hands the outcome in as plain values. For every outcome,
//! `extract_pdf_text` fixes the reply the endpoint sends: the extracted text
//! as the JSON object `{"text":"..."}` under status 200, or a plain-text
//! diagnostic under status 500 that says whether the read or the extraction
//! failed.

use vstd::prelude::*;
use vstd::string::StringSliceAdditionalSpecFns;
use vstd::string::StrSliceExecFns;
use crate::json::json_quote;
use crate::json::json_quoted;

verus! {

/// The outcome of one request's outside work: the file read failed with an
/// error text, or the read succeeded and the extractor finished on the bytes
/// read — with the extracted text, or with an error text of its own.
pub enum RequestOutcome {
    ReadFailed(Vec<u8>),
    Extracted(Result<Vec<u8>, Vec<u8>>),
}

/// The mathematical shape of a request outcome.
pub enum OutcomeModel {
    ReadFailed(Seq<u8>),
    Extracted(Result<Seq<u8>, Seq<u8>>),
}

/// The bytes held by each side of a `Result` of byte vectors.
pub open spec fn bytes_result_view(r: Result<Vec<u8>, Vec<u8>>) -> Result<Seq<u8>, Seq<u8>> {
    match r {
        Ok(t) => Ok(t@),
        Err(e) => Err(e@),
    }
}

impl View for RequestOutcome {
    type V = OutcomeModel;

    open spec fn view(&self) -> OutcomeModel {
        match *self {
            RequestOutcome::ReadFailed(e) => OutcomeModel::ReadFailed(e@),
            RequestOutcome::Extracted(o) => OutcomeModel::Extracted(bytes_result_view(o)),
        }
    }
}

/// The reply sent for one extraction request: an HTTP status code, whether
/// the body is the JSON success object or a plain-text diagnostic, and the
/// body bytes.
pub struct HttpReply {
    pub status: u16,
    pub json_body: bool,
    pub body: Vec<u8>,
}

/// The mathematical shape of a reply.
#[verifier::ext_equal]
pub struct ReplyModel {
    pub status: int,
    pub json_body: bool,
    pub body: Seq<u8>,
}

impl View for HttpReply {
    type V = ReplyModel;

    open spec fn view(&self) -> ReplyModel {
        ReplyModel { status: self.status as int, json_body: self.json_body, body: self.body@ }
    }
}

/// The diagnostic prefix of a reply to a failed file read.
pub open spec fn read_error_prefix() -> Seq<u8> {
    "Erreur lors de la lecture du fichier : ".spec_bytes()
}

/// The diagnostic prefix of a reply to a failed text extraction.
pub open spec fn extraction_error_prefix() -> Seq<u8> {
    "Erreur lors de l'extraction du texte : ".spec_bytes()
}

/// The JSON success body carrying the extracted text.
pub open spec fn text_body(text: Seq<u8>) -> Seq<u8> {
    "{\"text\":".spec_bytes() + json_quoted(text) + "}".spec_bytes()
}

/// The reply owed to an extraction outcome: status 200 with the JSON text
/// body when it succeeded, status 500 with the extraction diagnostic when
/// it failed.
pub open spec fn extraction_reply_spec(outcome: Result<Seq<u8>, Seq<u8>>) -> ReplyModel {
    match outcome {
        Ok(text) => ReplyModel { status: 200, json_body: true, body: text_body(text) },
        Err(e) => ReplyModel {
            status: 500,
            json_body: false,
            body: extraction_error_prefix() + e,
        },
    }
}

/// The reply owed to a request outcome: on a read error, status 500 with
/// the read diagnostic; otherwise, the reply owed to the extractor's
/// outcome.
pub open spec fn response_spec(outcome: OutcomeModel) -> ReplyModel {
    match outcome {
        OutcomeModel::ReadFailed(e) => ReplyModel {
            status: 500,
            json_body: false,
            body: read_error_prefix() + e,
        },
        OutcomeModel::Extracted(o) => extraction_reply_spec(o),
    }
}

/// Builds the JSON success body for extracted text.
pub fn json_text_body(text: &Vec<u8>) -> (r: Vec<u8>)
    ensures
        r@ == text_body(text@),
{
    let mut out = "{\"text\":".as_bytes_vec();
    let mut quoted = json_quote(text);
    out.append(&mut quoted);
    let mut close = "}".as_bytes_vec();
    out.append(&mut close);
    out
}

/// Builds the diagnostic for a failed file read.
pub fn read_failure_message(e: &Vec<u8>) -> (r: Vec<u8>)
    ensures
        r@ == read_error_prefix() + e@,
{
    let mut out = "Erreur lors de la lecture du fichier : ".as_bytes_vec();
    out.extend_from_slice(e.as_slice());
    out
}

/// Builds the diagnostic for a failed text extraction.
pub fn extraction_failure_message(e: &Vec<u8>) -> (r: Vec<u8>)
    ensures
        r@ == extraction_error_prefix() + e@,
{
    let mut out = "Erreur lors de l'extraction du texte : ".as_bytes_vec();
    out.extend_from_slice(e.as_slice());
    out
}

/// Builds the reply owed to an extraction outcome: exactly what
/// `extraction_reply_spec` states, for every value of the outcome.
pub fn reply_for_extraction(outcome: Result<Vec<u8>, Vec<u8>>) -> (r: HttpReply)
    ensures
        r@ == extraction_reply_spec(bytes_result_view(outcome)),
{
    match outcome {
        Ok(text) => {
            let body = json_text_body(&text);
            HttpReply { status: 200, json_body: true, body }
        },
        Err(e) => {
            let body = extraction_failure_message(&e);
            HttpReply { status: 500, json_body: false, body }
        },
    }
}

/// Answers one extraction request, given the outcome of its outside work:
/// the reply is exactly what `response_spec` owes it, for every outcome.
pub fn extract_pdf_text(outcome: RequestOutcome) -> (r: HttpReply)
    ensures
        r@ == response_spec(outcome@),
{
    match outcome {
        RequestOutcome::ReadFailed(e) => {
            let body = read_failure_message(&e);
            HttpReply { status: 500, json_body: false, body }
        },
        RequestOutcome::Extracted(o) => reply_for_extraction(o),
    }
}

/// The reply is a pure function of the request's outcome: two requests
/// whose file reads and extractions end the same way are owed the same
/// reply, status and body alike.
pub proof fn lemma_reply_deterministic(a: OutcomeModel, b: OutcomeModel)
    requires
        a == b,
    ensures
        response_spec(a) == response_spec(b),
{
}

} // verus!
