//! Taking in a file: what is accepted, under which id it is stored, and
//! what the uploader gets back.

use crate::clamav::optional_bytes;
use crate::clamav::scan_error_text;
use crate::clamav::scan_verdict;
use crate::clamav::verdict_of;
use crate::clamav::ScanError;
use crate::database::is_signing_key;
use crate::database::FileDocument;
use crate::database::FileRecord;
use crate::signature::generate_signature;
use crate::signature::generate_signature_at;
use crate::signature::signature_fresh;
use crate::signature::signature_text;
use crate::signature::signature_valid;
use crate::text::copy_text;
use crate::text::decimal;
use crate::text::decimal_text;
use crate::text::optional_text;
use crate::text::same_text;
use ulid::Ulid;
use vstd::arithmetic::power2::pow2;
use vstd::prelude::*;
use vstd::string::StringExecFns;

verus! {

/// The largest file that is taken in: 25 MiB.
pub const MAX_FILE_SIZE: u64 = 26_214_400;

/// The number of characters in a file id.
pub const FILE_ID_LEN: usize = 26;

/// What an upload answers with.
#[derive(Debug)]
pub struct UploadResponse {
    pub id: String,
    pub size: u64,
    pub content_type: String,
    pub signature: String,
    pub timestamp: u64,
    pub serve_url: String,
}

/// The part of the request's body that holds the file.
#[derive(Debug)]
pub struct UploadedFile {
    pub name: Option<String>,
    pub content_type: Option<String>,
    pub data: Vec<u8>,
}

/// A file that has passed the first look.
#[derive(Debug)]
pub struct AcceptedUpload {
    pub user_id: String,
    pub name: Option<String>,
    pub content_type: String,
    pub size: u64,
    pub data: Vec<u8>,
}

/// The record and the answer of an upload that went through.
#[derive(Debug)]
pub struct CompletedUpload {
    pub document: FileDocument,
    pub response: UploadResponse,
}

/// Why an upload is turned down.
#[derive(Clone, Copy, Debug, PartialEq, Eq, Structural)]
pub enum UploadError {
    /// The request does not say which user it acts for.
    Unauthenticated,
    /// The body holds no part named `file`.
    NoFile,
    /// The file has this many bytes, more than are taken in.
    TooLarge(u64),
    /// The scanner found something in the file.
    Infected,
    /// The scanner gave no verdict.
    ScanFailed(ScanError),
    /// The object store did not take the file.
    StoreFailed,
    /// The document store did not take the file's record.
    RecordFailed,
    /// The upload was told of something that it was not waiting for.
    OutOfTurn,
}

/// The status that goes with a refusal.
pub open spec fn error_status(error: UploadError) -> u16 {
    match error {
        UploadError::Unauthenticated => 401,
        UploadError::NoFile => 400,
        UploadError::TooLarge(_) => 413,
        UploadError::Infected => 400,
        UploadError::ScanFailed(_) => 500,
        UploadError::StoreFailed => 500,
        UploadError::RecordFailed => 500,
        UploadError::OutOfTurn => 500,
    }
}

/// What the caller is told of a refusal.
pub open spec fn error_text(error: UploadError) -> Seq<char> {
    match error {
        UploadError::Unauthenticated => "User ID not found in request"@,
        UploadError::NoFile => "No file provided"@,
        UploadError::TooLarge(size) => "File size exceeds maximum allowed size of 25MB (received "@
            + decimal(size as nat) + " bytes)"@,
        UploadError::Infected => "File is infected with malware"@,
        UploadError::ScanFailed(cause) => "Virus scan failed: "@ + scan_error_text(cause),
        UploadError::StoreFailed => "Upload failed"@,
        UploadError::RecordFailed => "Failed to save file"@,
        UploadError::OutOfTurn => "Upload interrupted"@,
    }
}

impl UploadError {
    /// The status of the response.
    pub fn status(&self) -> (code: u16)
        ensures
            code == error_status(*self),
    {
        match self {
            UploadError::Unauthenticated => 401,
            UploadError::NoFile => 400,
            UploadError::TooLarge(_) => 413,
            UploadError::Infected => 400,
            UploadError::ScanFailed(_) => 500,
            UploadError::StoreFailed => 500,
            UploadError::RecordFailed => 500,
            UploadError::OutOfTurn => 500,
        }
    }

    /// What the caller is told.
    pub fn message(&self) -> (text: String)
        ensures
            text@ == error_text(*self),
    {
        match self {
            UploadError::Unauthenticated => String::from_str("User ID not found in request"),
            UploadError::NoFile => String::from_str("No file provided"),
            UploadError::TooLarge(size) => {
                let mut text = String::from_str(
                    "File size exceeds maximum allowed size of 25MB (received ",
                );
                let digits = decimal_text(*size);
                text.append(digits.as_str());
                text.append(" bytes)");
                text
            },
            UploadError::Infected => String::from_str("File is infected with malware"),
            UploadError::ScanFailed(cause) => {
                let mut text = String::from_str("Virus scan failed: ");
                let reason = cause.message();
                text.append(reason.as_str());
                text
            },
            UploadError::StoreFailed => String::from_str("Upload failed"),
            UploadError::RecordFailed => String::from_str("Failed to save file"),
            UploadError::OutOfTurn => String::from_str("Upload interrupted"),
        }
    }
}

/// The view of an optional name.
pub open spec fn optional_name(name: Option<&str>) -> Option<Seq<char>> {
    match name {
        Some(s) => Some(s@),
        None => None,
    }
}

/// Whether a part of the body is the file: the part named `file`.
pub fn is_file_field(name: Option<&str>) -> (is_file: bool)
    ensures
        is_file == (optional_name(name) == Some("file"@)),
{
    match name {
        Some(text) => same_text(text, "file"),
        None => false,
    }
}

/// The user that an upload acts for, as the guard in front of the route has
/// left it with the request.
pub fn require_user(user_id: Option<String>) -> (user: Result<String, UploadError>)
    ensures
        match user_id {
            Some(id) => user is Ok && user->Ok_0@ == id@,
            None => user == Err::<String, UploadError>(UploadError::Unauthenticated),
        },
{
    match user_id {
        Some(id) => Ok(id),
        None => Err(UploadError::Unauthenticated),
    }
}

/// The content type of a file that names none.
pub open spec fn default_content_type() -> Seq<char> {
    "application/octet-stream"@
}

/// The content type under which a file is stored.
pub open spec fn stored_content_type(named: Option<Seq<char>>) -> Seq<char> {
    match named {
        Some(content_type) => content_type,
        None => default_content_type(),
    }
}

/// Whether `upload` is the file `part` as it was sent for `user_id`, with
/// the content type that it is stored under.
pub open spec fn accepts(upload: AcceptedUpload, user_id: Seq<char>, part: UploadedFile) -> bool {
    &&& upload.user_id@ == user_id
    &&& optional_text(upload.name) == optional_text(part.name)
    &&& upload.content_type@ == stored_content_type(optional_text(part.content_type))
    &&& upload.size == part.data@.len()
    &&& upload.data@ == part.data@
}

/// What becomes of the part of the body that holds the file: the refusal,
/// or nothing where the file is taken in.
pub open spec fn file_refusal(file: Option<UploadedFile>) -> Option<UploadError> {
    match file {
        None => Some(UploadError::NoFile),
        Some(part) => if part.data@.len() > MAX_FILE_SIZE {
            Some(UploadError::TooLarge(part.data@.len() as u64))
        } else {
            None
        },
    }
}

/// Looks at what the body held. A body without a file is turned down, and
/// so is a file of more than `MAX_FILE_SIZE` bytes; a file that names no
/// content type is taken for plain bytes.
pub fn accept_file(user_id: String, file: Option<UploadedFile>) -> (accepted: Result<
    AcceptedUpload,
    UploadError,
>)
    ensures
        match accepted {
            Ok(upload) => file_refusal(file) is None && file is Some && accepts(
                upload,
                user_id@,
                file->0,
            ),
            Err(error) => file_refusal(file) == Some(error),
        },
{
    let part = match file {
        Some(part) => part,
        None => {
            return Err(UploadError::NoFile);
        },
    };
    let size = part.data.len() as u64;
    if size > MAX_FILE_SIZE {
        return Err(UploadError::TooLarge(size));
    }
    let content_type = match part.content_type {
        Some(named) => named,
        None => String::from_str("application/octet-stream"),
    };
    Ok(AcceptedUpload { user_id, name: part.name, content_type, size, data: part.data })
}

/// What becomes of a scanned file: the refusal, or nothing where the file
/// is clean.
pub open spec fn scan_refusal(verdict: Result<bool, ScanError>) -> Option<UploadError> {
    match verdict {
        Ok(true) => None,
        Ok(false) => Some(UploadError::Infected),
        Err(cause) => Some(UploadError::ScanFailed(cause)),
    }
}

/// Lets a clean file go on, and turns down any other by what the scanner said.
pub fn scan_decision(verdict: Result<bool, ScanError>) -> (decision: Result<(), UploadError>)
    ensures
        decision == match scan_refusal(verdict) {
            None => Ok::<(), UploadError>(()),
            Some(error) => Err::<(), UploadError>(error),
        },
{
    match verdict {
        Ok(true) => Ok(()),
        Ok(false) => Err(UploadError::Infected),
        Err(cause) => Err(UploadError::ScanFailed(cause)),
    }
}

/// The digits of Crockford's base 32.
pub open spec fn crockford_digit(value: nat) -> char {
    "0123456789ABCDEFGHJKMNPQRSTVWXYZ"@[value as int]
}

/// A 128-bit number as 26 digits of base 32, the most significant first.
pub open spec fn ulid_text(value: u128) -> Seq<char> {
    Seq::new(
        FILE_ID_LEN as nat,
        |i: int| crockford_digit((value as nat / pow2((5 * (25 - i)) as nat)) % 32),
    )
}

/// `Ulid::new` makes an identifier out of the time and random bits. Nothing
/// is claimed of its number.
#[verifier::external_body]
fn fresh_ulid() -> (value: u128) {
    Ulid::new().0
}

/// `Ulid::to_string` writes the identifier's number as 26 characters of
/// Crockford's base 32: five bits to a character, the lowest five last.
#[verifier::external_body]
fn ulid_string(value: u128) -> (text: String)
    ensures
        text@ == ulid_text(value),
{
    Ulid(value).to_string()
}

/// A file id: some 128-bit number in 26 digits of base 32.
pub open spec fn is_file_id(id: Seq<char>) -> bool {
    &&& id.len() == FILE_ID_LEN
    &&& exists|value: u128| id == #[trigger] ulid_text(value)
}

/// A fresh file id.
pub fn new_file_id() -> (id: String)
    ensures
        is_file_id(id@),
{
    let value = fresh_ulid();
    ulid_string(value)
}

/// The link under which a file is read: its path, then the signature and
/// the time stamp as the query.
pub open spec fn serve_url_text(file_id: Seq<char>, signature: Seq<char>, timestamp: u64) -> Seq<
    char,
> {
    "/files/"@ + file_id + "?signature="@ + signature + "&timestamp="@ + decimal(timestamp as nat)
}

/// Writes the link under which a file is read.
pub fn serve_url(file_id: &str, signature: &str, timestamp: u64) -> (url: String)
    ensures
        url@ == serve_url_text(file_id@, signature@, timestamp),
{
    let mut url = String::from_str("/files/");
    url.append(file_id);
    url.append("?signature=");
    url.append(signature);
    url.append("&timestamp=");
    let digits = decimal_text(timestamp);
    url.append(digits.as_str());
    url
}

/// The record of an accepted upload stored under `id`.
pub open spec fn upload_record(
    id: Seq<char>,
    upload: AcceptedUpload,
    signing_key: Seq<char>,
    uploaded_at: i64,
) -> FileRecord {
    FileRecord {
        id,
        name: optional_text(upload.name),
        content_type: upload.content_type@,
        size: upload.size,
        uploaded_at,
        user_id: upload.user_id@,
        signing_key,
        linked: false,
        linked_at: None,
        hidden: false,
    }
}

/// Whether `response` is the answer for the file `document`, signed at
/// `response.timestamp` under the file's own key.
pub open spec fn answers_for(response: UploadResponse, document: FileRecord) -> bool {
    &&& response.id@ == document.id
    &&& response.size == document.size
    &&& response.content_type@ == document.content_type
    &&& response.signature@ == signature_text(
        document.id,
        document.signing_key,
        response.timestamp,
    )
    &&& response.serve_url@ == serve_url_text(
        document.id,
        response.signature@,
        response.timestamp,
    )
}

/// Makes the record and the answer for a file stored under `id`.
fn complete(id: String, upload: AcceptedUpload, document: FileDocument, signed: (
    String,
    u64,
)) -> (completed: CompletedUpload)
    requires
        document@.id == id@,
        document@.size == upload.size,
        document@.content_type == upload.content_type@,
        signed.0@ == signature_text(id@, document@.signing_key, signed.1),
    ensures
        completed.document@ == document@,
        answers_for(completed.response, document@),
        completed.response.timestamp == signed.1,
{
    let url = serve_url(id.as_str(), signed.0.as_str(), signed.1);
    let response = UploadResponse {
        id,
        size: upload.size,
        content_type: upload.content_type,
        signature: signed.0,
        timestamp: signed.1,
        serve_url: url,
    };
    CompletedUpload { document, response }
}

/// The outcome of an upload once the object store has been asked to take
/// the file under `id`, for a file that is given `signing_key`, recorded at
/// `uploaded_at` (milliseconds) and signed at `timestamp` (seconds). Only a
/// file that was stored gets a record and an answer.
pub fn finish_upload_at(
    stored: bool,
    id: String,
    upload: AcceptedUpload,
    signing_key: String,
    uploaded_at: i64,
    timestamp: u64,
) -> (outcome: Result<CompletedUpload, UploadError>)
    ensures
        !stored ==> outcome == Err::<CompletedUpload, UploadError>(UploadError::StoreFailed),
        stored ==> {
            &&& outcome is Ok
            &&& outcome->Ok_0.document@ == upload_record(id@, upload, signing_key@, uploaded_at)
            &&& outcome->Ok_0.response.timestamp == timestamp
            &&& answers_for(outcome->Ok_0.response, outcome->Ok_0.document@)
        },
{
    if !stored {
        return Err(UploadError::StoreFailed);
    }
    let signature = generate_signature_at(id.as_str(), signing_key.as_str(), timestamp);
    let document = FileDocument::new_at(
        id.clone(),
        copy_text(&upload.name),
        upload.content_type.clone(),
        upload.size,
        upload.user_id.clone(),
        signing_key,
        uploaded_at,
    );
    Ok(complete(id, upload, document, (signature, timestamp)))
}

/// Whether `document` and `response` are the record and the answer of the
/// accepted `upload` stored under `id`: the record is new and has a signing
/// key of its own, and the answer's link is signed under that key and opens
/// the file for as long as it is fresh.
pub open spec fn completes(
    id: Seq<char>,
    upload: AcceptedUpload,
    document: FileDocument,
    response: UploadResponse,
) -> bool {
    &&& document@ == upload_record(id, upload, document.signing_key@, document.uploaded_at)
    &&& is_signing_key(document.signing_key@)
    &&& answers_for(response, document@)
    &&& forall|expiry_seconds: u64, now: u64|
        signature_fresh(response.timestamp, expiry_seconds, now) ==> #[trigger] signature_valid(
            id,
            document.signing_key@,
            response.signature@,
            response.timestamp,
            expiry_seconds,
            now,
        )
}

/// The outcome of an upload once the object store has been asked to take
/// the file under `id`. A file that was stored gets a record with a signing
/// key of its own, and an answer with a link signed just now.
pub fn finish_upload(stored: bool, id: String, upload: AcceptedUpload) -> (outcome: Result<
    CompletedUpload,
    UploadError,
>)
    ensures
        !stored ==> outcome == Err::<CompletedUpload, UploadError>(UploadError::StoreFailed),
        stored ==> outcome is Ok && completes(
            id@,
            upload,
            outcome->Ok_0.document,
            outcome->Ok_0.response,
        ),
{
    if !stored {
        return Err(UploadError::StoreFailed);
    }
    let document = FileDocument::new(
        id.clone(),
        copy_text(&upload.name),
        upload.content_type.clone(),
        upload.size,
        upload.user_id.clone(),
    );
    let signed = generate_signature(id.as_str(), document.signing_key.as_str());
    Ok(complete(id, upload, document, signed))
}

/// An upload on its way through the service. Whoever drives it reads the
/// body, asks the scanner and the stores, and reports what came of it; the
/// upload decides what is to be done next.
#[derive(Debug)]
pub enum UploadFlow {
    /// Waiting for the file out of the request's body.
    Receiving { user_id: String },
    /// Waiting for the scanner's answer on the file.
    Scanning { upload: AcceptedUpload },
    /// Waiting for the object store to take the file under `id`.
    Storing { id: String, upload: AcceptedUpload },
    /// Waiting for the document store to take the record.
    Recording { response: UploadResponse },
    /// Answered.
    Done,
}

/// What happened outside.
#[derive(Debug)]
pub enum UploadEvent {
    /// The body was read: the part named `file`, if it has one.
    Body(Option<UploadedFile>),
    /// The scanner was asked: its answer, if it gave one.
    Scanned(Option<Vec<u8>>),
    /// The object store was asked to take the file: whether it did.
    Stored(bool),
    /// The document store was asked to take the record: whether it did.
    /// Where it did not, the upload is refused.
    Recorded(bool),
}

/// What is to be done outside.
#[derive(Debug)]
pub enum UploadAction {
    /// Read the request's body and look for the part named `file`.
    ReadBody,
    /// Hand the file's bytes to the scanner.
    Scan,
    /// Put the file's bytes into the object store.
    Store { id: String, content_type: String },
    /// Put the record into the document store.
    Record(FileDocument),
    /// Answer the request.
    Respond(Result<UploadResponse, UploadError>),
}

/// Whether two accepted uploads are the same file of the same user.
pub open spec fn same_upload(one: AcceptedUpload, other: AcceptedUpload) -> bool {
    &&& one.user_id@ == other.user_id@
    &&& optional_text(one.name) == optional_text(other.name)
    &&& one.content_type@ == other.content_type@
    &&& one.size == other.size
    &&& one.data@ == other.data@
}

/// Whether two answers say the same.
pub open spec fn same_response(one: UploadResponse, other: UploadResponse) -> bool {
    &&& one.id@ == other.id@
    &&& one.size == other.size
    &&& one.content_type@ == other.content_type@
    &&& one.signature@ == other.signature@
    &&& one.timestamp == other.timestamp
    &&& one.serve_url@ == other.serve_url@
}

/// An upload that ends here with a refusal.
pub open spec fn refused(after: UploadFlow, action: UploadAction, error: UploadError) -> bool {
    after is Done && action == UploadAction::Respond(
        Err::<UploadResponse, UploadError>(error),
    )
}

/// How an upload begins: a request that does not say which user it acts
/// for is turned down, any other has its body read.
pub open spec fn begins(user_id: Option<String>, first: UploadFlow, action: UploadAction) -> bool {
    match user_id {
        None => refused(first, action, UploadError::Unauthenticated),
        Some(user) => {
            &&& first matches UploadFlow::Receiving { user_id }
            &&& user_id@ == user@
            &&& action is ReadBody
        },
    }
}

/// How an upload goes on: from `before`, when `event` is reported, to
/// `after`, with `action` to be done next. A file is scanned once it is
/// accepted, stored once it is found clean, recorded once it is stored, and
/// the request is answered with the file's link once the document store has
/// taken the record. Every refusal, and every event out of turn, ends the
/// upload.
pub open spec fn follows(
    before: UploadFlow,
    event: UploadEvent,
    after: UploadFlow,
    action: UploadAction,
) -> bool {
    match (before, event) {
        (UploadFlow::Receiving { user_id }, UploadEvent::Body(file)) => match file_refusal(file) {
            Some(error) => refused(after, action, error),
            None => {
                &&& after matches UploadFlow::Scanning { upload }
                &&& accepts(upload, user_id@, file->0)
                &&& action is Scan
            },
        },
        (UploadFlow::Scanning { upload }, UploadEvent::Scanned(answer)) => match scan_refusal(
            verdict_of(optional_bytes(answer)),
        ) {
            Some(error) => refused(after, action, error),
            None => {
                &&& after matches UploadFlow::Storing { id, upload: kept }
                &&& same_upload(kept, upload)
                &&& is_file_id(id@)
                &&& action matches UploadAction::Store { id: key, content_type }
                &&& key@ == id@
                &&& content_type@ == upload.content_type@
            },
        },
        (UploadFlow::Storing { id, upload }, UploadEvent::Stored(stored)) => if stored {
            &&& after matches UploadFlow::Recording { response }
            &&& action matches UploadAction::Record(document)
            &&& completes(id@, upload, document, response)
        } else {
            refused(after, action, UploadError::StoreFailed)
        },
        (UploadFlow::Recording { response }, UploadEvent::Recorded(recorded)) => if recorded {
            &&& after is Done
            &&& action matches UploadAction::Respond(Ok(answer))
            &&& same_response(answer, response)
        } else {
            refused(after, action, UploadError::RecordFailed)
        },
        _ => refused(after, action, UploadError::OutOfTurn),
    }
}

/// Copies an accepted upload's content type.
fn stored_type(upload: &AcceptedUpload) -> (content_type: String)
    ensures
        content_type@ == upload.content_type@,
{
    upload.content_type.clone()
}

impl UploadFlow {
    /// Begins an upload for the user that the guard in front of the route
    /// left with the request.
    pub fn begin(user_id: Option<String>) -> (begun: (UploadFlow, UploadAction))
        ensures
            begins(user_id, begun.0, begun.1),
    {
        match require_user(user_id) {
            Ok(user_id) => (UploadFlow::Receiving { user_id }, UploadAction::ReadBody),
            Err(error) => (UploadFlow::Done, UploadAction::Respond(Err(error))),
        }
    }

    /// The bytes of the file while it is being scanned or stored; `None`
    /// before and after.
    pub fn data(&self) -> (bytes: Option<&Vec<u8>>)
        ensures
            match self {
                UploadFlow::Scanning { upload } => bytes == Some(&upload.data),
                UploadFlow::Storing { upload, .. } => bytes == Some(&upload.data),
                _ => bytes is None,
            },
    {
        match self {
            UploadFlow::Scanning { upload } => Some(&upload.data),
            UploadFlow::Storing { upload, .. } => Some(&upload.data),
            _ => None,
        }
    }

    /// The upload after `event`, and what is to be done next.
    pub fn step(self, event: UploadEvent) -> (after: (UploadFlow, UploadAction))
        ensures
            follows(self, event, after.0, after.1),
    {
        match (self, event) {
            (UploadFlow::Receiving { user_id }, UploadEvent::Body(file)) => {
                match accept_file(user_id, file) {
                    Ok(upload) => (UploadFlow::Scanning { upload }, UploadAction::Scan),
                    Err(error) => (UploadFlow::Done, UploadAction::Respond(Err(error))),
                }
            },
            (UploadFlow::Scanning { upload }, UploadEvent::Scanned(answer)) => {
                match scan_decision(scan_verdict(&answer)) {
                    Ok(()) => {
                        let id = new_file_id();
                        let action = UploadAction::Store {
                            id: id.clone(),
                            content_type: stored_type(&upload),
                        };
                        (UploadFlow::Storing { id, upload }, action)
                    },
                    Err(error) => (UploadFlow::Done, UploadAction::Respond(Err(error))),
                }
            },
            (UploadFlow::Storing { id, upload }, UploadEvent::Stored(stored)) => {
                match finish_upload(stored, id, upload) {
                    Ok(completed) => (
                        UploadFlow::Recording { response: completed.response },
                        UploadAction::Record(completed.document),
                    ),
                    Err(error) => (UploadFlow::Done, UploadAction::Respond(Err(error))),
                }
            },
            (UploadFlow::Recording { response }, UploadEvent::Recorded(recorded)) => {
                if recorded {
                    (UploadFlow::Done, UploadAction::Respond(Ok(response)))
                } else {
                    (UploadFlow::Done, UploadAction::Respond(Err(UploadError::RecordFailed)))
                }
            },
            _ => (UploadFlow::Done, UploadAction::Respond(Err(UploadError::OutOfTurn))),
        }
    }
}

/// A record is handed to the document store only after the object store
/// has taken the file.
pub proof fn law_record_follows_store(
    before: UploadFlow,
    event: UploadEvent,
    after: UploadFlow,
    action: UploadAction,
)
    requires
        follows(before, event, after, action),
        action is Record,
    ensures
        before is Storing,
        event == UploadEvent::Stored(true),
        after is Recording,
{
}

/// A file goes to the object store only after the scanner has found it
/// clean.
pub proof fn law_store_follows_clean_scan(
    before: UploadFlow,
    event: UploadEvent,
    after: UploadFlow,
    action: UploadAction,
)
    requires
        follows(before, event, after, action),
        action is Store,
    ensures
        before is Scanning,
        event is Scanned,
        verdict_of(optional_bytes(event->Scanned_0)) == Ok::<bool, ScanError>(true),
        after is Storing,
{
}

/// Only a file of at most `MAX_FILE_SIZE` bytes is handed to the scanner.
pub proof fn law_scan_follows_acceptance(
    before: UploadFlow,
    event: UploadEvent,
    after: UploadFlow,
    action: UploadAction,
)
    requires
        follows(before, event, after, action),
        action is Scan,
    ensures
        before is Receiving,
        event matches UploadEvent::Body(Some(part)) && part.data@.len() <= MAX_FILE_SIZE,
        after matches UploadFlow::Scanning { upload } && upload.data@ == event->Body_0->0.data@,
{
}

/// An answer ends the upload, and a good answer is given only once the
/// document store has taken the record.
pub proof fn law_answer_ends_upload(
    before: UploadFlow,
    event: UploadEvent,
    after: UploadFlow,
    action: UploadAction,
)
    requires
        follows(before, event, after, action),
        action is Respond,
    ensures
        after is Done,
        action->Respond_0 is Ok ==> before is Recording && event == UploadEvent::Recorded(true),
{
}

/// An upload whose record the document store did not take is refused: the
/// uploader gets no link to a file that has no record.
pub proof fn law_unrecorded_upload_is_refused(
    response: UploadResponse,
    after: UploadFlow,
    action: UploadAction,
)
    requires
        follows(UploadFlow::Recording { response }, UploadEvent::Recorded(false), after, action),
    ensures
        after is Done,
        action == UploadAction::Respond(
            Err::<UploadResponse, UploadError>(UploadError::RecordFailed),
        ),
        error_status(UploadError::RecordFailed) == 500,
{
}

} // verus!
