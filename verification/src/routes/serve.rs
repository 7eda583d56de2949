//! Reading a file through a signed link. Whoever holds a valid signature
//! may read; no session is asked for.

use crate::clock::current_seconds;
use crate::database::FileDocument;
use crate::database::FileRecord;
use crate::signature::law_signature_of_another_code_fails;
use crate::signature::signature_authentic;
use crate::signature::signature_text;
use crate::signature::signing_code;
use crate::signature::signature_valid;
use crate::signature::verify_signature_at;
use vstd::prelude::*;
use vstd::string::StringExecFns;

verus! {

/// The signature and the time stamp that a link carries.
#[derive(Debug)]
pub struct FileServeQuery {
    pub signature: String,
    pub timestamp: u64,
}

/// What the document store answered when asked for a file's record.
#[derive(Debug)]
pub enum FileLookup {
    /// The store could not be asked.
    Failed,
    /// No record has the id.
    NotFound,
    /// The record that has the id.
    Found(FileDocument),
}

/// Why a file is not served.
#[derive(Clone, Copy, Debug, PartialEq, Eq, Structural)]
pub enum ServeError {
    /// No record has the id, or the file is hidden: the two are told apart
    /// nowhere, so that a hidden file's existence is not confirmed.
    NotFound,
    /// The document store could not be asked.
    Database,
    /// The signature is not authentic, is older than the expiry window, or
    /// claims a time yet to come. The caller is not told which.
    Forbidden,
    /// The object store did not hand out the object.
    Fetch,
}

/// The status that goes with a refusal.
pub open spec fn error_status(error: ServeError) -> u16 {
    match error {
        ServeError::NotFound => 404,
        ServeError::Database => 500,
        ServeError::Forbidden => 403,
        ServeError::Fetch => 500,
    }
}

/// What the caller is told of a refusal.
pub open spec fn error_text(error: ServeError) -> Seq<char> {
    match error {
        ServeError::NotFound => "File not found"@,
        ServeError::Database => "Database error"@,
        ServeError::Forbidden => "Invalid or expired signature"@,
        ServeError::Fetch => "Failed to fetch file"@,
    }
}

impl ServeError {
    /// The status of the response.
    pub fn status(&self) -> (code: u16)
        ensures
            code == error_status(*self),
    {
        match self {
            ServeError::NotFound => 404,
            ServeError::Database => 500,
            ServeError::Forbidden => 403,
            ServeError::Fetch => 500,
        }
    }

    /// What the caller is told.
    pub fn message(&self) -> (text: String)
        ensures
            text@ == error_text(*self),
    {
        match self {
            ServeError::NotFound => String::from_str("File not found"),
            ServeError::Database => String::from_str("Database error"),
            ServeError::Forbidden => String::from_str("Invalid or expired signature"),
            ServeError::Fetch => String::from_str("Failed to fetch file"),
        }
    }
}

/// Whether the file of `file_id` may be read at `now` with the signature
/// and time stamp of a link, given what the store answered: the record of
/// the file to serve, or the refusal.
pub open spec fn retrieval(
    file_id: Seq<char>,
    lookup: FileLookup,
    signature: Seq<char>,
    timestamp: u64,
    expiry_seconds: u64,
    now: u64,
) -> Result<FileRecord, ServeError> {
    match lookup {
        FileLookup::Failed => Err(ServeError::Database),
        FileLookup::NotFound => Err(ServeError::NotFound),
        FileLookup::Found(file) => if file.hidden {
            Err(ServeError::NotFound)
        } else if signature_valid(
            file_id,
            file.signing_key@,
            signature,
            timestamp,
            expiry_seconds,
            now,
        ) {
            Ok(file@)
        } else {
            Err(ServeError::Forbidden)
        },
    }
}

/// Whether a decision is the one that `retrieval` names.
pub open spec fn decided(
    decision: Result<FileDocument, ServeError>,
    expected: Result<FileRecord, ServeError>,
) -> bool {
    match decision {
        Ok(file) => expected == Ok::<FileRecord, ServeError>(file@),
        Err(error) => expected == Err::<FileRecord, ServeError>(error),
    }
}

/// Decides at `current_time` whether the file of `file_id` is served to the
/// bearer of `query`, whose signature must verify under the file's own key
/// within `expiry_seconds`.
pub fn authorize_at(
    file_id: &str,
    lookup: FileLookup,
    query: &FileServeQuery,
    expiry_seconds: u64,
    current_time: u64,
) -> (decision: Result<FileDocument, ServeError>)
    ensures
        decided(
            decision,
            retrieval(
                file_id@,
                lookup,
                query.signature@,
                query.timestamp,
                expiry_seconds,
                current_time,
            ),
        ),
{
    match lookup {
        FileLookup::Failed => Err(ServeError::Database),
        FileLookup::NotFound => Err(ServeError::NotFound),
        FileLookup::Found(file) => {
            if file.hidden {
                Err(ServeError::NotFound)
            } else if verify_signature_at(
                file_id,
                file.signing_key.as_str(),
                query.signature.as_str(),
                query.timestamp,
                expiry_seconds,
                current_time,
            ) {
                Ok(file)
            } else {
                Err(ServeError::Forbidden)
            }
        },
    }
}

/// Decides at the present time whether the file of `file_id` is served to
/// the bearer of `query`: the decision is the one of `authorize_at` for what
/// the clock reads. A clock set before the Unix epoch reads as the epoch
/// itself.
pub fn serve_file(
    file_id: &str,
    lookup: FileLookup,
    query: &FileServeQuery,
    expiry_seconds: u64,
) -> (decision: Result<FileDocument, ServeError>)
    ensures
        exists|now: u64|
            decided(
                decision,
                #[trigger] retrieval(
                    file_id@,
                    lookup,
                    query.signature@,
                    query.timestamp,
                    expiry_seconds,
                    now,
                ),
            ),
        lookup is Failed ==> decision == Err::<FileDocument, ServeError>(ServeError::Database),
        lookup is NotFound ==> decision == Err::<FileDocument, ServeError>(ServeError::NotFound),
        lookup matches FileLookup::Found(file) ==> {
            &&& file.hidden ==> decision == Err::<FileDocument, ServeError>(ServeError::NotFound)
            &&& !file.hidden ==> match decision {
                Ok(served) => served@ == file@ && signature_authentic(
                    file_id@,
                    file.signing_key@,
                    query.signature@,
                    query.timestamp,
                ),
                Err(error) => error == ServeError::Forbidden,
            }
        },
{
    let current_time = crate::clock::or_epoch(current_seconds());
    authorize_at(file_id, lookup, query, expiry_seconds, current_time)
}

/// The name under which a file is handed out: its own, or its id where it
/// has none.
pub open spec fn served_name(file: FileRecord) -> Seq<char> {
    match file.name {
        Some(name) => name,
        None => file.id,
    }
}

/// The `Content-Disposition` header of a served file.
pub open spec fn disposition_text(file: FileRecord) -> Seq<char> {
    "inline; filename=\""@ + served_name(file) + "\""@
}

/// Writes the `Content-Disposition` header of a served file.
pub fn content_disposition(file: &FileDocument) -> (header: String)
    ensures
        header@ == disposition_text(file@),
{
    let mut header = String::from_str("inline; filename=\"");
    match &file.name {
        Some(name) => header.append(name.as_str()),
        None => header.append(file.id.as_str()),
    }
    header.append("\"");
    header
}

/// The headers under which a file's bytes are handed out.
#[derive(Debug)]
pub struct ServedFile {
    pub content_type: String,
    pub content_disposition: String,
}

/// Decides on the answer once the object store has been asked for the
/// bytes of `file`: its headers where the bytes were handed out, a refusal
/// where they were not.
pub fn serve_fetched(file: &FileDocument, fetched: bool) -> (served: Result<
    ServedFile,
    ServeError,
>)
    ensures
        !fetched ==> served == Err::<ServedFile, ServeError>(ServeError::Fetch),
        fetched ==> served is Ok && served->Ok_0.content_type@ == file@.content_type
            && served->Ok_0.content_disposition@ == disposition_text(file@),
{
    if !fetched {
        return Err(ServeError::Fetch);
    }
    Ok(
        ServedFile {
            content_type: file.content_type.clone(),
            content_disposition: content_disposition(file),
        },
    )
}

/// A file that is hidden, or that the store does not know, is not found,
/// whatever the link says.
pub proof fn law_hidden_file_is_not_found(
    file_id: Seq<char>,
    lookup: FileLookup,
    signature: Seq<char>,
    timestamp: u64,
    expiry_seconds: u64,
    now: u64,
)
    requires
        lookup is NotFound || (lookup is Found && lookup->Found_0.hidden),
    ensures
        retrieval(file_id, lookup, signature, timestamp, expiry_seconds, now) == Err::<
            FileRecord,
            ServeError,
        >(ServeError::NotFound),
{
}

/// A file is served only to a signature that is valid under the file's own
/// key, and only the record that the store answered with.
pub proof fn law_served_file_was_signed_for(
    file_id: Seq<char>,
    lookup: FileLookup,
    signature: Seq<char>,
    timestamp: u64,
    expiry_seconds: u64,
    now: u64,
)
    requires
        retrieval(file_id, lookup, signature, timestamp, expiry_seconds, now) is Ok,
    ensures
        lookup is Found,
        !lookup->Found_0.hidden,
        retrieval(file_id, lookup, signature, timestamp, expiry_seconds, now) == Ok::<
            FileRecord,
            ServeError,
        >(lookup->Found_0@),
        signature_valid(
            file_id,
            lookup->Found_0.signing_key@,
            signature,
            timestamp,
            expiry_seconds,
            now,
        ),
{
}

/// A known, visible file presented with a signature that is not valid is
/// refused as forbidden, whether the signature is false, expired or early.
pub proof fn law_invalid_signature_is_forbidden(
    file_id: Seq<char>,
    file: FileDocument,
    signature: Seq<char>,
    timestamp: u64,
    expiry_seconds: u64,
    now: u64,
)
    requires
        !file.hidden,
        !signature_valid(file_id, file.signing_key@, signature, timestamp, expiry_seconds, now),
    ensures
        retrieval(
            file_id,
            FileLookup::Found(file),
            signature,
            timestamp,
            expiry_seconds,
            now,
        ) == Err::<FileRecord, ServeError>(ServeError::Forbidden),
{
}

/// The link of one file does not open another: presented for a known,
/// visible file, the signature that was made for another file under that
/// file's key is refused as forbidden, at any time, unless the two files'
/// codes for the time stamp are the same.
pub proof fn law_link_of_another_file_is_forbidden(
    file: FileDocument,
    other: FileDocument,
    timestamp: u64,
    expiry_seconds: u64,
    now: u64,
)
    requires
        !file.hidden,
        signing_code(other.id@, other.signing_key@, timestamp) != signing_code(
            file.id@,
            file.signing_key@,
            timestamp,
        ),
    ensures
        retrieval(
            file.id@,
            FileLookup::Found(file),
            signature_text(other.id@, other.signing_key@, timestamp),
            timestamp,
            expiry_seconds,
            now,
        ) == Err::<FileRecord, ServeError>(ServeError::Forbidden),
        error_status(ServeError::Forbidden) == 403,
        error_text(ServeError::Forbidden) == "Invalid or expired signature"@,
{
    law_signature_of_another_code_fails(
        other.id@,
        other.signing_key@,
        timestamp,
        file.id@,
        file.signing_key@,
        timestamp,
        expiry_seconds,
        now,
    );
}

} // verus!
