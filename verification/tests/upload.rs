use cdn::clamav::ScanError;
use cdn::routes::serve::authorize_at;
use cdn::routes::serve::FileLookup;
use cdn::routes::serve::FileServeQuery;
use cdn::routes::serve::ServeError;
use cdn::routes::upload::accept_file;
use cdn::routes::upload::finish_upload;
use cdn::routes::upload::finish_upload_at;
use cdn::routes::upload::is_file_field;
use cdn::routes::upload::new_file_id;
use cdn::routes::upload::require_user;
use cdn::routes::upload::scan_decision;
use cdn::routes::upload::serve_url;
use cdn::routes::upload::AcceptedUpload;
use cdn::routes::upload::UploadAction;
use cdn::routes::upload::UploadError;
use cdn::routes::upload::UploadEvent;
use cdn::routes::upload::UploadFlow;
use cdn::routes::upload::UploadedFile;
use cdn::routes::upload::MAX_FILE_SIZE;
use cdn::signature::verify_signature_at;

fn part(data: Vec<u8>) -> UploadedFile {
    UploadedFile { name: Some("a.bin".to_string()), content_type: Some("image/gif".to_string()), data }
}

fn accepted() -> AcceptedUpload {
    accept_file("user-1".to_string(), Some(part(vec![1, 2, 3]))).unwrap()
}

#[test]
fn only_the_part_named_file_is_the_file() {
    assert!(is_file_field(Some("file")));
    assert!(!is_file_field(Some("File")));
    assert!(!is_file_field(Some("files")));
    assert!(!is_file_field(Some("fil")));
    assert!(!is_file_field(Some("")));
    assert!(!is_file_field(None));
}

#[test]
fn upload_needs_a_user() {
    assert_eq!(require_user(Some("u".to_string())), Ok("u".to_string()));
    let error = require_user(None).unwrap_err();
    assert_eq!(error, UploadError::Unauthenticated);
    assert_eq!(error.status(), 401);
    assert_eq!(error.message(), "User ID not found in request");
}

#[test]
fn body_without_file_is_turned_down() {
    let error = accept_file("u".to_string(), None).unwrap_err();
    assert_eq!(error, UploadError::NoFile);
    assert_eq!(error.status(), 400);
    assert_eq!(error.message(), "No file provided");
}

#[test]
fn file_keeps_its_name_type_and_bytes() {
    let upload = accepted();
    assert_eq!(upload.user_id, "user-1");
    assert_eq!(upload.name, Some("a.bin".to_string()));
    assert_eq!(upload.content_type, "image/gif");
    assert_eq!(upload.size, 3);
    assert_eq!(upload.data, vec![1, 2, 3]);
}

#[test]
fn file_without_type_is_plain_bytes() {
    let file = UploadedFile { name: None, content_type: None, data: vec![] };
    let upload = accept_file("u".to_string(), Some(file)).unwrap();
    assert_eq!(upload.content_type, "application/octet-stream");
    assert_eq!(upload.name, None);
    assert_eq!(upload.size, 0);
}

#[test]
fn file_of_25_mib_is_taken_and_one_byte_more_is_not() {
    assert_eq!(MAX_FILE_SIZE, 25 * 1024 * 1024);
    let upload = accept_file("u".to_string(), Some(part(vec![0; 26_214_400]))).unwrap();
    assert_eq!(upload.size, 26_214_400);
    let error = accept_file("u".to_string(), Some(part(vec![0; 26_214_401]))).unwrap_err();
    assert_eq!(error, UploadError::TooLarge(26_214_401));
    assert_eq!(error.status(), 413);
    assert_eq!(
        error.message(),
        "File size exceeds maximum allowed size of 25MB (received 26214401 bytes)"
    );
}

#[test]
fn only_a_clean_file_goes_on() {
    assert_eq!(scan_decision(Ok(true)), Ok(()));
    let infected = scan_decision(Ok(false)).unwrap_err();
    assert_eq!(infected, UploadError::Infected);
    assert_eq!(infected.status(), 400);
    assert_eq!(infected.message(), "File is infected with malware");
    let unreachable = scan_decision(Err(ScanError::Unreachable)).unwrap_err();
    assert_eq!(unreachable, UploadError::ScanFailed(ScanError::Unreachable));
    assert_eq!(unreachable.status(), 500);
    assert_eq!(unreachable.message(), "Virus scan failed: Failed to scan file with ClamAV");
    let unreadable = scan_decision(Err(ScanError::Unreadable)).unwrap_err();
    assert_eq!(unreadable.message(), "Virus scan failed: Failed to parse ClamAV response");
}

#[test]
fn file_ids_are_26_characters_of_base_32() {
    let one = new_file_id();
    let other = new_file_id();
    assert_eq!(one.len(), 26);
    assert!(one.chars().all(|c| "0123456789ABCDEFGHJKMNPQRSTVWXYZ".contains(c)));
    assert!(one.as_str() <= "7ZZZZZZZZZZZZZZZZZZZZZZZZZ");
    assert_ne!(one, other);
    assert_eq!(one, ulid::Ulid::from_string(&one).unwrap().to_string());
}

#[test]
fn link_holds_id_signature_and_timestamp() {
    assert_eq!(
        serve_url("01ARZ3NDEKTSV4RRFFQ69G5FAV", "abcd", 1_700_000_000),
        "/files/01ARZ3NDEKTSV4RRFFQ69G5FAV?signature=abcd&timestamp=1700000000"
    );
    assert_eq!(serve_url("", "", 0), "/files/?signature=&timestamp=0");
    assert_eq!(
        serve_url("x", "y", u64::MAX),
        "/files/x?signature=y&timestamp=18446744073709551615"
    );
}

#[test]
fn file_that_was_not_stored_gets_no_record() {
    let error = finish_upload(false, "id".to_string(), accepted()).unwrap_err();
    assert_eq!(error, UploadError::StoreFailed);
    assert_eq!(error.status(), 500);
    assert_eq!(error.message(), "Upload failed");
    let error = finish_upload_at(false, "id".to_string(), accepted(), "k".repeat(32), 0, 0).unwrap_err();
    assert_eq!(error, UploadError::StoreFailed);
}

#[test]
fn stored_file_gets_record_and_signed_link() {
    let id = "01ARZ3NDEKTSV4RRFFQ69G5FAV".to_string();
    let done = finish_upload_at(true, id.clone(), accepted(), "k".repeat(32), 1_700_000_000_123, 1_700_000_000).unwrap();
    assert_eq!(done.document.id, id);
    assert_eq!(done.document.name, Some("a.bin".to_string()));
    assert_eq!(done.document.content_type, "image/gif");
    assert_eq!(done.document.size, 3);
    assert_eq!(done.document.uploaded_at, 1_700_000_000_123);
    assert_eq!(done.document.user_id, "user-1");
    assert_eq!(done.document.signing_key, "k".repeat(32));
    assert!(!done.document.linked);
    assert_eq!(done.document.linked_at, None);
    assert!(!done.document.hidden);
    assert_eq!(done.response.id, id);
    assert_eq!(done.response.size, 3);
    assert_eq!(done.response.content_type, "image/gif");
    assert_eq!(done.response.timestamp, 1_700_000_000);
    assert_eq!(
        done.response.signature,
        "e16e24e7f83dcf9de867ab3464e86bfb27ac99e5fa69bbf3d8bd1c759f976ef6"
    );
    assert_eq!(
        done.response.serve_url,
        "/files/01ARZ3NDEKTSV4RRFFQ69G5FAV?signature=e16e24e7f83dcf9de867ab3464e86bfb27ac99e5fa69bbf3d8bd1c759f976ef6&timestamp=1700000000"
    );
}

#[test]
fn upload_then_read_within_the_window_and_not_after() {
    let id = new_file_id();
    let done = finish_upload(true, id.clone(), accepted()).unwrap();
    let signed_at = done.response.timestamp;
    let key = done.document.signing_key.clone();
    assert_eq!(key.len(), 32);
    assert_eq!(done.response.id, id);
    assert_eq!(
        done.response.serve_url,
        format!("/files/{}?signature={}&timestamp={}", id, done.response.signature, signed_at)
    );
    let window = 3600;
    assert!(verify_signature_at(&id, &key, &done.response.signature, signed_at, window, signed_at));
    assert!(verify_signature_at(&id, &key, &done.response.signature, signed_at, window, signed_at + window));
    assert!(!verify_signature_at(&id, &key, &done.response.signature, signed_at, window, signed_at + window + 1));
    let query = FileServeQuery { signature: done.response.signature.clone(), timestamp: signed_at };
    let served = authorize_at(&id, FileLookup::Found(done.document.clone()), &query, window, signed_at + 10).unwrap();
    assert_eq!(served.id, id);
    let other = finish_upload(true, new_file_id(), accepted()).unwrap();
    let foreign = FileServeQuery { signature: other.response.signature.clone(), timestamp: other.response.timestamp };
    let refused = authorize_at(&id, FileLookup::Found(done.document.clone()), &foreign, window, signed_at + 10);
    assert_eq!(refused.unwrap_err(), ServeError::Forbidden);
    assert_eq!(refused_status(), 403);
}

fn refused_status() -> u16 {
    ServeError::Forbidden.status()
}

fn stored_flow() -> (UploadFlow, String, String) {
    let (flow, action) = UploadFlow::begin(Some("user-1".to_string()));
    assert!(matches!(action, UploadAction::ReadBody));
    assert!(flow.data().is_none());
    let (flow, action) = flow.step(UploadEvent::Body(Some(part(vec![1, 2, 3]))));
    assert!(matches!(action, UploadAction::Scan));
    assert_eq!(flow.data(), Some(&vec![1, 2, 3]));
    let (flow, action) = flow.step(UploadEvent::Scanned(Some(b"stream: OK\0".to_vec())));
    assert_eq!(flow.data(), Some(&vec![1, 2, 3]));
    match action {
        UploadAction::Store { id, content_type } => (flow, id, content_type),
        other => panic!("a clean file is stored, not {:?}", other),
    }
}

#[test]
fn upload_goes_from_body_to_scan_to_store_to_record_to_answer() {
    let (flow, id, content_type) = stored_flow();
    assert_eq!(id.len(), 26);
    assert_eq!(content_type, "image/gif");
    let (flow, action) = flow.step(UploadEvent::Stored(true));
    assert!(flow.data().is_none());
    let document = match action {
        UploadAction::Record(document) => document,
        other => panic!("a stored file is recorded, not {:?}", other),
    };
    assert_eq!(document.id, id);
    assert_eq!(document.user_id, "user-1");
    assert_eq!(document.size, 3);
    assert!(!document.linked);
    let (flow, action) = flow.step(UploadEvent::Recorded(true));
    assert!(matches!(flow, UploadFlow::Done));
    let response = match action {
        UploadAction::Respond(Ok(response)) => response,
        other => panic!("a recorded file is answered for, not {:?}", other),
    };
    assert_eq!(response.id, id);
    assert_eq!(response.size, 3);
    assert_eq!(response.content_type, "image/gif");
    assert!(verify_signature_at(
        &id,
        &document.signing_key,
        &response.signature,
        response.timestamp,
        60,
        response.timestamp + 60
    ));
    assert_eq!(
        response.serve_url,
        format!("/files/{}?signature={}&timestamp={}", id, response.signature, response.timestamp)
    );
}

#[test]
fn upload_is_refused_when_the_record_was_not_taken() {
    let (flow, _, _) = stored_flow();
    let (flow, _) = flow.step(UploadEvent::Stored(true));
    let (flow, action) = flow.step(UploadEvent::Recorded(false));
    assert!(matches!(flow, UploadFlow::Done));
    let error = refusal(action);
    assert_eq!(error, UploadError::RecordFailed);
    assert_eq!(error.status(), 500);
    assert_eq!(error.message(), "Failed to save file");
}

fn refusal(action: UploadAction) -> UploadError {
    match action {
        UploadAction::Respond(Err(error)) => error,
        other => panic!("expected a refusal, not {:?}", other),
    }
}

#[test]
fn upload_without_user_is_turned_down_before_the_body_is_read() {
    let (flow, action) = UploadFlow::begin(None);
    assert!(matches!(flow, UploadFlow::Done));
    assert_eq!(refusal(action), UploadError::Unauthenticated);
}

#[test]
fn upload_ends_at_the_first_refusal() {
    let (flow, _) = UploadFlow::begin(Some("u".to_string()));
    let (flow, action) = flow.step(UploadEvent::Body(None));
    assert!(matches!(flow, UploadFlow::Done));
    assert_eq!(refusal(action), UploadError::NoFile);

    let (flow, _) = UploadFlow::begin(Some("u".to_string()));
    let (flow, _) = flow.step(UploadEvent::Body(Some(part(vec![0; 4]))));
    let (flow, action) = flow.step(UploadEvent::Scanned(Some(b"stream: Eicar FOUND\0".to_vec())));
    assert!(matches!(flow, UploadFlow::Done));
    assert_eq!(refusal(action), UploadError::Infected);

    let (flow, _) = UploadFlow::begin(Some("u".to_string()));
    let (flow, _) = flow.step(UploadEvent::Body(Some(part(vec![0; 4]))));
    let (_, action) = flow.step(UploadEvent::Scanned(None));
    assert_eq!(refusal(action), UploadError::ScanFailed(ScanError::Unreachable));

    let (flow, _) = UploadFlow::begin(Some("u".to_string()));
    let (flow, _) = flow.step(UploadEvent::Body(Some(part(vec![0; 4]))));
    let (_, action) = flow.step(UploadEvent::Scanned(Some(vec![0xff])));
    assert_eq!(refusal(action), UploadError::ScanFailed(ScanError::Unreadable));

    let (flow, _, _) = stored_flow();
    let (flow, action) = flow.step(UploadEvent::Stored(false));
    assert!(matches!(flow, UploadFlow::Done));
    assert_eq!(refusal(action), UploadError::StoreFailed);
}

#[test]
fn event_out_of_turn_ends_the_upload() {
    let (flow, _) = UploadFlow::begin(Some("u".to_string()));
    let (flow, action) = flow.step(UploadEvent::Stored(true));
    assert!(matches!(flow, UploadFlow::Done));
    let error = refusal(action);
    assert_eq!(error, UploadError::OutOfTurn);
    assert_eq!(error.status(), 500);
    assert_eq!(error.message(), "Upload interrupted");
    let (_, action) = flow.step(UploadEvent::Recorded(true));
    assert_eq!(refusal(action), UploadError::OutOfTurn);

    let (flow, _) = UploadFlow::begin(Some("u".to_string()));
    let (flow, _) = flow.step(UploadEvent::Body(Some(part(vec![0; 4]))));
    let (_, action) = flow.step(UploadEvent::Stored(true));
    assert_eq!(refusal(action), UploadError::OutOfTurn);

    let (flow, _, _) = stored_flow();
    let (_, action) = flow.step(UploadEvent::Recorded(true));
    assert_eq!(refusal(action), UploadError::OutOfTurn);
}
