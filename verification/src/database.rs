//! Metadata records: what is kept of a file and of a session, and when a
//! file's record has outlived its welcome.

use crate::clock::current_millis;
use crate::text::copy_text;
use crate::text::optional_text;
use mongodb::bson::DateTime;
use rand::distr::Alphanumeric;
use rand::Rng;
use vstd::prelude::*;

verus! {

/// The number of characters in a file's signing key.
pub const SIGNING_KEY_LEN: usize = 32;

/// Milliseconds in an hour.
pub const MILLIS_PER_HOUR: i64 = 3_600_000;

/// What is kept of a stored file. `id` is also the key of the object in the
/// object store. Times are milliseconds since the Unix epoch.
#[derive(Debug)]
pub struct FileDocument {
    pub id: String,
    pub name: Option<String>,
    pub content_type: String,
    pub size: u64,
    pub uploaded_at: i64,
    pub user_id: String,
    pub signing_key: String,
    /// Set by other applications once the file is in use. A file that stays
    /// unlinked for too long is deleted.
    pub linked: bool,
    pub linked_at: Option<i64>,
    /// A hidden file is kept but not served.
    pub hidden: bool,
}

/// A file's record as a mathematical value.
pub ghost struct FileRecord {
    pub id: Seq<char>,
    pub name: Option<Seq<char>>,
    pub content_type: Seq<char>,
    pub size: u64,
    pub uploaded_at: i64,
    pub user_id: Seq<char>,
    pub signing_key: Seq<char>,
    pub linked: bool,
    pub linked_at: Option<i64>,
    pub hidden: bool,
}

impl View for FileDocument {
    type V = FileRecord;

    open spec fn view(&self) -> FileRecord {
        FileRecord {
            id: self.id@,
            name: optional_text(self.name),
            content_type: self.content_type@,
            size: self.size,
            uploaded_at: self.uploaded_at,
            user_id: self.user_id@,
            signing_key: self.signing_key@,
            linked: self.linked,
            linked_at: self.linked_at,
            hidden: self.hidden,
        }
    }
}

/// A letter or digit of ASCII.
pub open spec fn is_alphanumeric(c: char) -> bool {
    ||| '0' <= c <= '9'
    ||| 'A' <= c <= 'Z'
    ||| 'a' <= c <= 'z'
}

/// A signing key as this library makes them: 32 letters and digits.
pub open spec fn is_signing_key(key: Seq<char>) -> bool {
    &&& key.len() == SIGNING_KEY_LEN
    &&& forall|i: int| 0 <= i < key.len() ==> is_alphanumeric(#[trigger] key[i])
}

/// An instant is stale at `now_millis` when more than `timeout_hours` have
/// passed since.
pub open spec fn is_stale(at: i64, now_millis: u64, timeout_hours: i64) -> bool {
    now_millis - at > timeout_hours * MILLIS_PER_HOUR
}

impl FileRecord {
    /// A record is due for deletion when it is unlinked and either its upload
    /// or, where it has one, its last linking is stale.
    pub open spec fn expired(self, now_millis: u64, timeout_hours: i64) -> bool {
        &&& !self.linked
        &&& (is_stale(self.uploaded_at, now_millis, timeout_hours) || (self.linked_at is Some
            && is_stale(self.linked_at->0, now_millis, timeout_hours)))
    }

    /// The same, told by the cutoff before which an instant is stale.
    pub open spec fn older_than(self, cutoff: int) -> bool {
        &&& !self.linked
        &&& (self.uploaded_at < cutoff || (self.linked_at is Some && self.linked_at->0 < cutoff))
    }
}

/// The instant before which everything is stale.
pub open spec fn cutoff_millis(now_millis: u64, timeout_hours: i64) -> int {
    now_millis - timeout_hours * MILLIS_PER_HOUR
}

/// `rand::rng` and `Rng::sample` with the `Alphanumeric` distribution: one
/// byte drawn from `A-Z`, `a-z` and `0-9`. Which of them is left to chance.
#[verifier::external_body]
fn sample_alphanumeric() -> (byte: u8)
    ensures
        is_alphanumeric(byte as char),
{
    rand::rng().sample(Alphanumeric)
}

/// `bson::DateTime::now` and `timestamp_millis`: the system clock in
/// milliseconds since the Unix epoch, negative before it. Nothing is claimed
/// of the reading.
#[verifier::external_body]
fn now_millis() -> (millis: i64) {
    DateTime::now().timestamp_millis()
}

/// Draws a fresh signing key.
pub fn generate_signing_key() -> (key: String)
    ensures
        is_signing_key(key@),
{
    let mut key = String::new();
    let mut drawn: usize = 0;
    while drawn < SIGNING_KEY_LEN
        invariant
            drawn <= SIGNING_KEY_LEN,
            key@.len() == drawn,
            forall|i: int| 0 <= i < key@.len() ==> is_alphanumeric(#[trigger] key@[i]),
        decreases SIGNING_KEY_LEN - drawn,
    {
        let byte = sample_alphanumeric();
        key.push(byte as char);
        drawn = drawn + 1;
    }
    key
}

impl Clone for FileDocument {
    fn clone(&self) -> (copy: Self)
        ensures
            copy@ == self@,
    {
        FileDocument {
            id: self.id.clone(),
            name: copy_text(&self.name),
            content_type: self.content_type.clone(),
            size: self.size,
            uploaded_at: self.uploaded_at,
            user_id: self.user_id.clone(),
            signing_key: self.signing_key.clone(),
            linked: self.linked,
            linked_at: self.linked_at,
            hidden: self.hidden,
        }
    }
}

impl FileDocument {
    /// The record of a file uploaded at `uploaded_at` and signed with
    /// `signing_key`: unlinked, never linked, not hidden.
    pub fn new_at(
        id: String,
        name: Option<String>,
        content_type: String,
        size: u64,
        user_id: String,
        signing_key: String,
        uploaded_at: i64,
    ) -> (file: Self)
        ensures
            file@ == (FileRecord {
                id: id@,
                name: optional_text(name),
                content_type: content_type@,
                size,
                uploaded_at,
                user_id: user_id@,
                signing_key: signing_key@,
                linked: false,
                linked_at: None,
                hidden: false,
            }),
    {
        FileDocument {
            id,
            name,
            content_type,
            size,
            uploaded_at,
            user_id,
            signing_key,
            linked: false,
            linked_at: None,
            hidden: false,
        }
    }

    /// The record of a file uploaded just now, with a signing key of its own.
    pub fn new(
        id: String,
        name: Option<String>,
        content_type: String,
        size: u64,
        user_id: String,
    ) -> (file: Self)
        ensures
            file@ == (FileRecord {
                id: id@,
                name: optional_text(name),
                content_type: content_type@,
                size,
                uploaded_at: file.uploaded_at,
                user_id: user_id@,
                signing_key: file.signing_key@,
                linked: false,
                linked_at: None,
                hidden: false,
            }),
            is_signing_key(file.signing_key@),
    {
        let signing_key = generate_signing_key();
        let uploaded_at = now_millis();
        FileDocument::new_at(id, name, content_type, size, user_id, signing_key, uploaded_at)
    }

    /// Whether the file is due for deletion at `now_millis`, with a timeout
    /// of `timeout_hours`.
    pub fn is_expired(&self, now_millis: u64, timeout_hours: i64) -> (due: bool)
        ensures
            due == self@.expired(now_millis, timeout_hours),
    {
        if self.linked {
            return false;
        }
        if stale(self.uploaded_at, now_millis, timeout_hours) {
            return true;
        }
        match self.linked_at {
            Some(at) => stale(at, now_millis, timeout_hours),
            None => false,
        }
    }
}

/// Whether more than `timeout_hours` have passed between `at` and
/// `now_millis`.
pub fn stale(at: i64, now_millis: u64, timeout_hours: i64) -> (old: bool)
    ensures
        old == is_stale(at, now_millis, timeout_hours),
{
    let age: i128 = now_millis as i128 - at as i128;
    assert(MILLIS_PER_HOUR == 3_600_000);
    let timeout: i128 = timeout_hours as i128 * 3_600_000;
    age > timeout
}

/// What is kept of a session: the token that a client presents, and the user
/// that it stands for. A session counts for as long as the store finds it by
/// its token; `expires_at` is carried along and not looked at here.
#[derive(Debug)]
pub struct Session {
    pub id: String,
    pub token: String,
    pub friendly_name: String,
    pub user_id: String,
    pub expires_at: u64,
}

impl Clone for Session {
    fn clone(&self) -> (copy: Self)
        ensures
            copy.id@ == self.id@,
            copy.token@ == self.token@,
            copy.friendly_name@ == self.friendly_name@,
            copy.user_id@ == self.user_id@,
            copy.expires_at == self.expires_at,
    {
        Session {
            id: self.id.clone(),
            token: self.token.clone(),
            friendly_name: self.friendly_name.clone(),
            user_id: self.user_id.clone(),
            expires_at: self.expires_at,
        }
    }
}

/// The views of a run of records.
pub open spec fn records(files: Seq<FileDocument>) -> Seq<FileRecord> {
    files.map_values(|file: FileDocument| file@)
}

/// Of what a scan of the store brought back, the records that are due for
/// deletion, in the order of the scan. An entry that could not be read is
/// passed over.
pub open spec fn expired_among(
    candidates: Seq<Option<FileDocument>>,
    now_millis: u64,
    timeout_hours: i64,
) -> Seq<FileRecord>
    decreases candidates.len(),
{
    if candidates.len() == 0 {
        Seq::empty()
    } else {
        let earlier = expired_among(candidates.drop_last(), now_millis, timeout_hours);
        match candidates.last() {
            Some(file) => if file@.expired(now_millis, timeout_hours) {
                earlier.push(file@)
            } else {
                earlier
            },
            None => earlier,
        }
    }
}

/// The rules of the file store: which records are due for deletion.
#[derive(Clone, Copy, Debug)]
pub struct FileRepository {
    /// How long a file may stay unlinked, in hours.
    pub timeout_hours: i64,
}

impl FileRepository {
    /// The rules for a timeout of `timeout_hours`.
    pub fn new(timeout_hours: i64) -> (repository: Self)
        ensures
            repository.timeout_hours == timeout_hours,
    {
        FileRepository { timeout_hours }
    }

    /// The instant before which an upload or a linking is stale at
    /// `now_millis`, for a query to the store; `None` where no time stamp
    /// of 64 bits can hold it.
    pub fn expiry_cutoff(&self, now_millis: u64) -> (cutoff: Option<i64>)
        ensures
            match cutoff {
                Some(instant) => instant == cutoff_millis(now_millis, self.timeout_hours),
                None => !(i64::MIN <= cutoff_millis(now_millis, self.timeout_hours) <= i64::MAX),
            },
    {
        assert(MILLIS_PER_HOUR == 3_600_000);
        let exact: i128 = now_millis as i128 - self.timeout_hours as i128 * 3_600_000;
        if exact < i64::MIN as i128 || exact > i64::MAX as i128 {
            None
        } else {
            Some(exact as i64)
        }
    }

    /// Of what a scan of the store brought back, keeps the records that are
    /// due for deletion at `now_millis`, in the order of the scan. An entry
    /// that could not be read (`None`) is passed over.
    pub fn find_expired_files_at(
        &self,
        candidates: &Vec<Option<FileDocument>>,
        now_millis: u64,
    ) -> (expired: Vec<FileDocument>)
        ensures
            records(expired@) == expired_among(candidates@, now_millis, self.timeout_hours),
    {
        let mut expired: Vec<FileDocument> = Vec::new();
        let mut i: usize = 0;
        assert(candidates@.take(0) =~= Seq::empty());
        assert(records(expired@) =~= Seq::empty());
        while i < candidates.len()
            invariant
                i <= candidates@.len(),
                records(expired@) == expired_among(
                    candidates@.take(i as int),
                    now_millis,
                    self.timeout_hours,
                ),
            decreases candidates@.len() - i,
        {
            let ghost before = records(expired@);
            assert(candidates@.take(i + 1).drop_last() =~= candidates@.take(i as int));
            assert(candidates@.take(i + 1).last() == candidates@[i as int]);
            match &candidates[i] {
                Some(file) => {
                    if file.is_expired(now_millis, self.timeout_hours) {
                        let copy = file.clone();
                        expired.push(copy);
                        assert(records(expired@) =~= before.push(copy@));
                    }
                },
                None => {},
            }
            i = i + 1;
        }
        assert(candidates@.take(i as int) =~= candidates@);
        expired
    }

    /// The same at the present time. A clock set before the Unix epoch reads
    /// as the epoch itself.
    pub fn find_expired_files(&self, candidates: &Vec<Option<FileDocument>>) -> (expired: Vec<
        FileDocument,
    >)
        ensures
            exists|now_millis: u64|
                records(expired@) == #[trigger] expired_among(
                    candidates@,
                    now_millis,
                    self.timeout_hours,
                ),
    {
        let now = crate::clock::or_epoch(current_millis());
        self.find_expired_files_at(candidates, now)
    }
}

/// An unlinked record whose upload is stale and that was never linked is due
/// for deletion.
pub proof fn law_stale_unlinked_file_expires(file: FileRecord, now_millis: u64, timeout_hours: i64)
    requires
        !file.linked,
        file.linked_at is None,
        is_stale(file.uploaded_at, now_millis, timeout_hours),
    ensures
        file.expired(now_millis, timeout_hours),
{
}

/// A linked record is never due for deletion, however old it is.
pub proof fn law_linked_file_stays(file: FileRecord, now_millis: u64, timeout_hours: i64)
    requires
        file.linked,
    ensures
        !file.expired(now_millis, timeout_hours),
{
}

/// A record is due for deletion exactly when it is unlinked and its upload
/// or its linking lies before the cutoff.
pub proof fn law_expired_is_older_than_cutoff(
    file: FileRecord,
    now_millis: u64,
    timeout_hours: i64,
)
    ensures
        file.expired(now_millis, timeout_hours) == file.older_than(
            cutoff_millis(now_millis, timeout_hours),
        ),
{
}

/// Every record that a scan keeps was read from the store and is due for
/// deletion.
pub proof fn law_scan_keeps_only_expired(
    candidates: Seq<Option<FileDocument>>,
    now_millis: u64,
    timeout_hours: i64,
    k: int,
)
    requires
        0 <= k < expired_among(candidates, now_millis, timeout_hours).len(),
    ensures
        exists|i: int|
            0 <= i < candidates.len() && (#[trigger] candidates[i]) is Some && candidates[i]->0@
                == expired_among(candidates, now_millis, timeout_hours)[k]
                && candidates[i]->0@.expired(now_millis, timeout_hours),
    decreases candidates.len(),
{
    let earlier = expired_among(candidates.drop_last(), now_millis, timeout_hours);
    let last = candidates.len() - 1;
    if k < earlier.len() {
        law_scan_keeps_only_expired(candidates.drop_last(), now_millis, timeout_hours, k);
        let i = choose|i: int|
            0 <= i < candidates.drop_last().len() && (#[trigger] candidates.drop_last()[i]) is Some
                && candidates.drop_last()[i]->0@ == earlier[k]
                && candidates.drop_last()[i]->0@.expired(now_millis, timeout_hours);
        assert(candidates[i] == candidates.drop_last()[i]);
    } else {
        assert(candidates[last] is Some);
    }
}

/// Every record that was read from the store and is due for deletion is
/// kept by the scan.
pub proof fn law_scan_keeps_every_expired(
    candidates: Seq<Option<FileDocument>>,
    now_millis: u64,
    timeout_hours: i64,
    i: int,
)
    requires
        0 <= i < candidates.len(),
        candidates[i] is Some,
        candidates[i]->0@.expired(now_millis, timeout_hours),
    ensures
        expired_among(candidates, now_millis, timeout_hours).contains(candidates[i]->0@),
    decreases candidates.len(),
{
    let earlier = expired_among(candidates.drop_last(), now_millis, timeout_hours);
    let kept = expired_among(candidates, now_millis, timeout_hours);
    if i == candidates.len() - 1 {
        assert(kept == earlier.push(candidates[i]->0@));
        assert(kept[earlier.len() as int] == candidates[i]->0@);
    } else {
        law_scan_keeps_every_expired(candidates.drop_last(), now_millis, timeout_hours, i);
        assert(candidates.drop_last()[i] == candidates[i]);
        let k = choose|k: int| 0 <= k < earlier.len() && earlier[k] == candidates[i]->0@;
        assert(kept[k] == earlier[k]);
    }
}

} // verus!
