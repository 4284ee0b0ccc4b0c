//! The parts of the object operations that decide: which key a local file is
//! stored under, which local file a key is written to, and which audit event
//! an operation leaves. The transfers themselves happen between the planning
//! and the recording step, outside this crate.
use vstd::prelude::*;
use vstd::string::*;

use crate::error::ClientError;
use crate::event::{event_of, kind_name, Event, EventKind, EventModel};
use crate::paths::{base_name, base_name_of, join, join_path, opt_text};
use crate::store::{after_event, ConfigStore, StoreModel};

verus! {

/// The content type that `mime_guess` assigns to a path.
pub uninterp spec fn guessed_mime(path: Seq<char>) -> Seq<char>;

/// Relies on `mime_guess::from_path` and `MimeGuess::first_or_octet_stream`:
/// the type is guessed from the path's extension alone, and a path without a
/// `.` has no extension and gets `application/octet-stream`.
#[verifier::external_body]
fn guess_content_type(path: &str) -> (r: String)
    ensures
        r@ == guessed_mime(path@),
        !path@.contains('.') ==> r@ == "application/octet-stream"@,
{
    mime_guess::from_path(path).first_or_octet_stream().to_string()
}

/// The key a local file at `path` is stored under in remote directory `dir`.
pub open spec fn upload_key(path: Seq<char>, dir: Seq<char>) -> Seq<char> {
    join_path(dir, base_name_of(path)->Some_0)
}

/// The local file that object `key` is written to in directory `dir`.
pub open spec fn download_path(key: Seq<char>, dir: Seq<char>) -> Seq<char> {
    join_path(dir, base_name_of(key)->Some_0)
}

/// What an upload sends: where, under which key and with which content type.
pub struct UploadPlan {
    pub key_id: String,
    pub bucket_name: String,
    pub key: String,
    pub content_type: String,
}

/// What a download fetches and where it writes it.
pub struct DownloadPlan {
    pub key_id: String,
    pub bucket_name: String,
    pub key: String,
    pub local_path: String,
}

/// The object a deletion removes.
pub struct DeletePlan {
    pub key_id: String,
    pub bucket_name: String,
    pub key: String,
}

/// The content type a local file is uploaded with.
pub fn content_type_for(path: &str) -> (r: String)
    ensures
        r@ == guessed_mime(path@),
        !path@.contains('.') ==> r@ == "application/octet-stream"@,
{
    guess_content_type(path)
}

/// Plans the upload of the local file `path`, which exists when
/// `path_exists`, into remote directory `dir`: the key is `dir` joined with
/// the file's name, never its whole local path.
pub fn plan_upload(store: &ConfigStore, path: &str, dir: &str, path_exists: bool) -> (r: Result<
    UploadPlan,
    ClientError,
>)
    ensures
        store@.account is None ==> r == Err::<UploadPlan, ClientError>(ClientError::NotLoggedIn),
        store@.account is Some && (!path_exists || base_name_of(path@) is None) ==> r == Err::<
            UploadPlan,
            ClientError,
        >(ClientError::PathNotFound),
        store@.account is Some && path_exists && base_name_of(path@) is Some ==> r is Ok,
        r matches Ok(p) ==> {
            &&& p.key_id@ == store@.account->Some_0.key_id
            &&& p.bucket_name@ == store@.account->Some_0.bucket_name
            &&& p.key@ == upload_key(path@, dir@)
            &&& p.content_type@ == guessed_mime(path@)
        },
{
    let account = match store.get_account_cfg() {
        Ok(a) => a,
        Err(e) => {
            return Err(e);
        },
    };
    if !path_exists {
        return Err(ClientError::PathNotFound);
    }
    let name = match base_name(path) {
        Some(n) => n,
        None => {
            return Err(ClientError::PathNotFound);
        },
    };
    Ok(
        UploadPlan {
            key_id: account.key_id.clone(),
            bucket_name: account.bucket_name.clone(),
            key: join(dir, name.as_str()),
            content_type: content_type_for(path),
        },
    )
}

/// Plans the download of object `key` into the local directory `dir`, which
/// is an existing directory when `dir_is_dir`: the file is `dir` joined with
/// the key's file name, never the whole key.
pub fn plan_download(store: &ConfigStore, key: &str, dir: &str, dir_is_dir: bool) -> (r: Result<
    DownloadPlan,
    ClientError,
>)
    ensures
        store@.account is None ==> r == Err::<DownloadPlan, ClientError>(
            ClientError::NotLoggedIn,
        ),
        store@.account is Some && !dir_is_dir ==> r == Err::<DownloadPlan, ClientError>(
            ClientError::DirectoryNotFound,
        ),
        store@.account is Some && dir_is_dir && base_name_of(key@) is None ==> r == Err::<
            DownloadPlan,
            ClientError,
        >(ClientError::PathNotFound),
        store@.account is Some && dir_is_dir && base_name_of(key@) is Some ==> r is Ok,
        r matches Ok(p) ==> {
            &&& p.key_id@ == store@.account->Some_0.key_id
            &&& p.bucket_name@ == store@.account->Some_0.bucket_name
            &&& p.key@ == key@
            &&& p.local_path@ == download_path(key@, dir@)
        },
{
    let account = match store.get_account_cfg() {
        Ok(a) => a,
        Err(e) => {
            return Err(e);
        },
    };
    if !dir_is_dir {
        return Err(ClientError::DirectoryNotFound);
    }
    let name = match base_name(key) {
        Some(n) => n,
        None => {
            return Err(ClientError::PathNotFound);
        },
    };
    Ok(
        DownloadPlan {
            key_id: account.key_id.clone(),
            bucket_name: account.bucket_name.clone(),
            key: String::from_str(key),
            local_path: join(dir, name.as_str()),
        },
    )
}

/// Plans the deletion of object `key`.
pub fn plan_delete(store: &ConfigStore, key: &str) -> (r: Result<DeletePlan, ClientError>)
    ensures
        store@.account is None ==> r == Err::<DeletePlan, ClientError>(ClientError::NotLoggedIn),
        store@.account is Some ==> r is Ok,
        r matches Ok(p) ==> {
            &&& p.key_id@ == store@.account->Some_0.key_id
            &&& p.bucket_name@ == store@.account->Some_0.bucket_name
            &&& p.key@ == key@
        },
{
    let account = match store.get_account_cfg() {
        Ok(a) => a,
        Err(e) => {
            return Err(e);
        },
    };
    Ok(
        DeletePlan {
            key_id: account.key_id.clone(),
            bucket_name: account.bucket_name.clone(),
            key: String::from_str(key),
        },
    )
}

/// Records a finished upload, with the size the store reports for the new
/// object.
pub fn record_upload(store: &mut ConfigStore, plan: &UploadPlan, size: u64)
    ensures
        final(store)@ == after_event(
            old(store)@,
            event_of(
                EventKind::Upload,
                plan.key_id@,
                plan.bucket_name@,
                plan.key@,
                plan.content_type@,
                size as nat,
            ),
        ),
{
    let e = Event::new(
        EventKind::Upload,
        plan.key_id.as_str(),
        plan.bucket_name.as_str(),
        plan.key.as_str(),
        plan.content_type.as_str(),
        size,
    );
    store.add_event(e);
}

/// Records a finished download, with the content type and size read from the
/// response before its body was written out.
pub fn record_download(store: &mut ConfigStore, plan: &DownloadPlan, content_type: &str, size: u64)
    ensures
        final(store)@ == after_event(
            old(store)@,
            event_of(
                EventKind::Download,
                plan.key_id@,
                plan.bucket_name@,
                plan.key@,
                content_type@,
                size as nat,
            ),
        ),
{
    let e = Event::new(
        EventKind::Download,
        plan.key_id.as_str(),
        plan.bucket_name.as_str(),
        plan.key.as_str(),
        content_type,
        size,
    );
    store.add_event(e);
}

/// Records a finished deletion, with the content type and size the object
/// had before it was deleted.
pub fn record_delete(store: &mut ConfigStore, plan: &DeletePlan, content_type: &str, size: u64)
    ensures
        final(store)@ == after_event(
            old(store)@,
            event_of(
                EventKind::Delete,
                plan.key_id@,
                plan.bucket_name@,
                plan.key@,
                content_type@,
                size as nat,
            ),
        ),
{
    let e = Event::new(
        EventKind::Delete,
        plan.key_id.as_str(),
        plan.bucket_name.as_str(),
        plan.key.as_str(),
        content_type,
        size,
    );
    store.add_event(e);
}

/// Recording an operation appends exactly one event, of the operation's kind
/// and naming the object it touched; the account and the earlier events stay
/// as they were. The recording functions name the key of their plan, which for
/// an upload is the key derived from the local file's name.
pub proof fn lemma_one_event_per_operation(
    s: StoreModel,
    k: EventKind,
    key_id: Seq<char>,
    bucket_name: Seq<char>,
    file_name: Seq<char>,
    file_type: Seq<char>,
    size: nat,
)
    ensures
        ({
            let t = after_event(s, event_of(k, key_id, bucket_name, file_name, file_type, size));
            &&& t.account == s.account
            &&& t.events.len() == s.events.len() + 1
            &&& t.events.subrange(0, s.events.len() as int) == s.events
            &&& t.events.last().event_type == kind_name(k)
            &&& t.events.last().file_name == file_name
        }),
{
    let t = after_event(s, event_of(k, key_id, bucket_name, file_name, file_type, size));
    assert(t.events.subrange(0, s.events.len() as int) =~= s.events);
}

/// The keys among listed objects, in the order listed; objects without a
/// key are passed over.
pub open spec fn present_keys(objects: Seq<Option<String>>) -> Seq<Seq<char>>
    decreases objects.len(),
{
    if objects.len() == 0 {
        Seq::empty()
    } else {
        let rest = present_keys(objects.drop_last());
        match opt_text(objects.last()) {
            Some(k) => rest.push(k),
            None => rest,
        }
    }
}

pub open spec fn texts(v: Seq<String>) -> Seq<Seq<char>> {
    v.map_values(|s: String| s@)
}

/// The keys of a bucket listing, in the order the store listed them.
pub fn list_keys(objects: &Vec<Option<String>>) -> (r: Vec<String>)
    ensures
        texts(r@) == present_keys(objects@),
{
    let mut keys: Vec<String> = Vec::new();
    let mut i: usize = 0;
    while i < objects.len()
        invariant
            i <= objects@.len(),
            texts(keys@) == present_keys(objects@.subrange(0, i as int)),
        decreases objects@.len() - i,
    {
        let ghost before = keys@;
        assert(objects@.subrange(0, i + 1).drop_last() =~= objects@.subrange(0, i as int));
        match &objects[i] {
            Some(k) => {
                keys.push(k.clone());
                assert(texts(keys@) =~= texts(before).push(k@));
            },
            None => {},
        }
        i = i + 1;
    }
    assert(objects@.subrange(0, objects@.len() as int) =~= objects@);
    keys
}

} // verus!
