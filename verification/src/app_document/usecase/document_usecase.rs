use std::path::Path;

use vstd::prelude::*;

use crate::app_chat::usecase::chat_flow::Fresh;
use crate::app_document::domain::document_domain::Document;
use crate::app_document::usecase::types::UploadFileRequest;
use crate::helper::text::utf8_len;
use crate::response::error::ResponseError;

verus! {

// ---------------------------------------------------------------------------------------
// The object key of an uploaded file.
// ---------------------------------------------------------------------------------------

/// Characters that `sanitize_filename` removes on a non-Windows target: the reserved
/// characters `/ ? < > \ : * | "` and the control characters U+0000..U+001F and
/// U+0080..U+009F.
pub open spec fn is_removed_from_filename(c: char) -> bool {
    ||| c == '/'
    ||| c == '?'
    ||| c == '<'
    ||| c == '>'
    ||| c == '\\'
    ||| c == ':'
    ||| c == '*'
    ||| c == '|'
    ||| c == '"'
    ||| (c as u32) <= 0x1f
    ||| 0x80 <= (c as u32) <= 0x9f
}

/// Whether the text is one or more dots and nothing else.
pub open spec fn is_only_dots(s: Seq<char>) -> bool {
    s.len() > 0 && forall|i: int| 0 <= i < s.len() ==> #[trigger] s[i] == '.'
}

/// The longest run of leading characters whose UTF-8 encoding takes at most `limit` bytes.
pub open spec fn utf8_prefix_within(s: Seq<char>, limit: nat) -> Seq<char>
    decreases s.len(),
{
    if s.len() == 0 {
        s
    } else if crate::helper::text::char_utf8_len(s[0]) > limit {
        Seq::empty()
    } else {
        seq![s[0]] + utf8_prefix_within(
            s.drop_first(),
            (limit - crate::helper::text::char_utf8_len(s[0])) as nat,
        )
    }
}

/// What `sanitize_filename::sanitize` makes of a name on a non-Windows target: the removed
/// characters are dropped, a name of dots only becomes empty, and the result is cut to at
/// most 255 bytes at a character boundary.
pub open spec fn sanitized_filename(name: Seq<char>) -> Seq<char> {
    let kept = name.filter(|c: char| !is_removed_from_filename(c));
    let named = if is_only_dots(kept) {
        Seq::<char>::empty()
    } else {
        kept
    };
    utf8_prefix_within(named, 255)
}

/// Makes a file name safe to store. Trusted: calls `sanitize_filename::sanitize` (version
/// 0.5), whose default options on a non-Windows target remove the reserved and control
/// characters, empty a name made of dots only and truncate to 255 bytes; the contract states
/// exactly that.
#[verifier::external_body]
fn sanitize(name: &str) -> (r: String)
    ensures
        r@ == sanitized_filename(name@),
{
    sanitize_filename::sanitize(name)
}

/// The position of the last `.` in the text, if there is one.
pub open spec fn last_dot(s: Seq<char>) -> Option<int>
    decreases s.len(),
{
    if s.len() == 0 {
        None
    } else if s.last() == '.' {
        Some(s.len() - 1)
    } else {
        last_dot(s.drop_last())
    }
}

/// The extension of a file name that has no `/` in it, as `Path::extension` reads it: the
/// text after the last `.`, unless there is no `.` or the only one starts the name.
pub open spec fn file_extension(name: Seq<char>) -> Option<Seq<char>> {
    match last_dot(name) {
        Some(i) => if i == 0 {
            None
        } else {
            Some(name.skip(i + 1))
        },
        None => None,
    }
}

/// Reads the extension of a file name. Trusted: calls `std::path::Path::extension` (and
/// `OsStr::to_str`, which cannot fail on text that came from a `str`). For a name without
/// `/` other than `..`, the documentation of `extension` gives exactly `file_extension`.
#[verifier::external_body]
fn path_extension(name: &str) -> (r: Option<String>)
    requires
        !name@.contains('/'),
        name@ != ".."@,
    ensures
        match file_extension(name@) {
            Some(e) => r matches Some(x) && x@ == e,
            None => r is None,
        },
{
    Path::new(name).extension().and_then(|e| e.to_str()).map(|e| e.to_string())
}

/// The extension the stored file keeps: that of the sanitised name, or nothing.
pub open spec fn stored_extension(original_filename: Seq<char>) -> Seq<char> {
    match file_extension(sanitized_filename(original_filename)) {
        Some(e) => e,
        None => Seq::empty(),
    }
}

/// The key under which an uploaded file is stored: `documents/DATE_UNIQUE` followed by
/// `.EXT` when the sanitised original name has an extension.
pub open spec fn object_key(original_filename: Seq<char>, date: Seq<char>, unique: Seq<char>) -> Seq<char> {
    let ext = stored_extension(original_filename);
    "documents/"@ + date + "_"@ + unique + if ext.len() == 0 {
        Seq::<char>::empty()
    } else {
        "."@ + ext
    }
}

proof fn lemma_filter_drops(s: Seq<char>)
    ensures
        !s.filter(|c: char| !is_removed_from_filename(c)).contains('/'),
    decreases s.len(),
{
    reveal(Seq::filter);
    if s.len() > 0 {
        lemma_filter_drops(s.drop_last());
    }
}

proof fn lemma_prefix_within_is_prefix(s: Seq<char>, limit: nat)
    ensures
        utf8_prefix_within(s, limit).len() <= s.len(),
        forall|i: int| 0 <= i < utf8_prefix_within(s, limit).len() ==> #[trigger] utf8_prefix_within(s, limit)[i] == s[i],
    decreases s.len(),
{
    if s.len() > 0 && crate::helper::text::char_utf8_len(s[0]) <= limit {
        let rest_limit = (limit - crate::helper::text::char_utf8_len(s[0])) as nat;
        lemma_prefix_within_is_prefix(s.drop_first(), rest_limit);
        let p = utf8_prefix_within(s, limit);
        assert forall|i: int| 0 <= i < p.len() implies #[trigger] p[i] == s[i] by {
            if i > 0 {
                assert(p[i] == utf8_prefix_within(s.drop_first(), rest_limit)[i - 1]);
            }
        }
    }
}

/// The cut keeps at least the first `k` characters when `k` characters surely fit.
proof fn lemma_prefix_within_keeps(s: Seq<char>, limit: nat, k: nat)
    requires
        k * 4 <= limit,
    ensures
        utf8_prefix_within(s, limit).len() >= if s.len() < k { s.len() } else { k },
    decreases k,
{
    if k > 0 && s.len() > 0 {
        let w = crate::helper::text::char_utf8_len(s[0]);
        assert(w <= 4);
        lemma_prefix_within_keeps(s.drop_first(), (limit - w) as nat, (k - 1) as nat);
    }
}

/// A sanitised name holds no `/` and is not `..`.
proof fn lemma_sanitized_is_plain_name(name: Seq<char>)
    ensures
        !sanitized_filename(name).contains('/'),
        sanitized_filename(name) != ".."@,
{
    let kept = name.filter(|c: char| !is_removed_from_filename(c));
    let named = if is_only_dots(kept) { Seq::<char>::empty() } else { kept };
    lemma_filter_drops(name);
    lemma_prefix_within_is_prefix(named, 255);
    lemma_prefix_within_keeps(named, 255, 3);
    let r = sanitized_filename(name);
    assert(r == utf8_prefix_within(named, 255));
    if r.contains('/') {
        let i = choose|i: int| 0 <= i < r.len() && r[i] == '/';
        assert(named[i] == '/');
        assert(kept.contains('/'));
    }
    reveal_strlit("..");
    if r == ".."@ {
        assert(r.len() == 2);
        assert(named.len() == 2);
        assert(r[0] == '.' && r[1] == '.');
        assert(named[0] == r[0] && named[1] == r[1]);
        assert(is_only_dots(named));
        assert(named =~= kept);
    }
}

/// The key under which an uploaded file is stored: the sanitised original name's
/// extension is kept, the rest of the name is replaced by the upload date (`YYYYMMDD`) and a
/// unique id, all under `documents/`.
pub fn stored_object_key(original_filename: &str, date: &str, unique: &str) -> (r: String)
    ensures
        r@ == object_key(original_filename@, date@, unique@),
{
    let sanitized = sanitize(original_filename);
    proof {
        lemma_sanitized_is_plain_name(original_filename@);
    }
    let ext = match path_extension(sanitized.as_str()) {
        Some(e) => e,
        None => String::new(),
    };
    let mut key = String::from_str("documents/");
    key.append(date);
    key.append("_");
    key.append(unique);
    if !ext.as_str().is_empty() {
        key.append(".");
        key.append(ext.as_str());
    }
    proof {
        let e = stored_extension(original_filename@);
        assert(ext@ == e);
        if e.len() == 0 {
            assert(key@ =~= object_key(original_filename@, date@, unique@));
        } else {
            assert(key@ =~= object_key(original_filename@, date@, unique@));
        }
    }
    key
}

// ---------------------------------------------------------------------------------------
// Uploading a document: store the file under its key, record the document as "uploaded",
// and hand the record over for processing. The caller performs each action and reports its
// outcome as the next event.
// ---------------------------------------------------------------------------------------

/// Where an upload stands.
#[derive(Debug, PartialEq, Eq)]
pub enum UploadStage {
    AwaitFileStored { user_id: u128, original_filename: String, storage_path: String },
    AwaitDocumentStored,
    AwaitDocumentPublished,
    Finished,
}

/// What the caller reports back.
#[derive(Debug)]
pub enum UploadEvent {
    /// Whether the object store took the file; comes with a fresh id and the time for the
    /// document record.
    FileStored(Result<(), ()>, Fresh),
    /// The stored document record.
    DocumentStored(Result<Document, ()>),
    /// Whether the record could be written out for processing (sending it is best effort).
    DocumentPublished(Result<(), ()>),
}

/// What the caller is asked to do next.
#[derive(Debug, PartialEq, Eq)]
pub enum UploadAction {
    StoreFile { key: String, bytes: Vec<u8> },
    StoreDocument(Document),
    PublishDocument(Document),
    Reply(Result<(), ResponseError>),
}

/// The record of a newly uploaded document.
pub open spec fn is_uploaded_document(
    d: Document,
    user_id: u128,
    original_filename: Seq<char>,
    storage_path: Seq<char>,
    f: Fresh,
) -> bool {
    &&& d.id == f.id
    &&& d.user_id == user_id
    &&& d.original_filename@ == original_filename
    &&& d.storage_path@ == storage_path
    &&& d.status@ == "uploaded"@
    &&& d.created_at == f.now
    &&& d.updated_at == f.now
}

/// How an upload starts: the file goes to the object store under its key, and the stage
/// remembers the owner, the original name and the key.
pub open spec fn upload_started(
    req: UploadFileRequest,
    date: Seq<char>,
    unique: Seq<char>,
    stage: UploadStage,
    action: UploadAction,
) -> bool {
    &&& stage matches UploadStage::AwaitFileStored { user_id, original_filename, storage_path }
        && user_id == req.user_id && original_filename@ == req.original_filename@
        && storage_path@ == object_key(req.original_filename@, date, unique)
    &&& action matches UploadAction::StoreFile { key, bytes } && key@ == object_key(
        req.original_filename@,
        date,
        unique,
    ) && bytes@ == req.bytes@
}

/// One step of an upload: a failure of the object store is an internal error, a failure to
/// record the document a database error, a failure to write out the record an internal
/// error.
pub open spec fn upload_transition(
    stage: UploadStage,
    event: UploadEvent,
    next: UploadStage,
    action: UploadAction,
) -> bool {
    match (stage, event) {
        (
            UploadStage::AwaitFileStored { user_id, original_filename, storage_path },
            UploadEvent::FileStored(Ok(_), f),
        ) => {
            &&& next == UploadStage::AwaitDocumentStored
            &&& action matches UploadAction::StoreDocument(d) && is_uploaded_document(
                d,
                user_id,
                original_filename@,
                storage_path@,
                f,
            )
        },
        (UploadStage::AwaitFileStored { .. }, UploadEvent::FileStored(Err(_), _)) => {
            &&& next is Finished
            &&& action == UploadAction::Reply(Err(ResponseError::InternalServerError))
        },
        (UploadStage::AwaitDocumentStored, UploadEvent::DocumentStored(Ok(d))) => {
            &&& next == UploadStage::AwaitDocumentPublished
            &&& action == UploadAction::PublishDocument(d)
        },
        (UploadStage::AwaitDocumentStored, UploadEvent::DocumentStored(Err(_))) => {
            &&& next is Finished
            &&& action == UploadAction::Reply(Err(ResponseError::DatabaseError))
        },
        (UploadStage::AwaitDocumentPublished, UploadEvent::DocumentPublished(Ok(_))) => {
            &&& next is Finished
            &&& action == UploadAction::Reply(Ok(()))
        },
        (UploadStage::AwaitDocumentPublished, UploadEvent::DocumentPublished(Err(_))) => {
            &&& next is Finished
            &&& action == UploadAction::Reply(Err(ResponseError::InternalServerError))
        },
        _ => {
            &&& next is Finished
            &&& action == UploadAction::Reply(Err(ResponseError::InternalServerError))
        },
    }
}

/// Starts an upload made on `date` (`YYYYMMDD`) with the unique id `unique`.
pub fn upload_start(req: UploadFileRequest, date: &str, unique: &str) -> (r: (UploadStage, UploadAction))
    ensures
        upload_started(req, date@, unique@, r.0, r.1),
{
    let key = stored_object_key(req.original_filename.as_str(), date, unique);
    let storage_path = key.clone();
    (
        UploadStage::AwaitFileStored {
            user_id: req.user_id,
            original_filename: req.original_filename,
            storage_path,
        },
        UploadAction::StoreFile { key, bytes: req.bytes },
    )
}

/// Takes an upload one step further with the outcome of the last action; an event that the
/// stage does not wait for ends the upload with an internal error.
pub fn upload_step(stage: UploadStage, event: UploadEvent) -> (r: (UploadStage, UploadAction))
    ensures
        upload_transition(stage, event, r.0, r.1),
{
    match (stage, event) {
        (
            UploadStage::AwaitFileStored { user_id, original_filename, storage_path },
            UploadEvent::FileStored(Ok(_), f),
        ) => {
            let d = Document {
                id: f.id,
                user_id,
                original_filename,
                storage_path,
                status: String::from_str("uploaded"),
                created_at: f.now,
                updated_at: f.now,
            };
            (UploadStage::AwaitDocumentStored, UploadAction::StoreDocument(d))
        },
        (UploadStage::AwaitFileStored { .. }, UploadEvent::FileStored(Err(_), _)) => (
            UploadStage::Finished,
            UploadAction::Reply(Err(ResponseError::InternalServerError)),
        ),
        (UploadStage::AwaitDocumentStored, UploadEvent::DocumentStored(Ok(d))) => (
            UploadStage::AwaitDocumentPublished,
            UploadAction::PublishDocument(d),
        ),
        (UploadStage::AwaitDocumentStored, UploadEvent::DocumentStored(Err(_))) => (
            UploadStage::Finished,
            UploadAction::Reply(Err(ResponseError::DatabaseError)),
        ),
        (UploadStage::AwaitDocumentPublished, UploadEvent::DocumentPublished(Ok(_))) => (
            UploadStage::Finished,
            UploadAction::Reply(Ok(())),
        ),
        (UploadStage::AwaitDocumentPublished, UploadEvent::DocumentPublished(Err(_))) => (
            UploadStage::Finished,
            UploadAction::Reply(Err(ResponseError::InternalServerError)),
        ),
        _ => {
            (UploadStage::Finished, UploadAction::Reply(Err(ResponseError::InternalServerError)))
        },
    }
}

/// Law: the document record that an upload stores names the key that the file was stored
/// under, keeps the original name and owner, and is marked "uploaded".
pub proof fn law_upload_record_points_at_file(
    req: UploadFileRequest,
    date: Seq<char>,
    unique: Seq<char>,
    stage0: UploadStage,
    action0: UploadAction,
    event: UploadEvent,
    stage1: UploadStage,
    action1: UploadAction,
)
    requires
        upload_started(req, date, unique, stage0, action0),
        upload_transition(stage0, event, stage1, action1),
        action1 is StoreDocument,
    ensures
        action0 matches UploadAction::StoreFile { key, .. } && action1 matches UploadAction::StoreDocument(d)
            && d.storage_path@ == key@ && d.user_id == req.user_id && d.original_filename@
            == req.original_filename@ && d.status@ == "uploaded"@,
{
}

} // verus!
