//! Writing and creating documents.
use vstd::prelude::*;
use vstd::string::*;
use crate::documents::{
    firebase_url, firebase_url_extended, spec_firebase_url, spec_firebase_url_extended,
};
use crate::dto::{keys_of, Document, DocumentView};
use crate::errors::{ErrorKind, FirebaseError, FirebaseErrorView};
use crate::http::{Method, Payload, PayloadView, Request, RequestView};
use crate::values::{
    mapping_failure, pod_to_document, spec_mapping_failure, spec_pod_to_document, MappingError,
    NativeValue, NativeView,
};

verus! {

/// How a document is written. By default the whole document is replaced.
#[derive(Debug, Clone, Copy, PartialEq, Eq, Structural)]
pub struct WriteOptions {
    /// With this set, only the fields that the written document holds are
    /// changed, and the others are left as they are. The write then fails
    /// unless the document exists already.
    pub merge: bool,
}

impl Default for WriteOptions {
    fn default() -> (options: WriteOptions)
        ensures
            !options.merge,
    {
        WriteOptions { merge: false }
    }
}

/// An instant: the seconds since the start of 1970 in UTC, leap seconds not
/// counted, and the nanoseconds into that second. Within a leap second the
/// nanoseconds go on from 1,000,000,000.
#[derive(Debug, Clone, Copy, PartialEq, Eq, Structural)]
pub struct Timestamp {
    pub seconds: i64,
    pub nanos: u32,
}

/// What a successful write reports: the id of the written document, and when
/// it was created and last updated.
#[derive(Debug, Clone, PartialEq, Eq)]
pub struct WriteResult {
    pub create_time: Option<Timestamp>,
    pub update_time: Option<Timestamp>,
    pub document_id: String,
}

/// The part of the address that asks for a merge: the document has to
/// exist, and each of the given fields is named in the update mask.
pub open spec fn spec_merge_parameters(fields: Seq<Seq<char>>) -> Seq<char>
    decreases fields.len(),
{
    if fields.len() == 0 {
        "?currentDocument.exists=true"@
    } else {
        spec_merge_parameters(fields.drop_last()) + "&updateMask.fieldPaths="@ + fields.last()
    }
}

/// The views of a list of texts.
pub open spec fn texts_view(texts: Seq<String>) -> Seq<Seq<char>> {
    Seq::new(texts.len(), |i: int| texts[i]@)
}

/// The fields that a merge of the document writes, and no others: the keys
/// of its fields, in their order. A field that the document does not hold
/// is not named, and so is left as it is.
pub open spec fn spec_update_mask(document: DocumentView) -> Seq<Seq<char>> {
    match document.fields {
        Some(fields) => keys_of(fields),
        None => Seq::empty(),
    }
}

/// Lists the fields that a merge of the document writes.
pub fn update_mask(document: &Document) -> (mask: Vec<String>)
    ensures
        texts_view(mask@) == spec_update_mask(document@),
{
    let mut mask: Vec<String> = Vec::new();
    if let Some(fields) = &document.fields {
        let mut i: usize = 0;
        while i < fields.len()
            invariant
                i <= fields.len(),
                mask.len() == i,
                forall|j: int| 0 <= j < i ==> mask[j]@ == fields[j].0@,
            decreases fields.len() - i,
        {
            mask.push(fields[i].0.clone());
            i += 1;
        }
    }
    assert(texts_view(mask@) =~= spec_update_mask(document@));
    mask
}

/// Writes the part of the address that asks for a merge of the given
/// fields.
pub fn merge_parameters(mask: &Vec<String>) -> (parameters: String)
    ensures
        parameters@ == spec_merge_parameters(texts_view(mask@)),
{
    let ghost fields = texts_view(mask@);
    let mut parameters = String::from_str("?currentDocument.exists=true");
    let mut i: usize = 0;
    assert(fields.subrange(0, 0) =~= Seq::empty());
    while i < mask.len()
        invariant
            i <= mask.len(),
            fields == texts_view(mask@),
            parameters@ == spec_merge_parameters(fields.subrange(0, i as int)),
        decreases mask.len() - i,
    {
        parameters.append("&updateMask.fieldPaths=");
        parameters.append(mask[i].as_str());
        proof {
            let grown = fields.subrange(0, i as int + 1);
            assert(grown.drop_last() =~= fields.subrange(0, i as int));
            assert(grown.last() == mask[i as int]@);
        }
        i += 1;
    }
    assert(fields.subrange(0, i as int) =~= fields);
    parameters
}

/// The view of an optional piece of text.
pub open spec fn spec_id(document_id: Option<&str>) -> Option<Seq<char>> {
    match document_id {
        Some(id) => Some(id@),
        None => None,
    }
}

/// The request that writes the entries of a native map as a document.
///
/// With an id the document at that id is patched; without one a new document
/// is posted to the collection. With `merge` the address also holds the
/// parameters of [`spec_merge_parameters`], for the keys of the entries.
pub open spec fn spec_write(
    project_id: Seq<char>,
    path: Seq<char>,
    document_id: Option<Seq<char>>,
    entries: Seq<(Seq<char>, NativeView)>,
    merge: bool,
) -> RequestView {
    let address = match document_id {
        Some(id) => spec_firebase_url_extended(project_id, path, id),
        None => spec_firebase_url(project_id, path),
    };
    RequestView {
        method: match document_id {
            Some(_) => Method::Patch,
            None => Method::Post,
        },
        url: if merge {
            address + spec_merge_parameters(keys_of(entries))
        } else {
            address
        },
        payload: PayloadView::Document(spec_pod_to_document(entries)),
        resource: match document_id {
            Some(id) => id,
            None => Seq::empty(),
        },
    }
}

/// Prepares the writing of a document to a collection.
///
/// Without a document id the database chooses one. With one, the document at
/// that id is replaced, or created if there is none; with
/// [`WriteOptions::merge`] only the fields that `document` holds are written.
/// `document` has to be a native map: anything else is refused, with the
/// document id as the resource of the error.
pub fn write(
    project_id: &str,
    path: &str,
    document_id: Option<&str>,
    document: &NativeValue,
    options: WriteOptions,
) -> (result: Result<Request, FirebaseError>)
    ensures
        match result {
            Ok(request) => document@ matches NativeView::Object(entries) && request@ == spec_write(
                project_id@,
                path@,
                spec_id(document_id),
                entries,
                options.merge,
            ),
            Err(error) => !(document@ is Object) && error@ == spec_mapping_failure(
                MappingError::ShapeMismatch,
                match document_id {
                    Some(id) => id@,
                    None => Seq::empty(),
                },
            ),
        },
{
    let resource = match document_id {
        Some(id) => String::from_str(id),
        None => String::new(),
    };
    let mut url = match document_id {
        Some(id) => firebase_url_extended(project_id, path, id),
        None => firebase_url(project_id, path),
    };
    let firebase_document = match pod_to_document(document) {
        Ok(converted) => converted,
        Err(error) => {
            return Err(mapping_failure(error, resource.as_str()));
        },
    };
    if options.merge && firebase_document.fields.is_some() {
        let mask = update_mask(&firebase_document);
        let parameters = merge_parameters(&mask);
        url.append(parameters.as_str());
    }
    let method = match document_id {
        Some(_) => Method::Patch,
        None => Method::Post,
    };
    proof {
        let entries = document@->Object_0;
        assert(keys_of(firebase_document@.fields->0) =~= keys_of(entries));
    }
    Ok(Request { method, url, payload: Payload::Document(firebase_document), resource })
}

/// The request that creates a document with the given id.
pub open spec fn spec_create(
    project_id: Seq<char>,
    path: Seq<char>,
    document_id: Seq<char>,
    entries: Seq<(Seq<char>, NativeView)>,
) -> RequestView {
    RequestView {
        method: Method::Post,
        url: spec_firebase_url(project_id, path) + "documentId="@ + document_id,
        payload: PayloadView::Document(spec_pod_to_document(entries)),
        resource: document_id,
    }
}

/// Prepares the creation of a document with the given id in a collection.
/// The database refuses it if there is a document at that id already.
///
/// `document` has to be a native map: anything else is refused, with the
/// document id as the resource of the error.
pub fn create(project_id: &str, path: &str, document_id: &str, document: &NativeValue) -> (result:
    Result<Request, FirebaseError>)
    ensures
        match result {
            Ok(request) => document@ matches NativeView::Object(entries) && request@
                == spec_create(project_id@, path@, document_id@, entries),
            Err(error) => !(document@ is Object) && error@ == spec_mapping_failure(
                MappingError::ShapeMismatch,
                document_id@,
            ),
        },
{
    let mut url = firebase_url(project_id, path);
    url.append("documentId=");
    url.append(document_id);
    match pod_to_document(document) {
        Ok(firebase_document) => Ok(
            Request {
                method: Method::Post,
                url,
                payload: Payload::Document(firebase_document),
                resource: String::from_str(document_id),
            },
        ),
        Err(error) => Err(mapping_failure(error, document_id)),
    }
}

/// The characters that follow the last separator of a name: all of it
/// where it holds no separator.
pub open spec fn spec_last_segment(name: Seq<char>) -> Seq<char>
    decreases name.len(),
{
    if name.len() == 0 || name.last() == '/' {
        Seq::empty()
    } else {
        spec_last_segment(name.drop_last()).push(name.last())
    }
}

/// The final component of a resource name, which is the id of the document
/// it names.
///
/// It is the last of the segments between separators that is neither empty
/// nor a single dot. There is none if there is no such segment, or if that
/// segment is two dots.
pub open spec fn spec_document_id(name: Seq<char>) -> Option<Seq<char>>
    decreases name.len(),
{
    if name.len() == 0 {
        None
    } else {
        let segment = spec_last_segment(name);
        if segment.len() == 0 || segment == seq!['.'] {
            spec_document_id(name.drop_last())
        } else if segment == seq!['.', '.'] {
            None
        } else {
            Some(segment)
        }
    }
}

/// The last segment of a name that ends in a run without separator is the
/// last segment of what stands before the run, followed by the run.
proof fn lemma_last_segment_run(name: Seq<char>, start: int)
    requires
        0 <= start <= name.len(),
        forall|k: int| start <= k < name.len() ==> name[k] != '/',
    ensures
        spec_last_segment(name) == spec_last_segment(name.subrange(0, start)) + name.subrange(
            start,
            name.len() as int,
        ),
    decreases name.len() - start,
{
    if start == name.len() {
        assert(name.subrange(0, start) =~= name);
        assert(name.subrange(start, name.len() as int) =~= Seq::empty());
        assert(spec_last_segment(name) + Seq::<char>::empty() =~= spec_last_segment(name));
    } else {
        let shorter = name.drop_last();
        lemma_last_segment_run(shorter, start);
        assert(shorter.subrange(0, start) =~= name.subrange(0, start));
        assert(shorter.subrange(start, shorter.len() as int).push(name.last()) =~= name.subrange(
            start,
            name.len() as int,
        ));
        assert((spec_last_segment(shorter.subrange(0, start)) + shorter.subrange(
            start,
            shorter.len() as int,
        )).push(name.last()) =~= spec_last_segment(name.subrange(0, start)) + name.subrange(
            start,
            name.len() as int,
        ));
    }
}

/// Reduces a resource name to the id of the document it names.
pub fn document_id_of(name: &str) -> (id: Option<String>)
    ensures
        match id {
            Some(text) => spec_document_id(name@) == Some(text@),
            None => spec_document_id(name@) is None,
        },
{
    let mut end: usize = name.unicode_len();
    assert(name@.subrange(0, end as int) =~= name@);
    while end > 0
        invariant
            end <= name@.len(),
            spec_document_id(name@) == spec_document_id(name@.subrange(0, end as int)),
        decreases end,
    {
        let ghost head = name@.subrange(0, end as int);
        let mut start: usize = end;
        while start > 0 && name.get_char(start - 1) != '/'
            invariant
                start <= end <= name@.len(),
                forall|k: int| start <= k < end ==> name@[k] != '/',
            decreases start,
        {
            start -= 1;
        }
        proof {
            assert forall|k: int| start <= k < head.len() implies head[k] != '/' by {
                assert(head[k] == name@[k]);
            }
            lemma_last_segment_run(head, start as int);
            let front = head.subrange(0, start as int);
            assert(spec_last_segment(front) =~= Seq::empty()) by {
                if start > 0 {
                    assert(front.last() == name@[start as int - 1]);
                }
            }
            assert(spec_last_segment(head) =~= name@.subrange(start as int, end as int)) by {
                assert(head.subrange(start as int, head.len() as int) =~= name@.subrange(
                    start as int,
                    end as int,
                ));
            }
            assert(head.drop_last() =~= name@.subrange(0, end as int - 1));
        }
        let length = end - start;
        if length == 0 {
            end -= 1;
        } else if length == 1 && name.get_char(start) == '.' {
            assert(name@.subrange(start as int, end as int) =~= seq!['.']);
            end -= 1;
        } else if length == 2 && name.get_char(start) == '.' && name.get_char(start + 1) == '.' {
            assert(name@.subrange(start as int, end as int) =~= seq!['.', '.']);
            return None;
        } else {
            let segment = name.substring_char(start, end);
            proof {
                let found = name@.subrange(start as int, end as int);
                assert(found != seq!['.']) by {
                    if found == seq!['.'] {
                        assert(found.len() == 1);
                        assert(found[0] == '.');
                    }
                }
                assert(found != seq!['.', '.']) by {
                    if found == seq!['.', '.'] {
                        assert(found.len() == 2);
                        assert(found[0] == '.');
                        assert(found[1] == '.');
                    }
                }
            }
            return Some(String::from_str(segment));
        }
    }
    assert(name@.subrange(0, 0) =~= Seq::empty());
    None
}

/// The instant that a text in the date and time format of RFC 3339 names:
/// the seconds since the start of 1970 in UTC and the nanoseconds into that
/// second. There is none where the text is not in that format.
pub uninterp spec fn rfc3339_instant(text: Seq<char>) -> Option<(i64, u32)>;

/// The instant with the given seconds and nanoseconds, if there is one.
pub open spec fn spec_timestamp(parts: Option<(i64, u32)>) -> Option<Timestamp> {
    match parts {
        Some((seconds, nanos)) => Some(Timestamp { seconds, nanos }),
        None => None,
    }
}

/// Calls `chrono::DateTime::parse_from_rfc3339` and reads the result in UTC
/// with `with_timezone`, `timestamp` and `timestamp_subsec_nanos`.
///
/// The parse depends on the text alone, so the contract names its result:
/// `rfc3339_instant`. Nothing more is claimed of it.
#[verifier::external_body]
fn parse_rfc3339(text: &str) -> (instant: Option<Timestamp>)
    ensures
        instant == spec_timestamp(rfc3339_instant(text@)),
{
    match chrono::DateTime::parse_from_rfc3339(text) {
        Ok(parsed) => {
            let utc = parsed.with_timezone(&chrono::Utc);
            Some(Timestamp { seconds: utc.timestamp(), nanos: utc.timestamp_subsec_nanos() })
        },
        Err(_) => None,
    }
}

/// What the parts of a written document come to.
///
/// `document_id` is the id that the document's name reduces to, if it does.
/// A time is absent where the document reports none; where it reports one,
/// the time holds the instant that the text names, if it names one.
pub open spec fn spec_assemble_write_result(
    name: Seq<char>,
    document_id: Option<Seq<char>>,
    create_time: Option<Option<Timestamp>>,
    update_time: Option<Option<Timestamp>>,
) -> Result<(Option<Timestamp>, Option<Timestamp>, Seq<char>), FirebaseErrorView> {
    if document_id is None {
        Err(
            FirebaseErrorView {
                kind: ErrorKind::Path,
                message: "Resulting documents 'name' field is not a valid path"@,
                status: None,
                resource: name,
            },
        )
    } else if create_time == Some(None::<Timestamp>) {
        Err(
            FirebaseErrorView {
                kind: ErrorKind::Parse,
                message: "Failed to parse rfc3339 date from 'create_time' field"@,
                status: None,
                resource: name,
            },
        )
    } else if update_time == Some(None::<Timestamp>) {
        Err(
            FirebaseErrorView {
                kind: ErrorKind::Parse,
                message: "Failed to parse rfc3339 date from 'update_time' field"@,
                status: None,
                resource: name,
            },
        )
    } else {
        Ok(
            (
                match create_time {
                    Some(instant) => instant,
                    None => None,
                },
                match update_time {
                    Some(instant) => instant,
                    None => None,
                },
                document_id->0,
            ),
        )
    }
}

impl WriteResult {
    /// The content of the result: its two times and its document id.
    pub open spec fn parts(self) -> (Option<Timestamp>, Option<Timestamp>, Seq<char>) {
        (self.create_time, self.update_time, self.document_id@)
    }
}

/// Puts the result of a write together from the parts of the written
/// document, or says which part is at fault: the name first, then the time
/// of creation, then the time of the last update.
pub fn assemble_write_result(
    name: &str,
    document_id: Option<String>,
    create_time: Option<Option<Timestamp>>,
    update_time: Option<Option<Timestamp>>,
) -> (result: Result<WriteResult, FirebaseError>)
    ensures
        match result {
            Ok(written) => spec_assemble_write_result(
                name@,
                crate::dto::text_view(document_id),
                create_time,
                update_time,
            ) == Ok::<(Option<Timestamp>, Option<Timestamp>, Seq<char>), FirebaseErrorView>(
                written.parts(),
            ),
            Err(error) => spec_assemble_write_result(
                name@,
                crate::dto::text_view(document_id),
                create_time,
                update_time,
            ) == Err::<(Option<Timestamp>, Option<Timestamp>, Seq<char>), FirebaseErrorView>(
                error@,
            ),
        },
{
    let document_id = match document_id {
        Some(id) => id,
        None => {
            return Err(
                FirebaseError::new(
                    ErrorKind::Path,
                    "Resulting documents 'name' field is not a valid path",
                    name,
                ),
            );
        },
    };
    let create_time = match create_time {
        Some(None) => {
            return Err(
                FirebaseError::new(
                    ErrorKind::Parse,
                    "Failed to parse rfc3339 date from 'create_time' field",
                    name,
                ),
            );
        },
        Some(Some(instant)) => Some(instant),
        None => None,
    };
    let update_time = match update_time {
        Some(None) => {
            return Err(
                FirebaseError::new(
                    ErrorKind::Parse,
                    "Failed to parse rfc3339 date from 'update_time' field",
                    name,
                ),
            );
        },
        Some(Some(instant)) => Some(instant),
        None => None,
    };
    Ok(WriteResult { create_time, update_time, document_id })
}

/// What a time of a document comes to: nothing where the document reports
/// none, else the instant that the text names, if it names one.
pub open spec fn spec_document_time(text: Option<Seq<char>>) -> Option<Option<Timestamp>> {
    match text {
        Some(t) => Some(spec_timestamp(rfc3339_instant(t))),
        None => None,
    }
}

/// Reads the result of a write off the document that the database answered
/// with: the id is the final component of the document's name, and the times
/// are read in the date and time format of RFC 3339.
pub fn write_result(document: &Document) -> (result: Result<WriteResult, FirebaseError>)
    ensures
        match result {
            Ok(written) => spec_assemble_write_result(
                document@.name,
                spec_document_id(document@.name),
                spec_document_time(document@.create_time),
                spec_document_time(document@.update_time),
            ) == Ok::<(Option<Timestamp>, Option<Timestamp>, Seq<char>), FirebaseErrorView>(
                written.parts(),
            ),
            Err(error) => spec_assemble_write_result(
                document@.name,
                spec_document_id(document@.name),
                spec_document_time(document@.create_time),
                spec_document_time(document@.update_time),
            ) == Err::<(Option<Timestamp>, Option<Timestamp>, Seq<char>), FirebaseErrorView>(
                error@,
            ),
        },
{
    let document_id = document_id_of(document.name.as_str());
    let create_time = match &document.create_time {
        Some(text) => Some(parse_rfc3339(text.as_str())),
        None => None,
    };
    let update_time = match &document.update_time {
        Some(text) => Some(parse_rfc3339(text.as_str())),
        None => None,
    };
    assemble_write_result(document.name.as_str(), document_id, create_time, update_time)
}

} // verus!
