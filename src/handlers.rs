use vstd::prelude::*;

use crate::object_id::QuestionId;
use crate::question::Question;
use crate::object_id::{id_bytes_of, is_id_text};
use crate::repository::{
    get_outcome, lemma_delete_missing, lemma_malformed_id, match_outcome, Documents, RepoError,
};

verus! {

/// What an HTTP reply carries.
#[derive(Debug)]
pub enum ReplyBody {
    /// One question, as a document.
    Document(Question),
    /// A list of questions.
    Documents(Vec<Question>),
    /// A line of text.
    Message(String),
}

/// A status code and a body.
#[derive(Debug)]
pub struct HttpReply {
    pub status: u16,
    pub body: ReplyBody,
}

/// What the update route does once the collection has answered.
#[derive(Debug)]
pub enum UpdateStep {
    /// One question matched: fetch it again and reply with it.
    Refetch,
    /// Reply at once.
    Reply(HttpReply),
}

/// The status for a failed repository operation.
pub open spec fn error_status(e: RepoError) -> u16 {
    match e {
        RepoError::InvalidId => 400,
        RepoError::NotFound => 404,
        RepoError::StoreError(_) => 500,
    }
}

/// The text for a failed repository operation.
pub open spec fn error_text(e: RepoError) -> Seq<char> {
    match e {
        RepoError::InvalidId => "invalid ID"@,
        RepoError::NotFound => "No question found with specified ID"@,
        RepoError::StoreError(m) => m@,
    }
}

/// Whether `r` is a reply with status `status` and the text `text`.
pub open spec fn is_message(r: HttpReply, status: u16, text: Seq<char>) -> bool {
    &&& r.status == status
    &&& r.body is Message
    &&& r.body->Message_0@ == text
}

/// The status that the update route ends with, given the number of matched
/// questions and the status of the fetch that follows a match.
pub open spec fn update_status(matched: Result<nat, RepoError>, refetch_status: u16) -> u16 {
    match matched {
        Ok(n) => if n == 1 {
            refetch_status
        } else {
            404
        },
        Err(e) => error_status(e),
    }
}

/// The status that the delete route ends with, given the number of deleted
/// questions.
pub open spec fn delete_status(deleted: Result<nat, RepoError>) -> u16 {
    match deleted {
        Ok(n) => if n == 1 {
            200
        } else {
            404
        },
        Err(e) => error_status(e),
    }
}

/// The status of a route that replies with a looked-up question.
pub open spec fn found_status<T>(r: Result<T, RepoError>) -> u16 {
    match r {
        Ok(_) => 200,
        Err(e) => error_status(e),
    }
}

/// The count a store reported, as a value.
pub open spec fn count_view(r: Result<u64, RepoError>) -> Result<nat, RepoError> {
    match r {
        Ok(n) => Ok(n as nat),
        Err(e) => Err(e),
    }
}

/// The reply for a failed repository operation.
pub fn reply_error(e: RepoError) -> (r: HttpReply)
    ensures
        is_message(r, error_status(e), error_text(e)),
{
    let (status, text) = match e {
        RepoError::InvalidId => (400u16, "invalid ID".to_owned()),
        RepoError::NotFound => (404u16, "No question found with specified ID".to_owned()),
        RepoError::StoreError(m) => (500u16, m),
    };
    HttpReply { status, body: ReplyBody::Message(text) }
}

/// The reply for a path identifier that is empty, before anything else is
/// done; `None` where the identifier is not empty.
pub fn reject_empty_id(id: &str) -> (r: Option<HttpReply>)
    ensures
        r.is_some() <==> id@.len() == 0,
        r.is_some() ==> is_message(r.unwrap(), 400, "invalid ID"@),
{
    if id.is_empty() {
        Some(HttpReply { status: 400, body: ReplyBody::Message("invalid ID".to_owned()) })
    } else {
        None
    }
}

/// The reply to a create: the stored question under the identifier the
/// collection gave it, or the failure.
pub fn reply_created(document: Question, inserted: Result<QuestionId, RepoError>) -> (r: HttpReply)
    ensures
        r.status == found_status(inserted),
        match inserted {
            Ok(id) => r.body matches ReplyBody::Document(q) && q@.id == Some(id@) && q@.fields
                == document@.fields,
            Err(e) => is_message(r, error_status(e), error_text(e)),
        },
{
    match inserted {
        Ok(id) => HttpReply { status: 200, body: ReplyBody::Document(document.with_id(id)) },
        Err(e) => reply_error(e),
    }
}

/// The reply to a fetch by identifier: the question, or the failure.
pub fn reply_found(found: Result<Question, RepoError>) -> (r: HttpReply)
    ensures
        r.status == found_status(found),
        match found {
            Ok(q) => r.body == ReplyBody::Document(q),
            Err(e) => is_message(r, error_status(e), error_text(e)),
        },
{
    match found {
        Ok(q) => HttpReply { status: 200, body: ReplyBody::Document(q) },
        Err(e) => reply_error(e),
    }
}

/// What the update route does with the number of questions the update
/// matched: fetch the question again where exactly one matched, else reply.
pub fn after_update(matched: Result<u64, RepoError>) -> (r: UpdateStep)
    ensures
        (r is Refetch) <==> (matched == Ok::<u64, RepoError>(1)),
        r matches UpdateStep::Reply(reply) ==> reply.status == update_status(
            count_view(matched),
            200,
        ),
        matched matches Ok(n) && n != 1 ==> (r is Reply && is_message(
            r->Reply_0,
            404,
            "No question found with specified ID"@,
        )),
        matched matches Err(e) ==> (r is Reply && is_message(
            r->Reply_0,
            error_status(e),
            error_text(e),
        )),
{
    match matched {
        Ok(n) => {
            if n == 1 {
                UpdateStep::Refetch
            } else {
                UpdateStep::Reply(reply_error(RepoError::NotFound))
            }
        },
        Err(e) => UpdateStep::Reply(reply_error(e)),
    }
}

/// The reply to a delete, from the number of questions it removed.
pub fn reply_deleted(deleted: Result<u64, RepoError>) -> (r: HttpReply)
    ensures
        r.status == delete_status(count_view(deleted)),
        deleted == Ok::<u64, RepoError>(1) ==> is_message(
            r,
            200,
            "Question successfully deleted!"@,
        ),
        deleted matches Ok(n) && n != 1 ==> is_message(
            r,
            404,
            "no question matches the specified ID"@,
        ),
        deleted matches Err(e) ==> is_message(r, error_status(e), error_text(e)),
{
    match deleted {
        Ok(n) => {
            if n == 1 {
                HttpReply {
                    status: 200,
                    body: ReplyBody::Message("Question successfully deleted!".to_owned()),
                }
            } else {
                HttpReply {
                    status: 404,
                    body: ReplyBody::Message("no question matches the specified ID".to_owned()),
                }
            }
        },
        Err(e) => reply_error(e),
    }
}

/// The reply to a listing: every question, possibly none, or the failure.
pub fn reply_listed(listed: Result<Vec<Question>, RepoError>) -> (r: HttpReply)
    ensures
        r.status == found_status(listed),
        match listed {
            Ok(list) => r.body == ReplyBody::Documents(list),
            Err(e) => is_message(r, error_status(e), error_text(e)),
        },
{
    match listed {
        Ok(list) => HttpReply { status: 200, body: ReplyBody::Documents(list) },
        Err(e) => reply_error(e),
    }
}

/// A text that is not 24 hexadecimal digits gets status 400 on the fetch,
/// update and delete routes, whatever the collection holds.
pub proof fn lemma_malformed_id_status(docs: Documents, s: Seq<char>, refetch_status: u16)
    requires
        !is_id_text(s),
    ensures
        found_status(get_outcome(docs, s)) == 400,
        update_status(match_outcome(docs, s), refetch_status) == 400,
        delete_status(match_outcome(docs, s)) == 400,
{
    lemma_malformed_id(docs, s, arbitrary());
}

/// Deleting an identifier that no question has gets status 404, not a failure
/// of the collection.
pub proof fn lemma_delete_missing_status(docs: Documents, s: Seq<char>)
    requires
        is_id_text(s),
        !docs.contains_key(id_bytes_of(s)),
    ensures
        delete_status(match_outcome(docs, s)) == 404,
{
    lemma_delete_missing(docs, s);
}

} // verus!
