use vstd::prelude::*;

use crate::object_id::{id_bytes_of, id_text_of, is_id_text, lemma_id_text_round_trip, QuestionId};
use crate::question::{Question, QuestionFields, QuestionView};

verus! {

/// Why a repository operation did not give its result.
#[derive(Debug)]
pub enum RepoError {
    /// The identifier is not 24 hexadecimal digits.
    InvalidId,
    /// No stored question has the identifier.
    NotFound,
    /// The collection could not be reached or refused the request; its message.
    StoreError(String),
}

impl RepoError {
    /// Wraps the message of a failed call to the collection.
    pub fn store(message: String) -> (r: RepoError)
        ensures
            r == RepoError::StoreError(message),
    {
        RepoError::StoreError(message)
    }
}

/// What the collection holds: the fields of each stored question, by identifier.
pub type Documents = Map<Seq<u8>, QuestionFields>;

/// The document that a lookup by `id` finds in `docs`, if any.
pub open spec fn stored(docs: Documents, id: Seq<u8>) -> Option<QuestionView> {
    if docs.contains_key(id) {
        Some(QuestionView { id: Some(id), fields: docs[id] })
    } else {
        None
    }
}

/// The identifier that the text `s` names, or why it names none.
pub open spec fn parse_outcome(s: Seq<char>) -> Result<Seq<u8>, RepoError> {
    if is_id_text(s) {
        Ok(id_bytes_of(s))
    } else {
        Err(RepoError::InvalidId)
    }
}

/// The result of a lookup that found `found`.
pub open spec fn found_outcome(found: Option<QuestionView>) -> Result<QuestionView, RepoError> {
    match found {
        Some(q) => Ok(q),
        None => Err(RepoError::NotFound),
    }
}

/// The result of fetching the question named by `s` from `docs`.
pub open spec fn get_outcome(docs: Documents, s: Seq<char>) -> Result<QuestionView, RepoError> {
    match parse_outcome(s) {
        Ok(id) => found_outcome(stored(docs, id)),
        Err(e) => Err(e),
    }
}

/// `docs` after a new question with fields `f` was stored under `id`.
pub open spec fn after_create(docs: Documents, id: Seq<u8>, f: QuestionFields) -> Documents {
    docs.insert(id, f)
}

/// How many stored questions the identifier named by `s` matches in `docs`.
pub open spec fn match_outcome(docs: Documents, s: Seq<char>) -> Result<nat, RepoError> {
    match parse_outcome(s) {
        Ok(id) => Ok(if docs.contains_key(id) { 1nat } else { 0nat }),
        Err(e) => Err(e),
    }
}

/// `docs` after the question named by `s` had its fields replaced by `f`.
pub open spec fn after_update(docs: Documents, s: Seq<char>, f: QuestionFields) -> Documents {
    match parse_outcome(s) {
        Ok(id) => if docs.contains_key(id) {
            docs.insert(id, f)
        } else {
            docs
        },
        Err(_) => docs,
    }
}

/// `docs` after the question named by `s` was deleted.
pub open spec fn after_delete(docs: Documents, s: Seq<char>) -> Documents {
    match parse_outcome(s) {
        Ok(id) => docs.remove(id),
        Err(_) => docs,
    }
}

/// Whether `list` is a listing of `docs`: each stored question once, in any
/// order.
pub open spec fn is_listing(docs: Documents, list: Seq<QuestionView>) -> bool {
    &&& list.len() == docs.len()
    &&& forall|i: int|
        0 <= i < list.len() ==> (#[trigger] list[i].id is Some && stored(docs, list[i].id->0)
            == Some(list[i]))
    &&& forall|i: int, j: int|
        0 <= i < j < list.len() ==> #[trigger] list[i].id != #[trigger] list[j].id
}

/// The view of a result that holds a question.
pub open spec fn question_result_view(r: Result<Question, RepoError>) -> Result<
    QuestionView,
    RepoError,
> {
    match r {
        Ok(q) => Ok(q@),
        Err(e) => Err(e),
    }
}

/// Reads the identifier of a by-id request; `InvalidId` where the text is not
/// 24 hexadecimal digits.
pub fn parse_id(s: &str) -> (r: Result<QuestionId, RepoError>)
    ensures
        r.is_ok() <==> is_id_text(s@),
        match r {
            Ok(id) => parse_outcome(s@) == Ok::<Seq<u8>, RepoError>(id@),
            Err(e) => parse_outcome(s@) == Err::<Seq<u8>, RepoError>(e),
        },
{
    match QuestionId::parse(s) {
        Some(id) => Ok(id),
        None => Err(RepoError::InvalidId),
    }
}

/// The document to insert for a new question: its fields, without the
/// identifier, which the collection assigns.
pub fn document_to_insert(question: Question) -> (r: Question)
    ensures
        r@.id.is_none(),
        r@.fields == question@.fields,
{
    question.without_id()
}

/// The document that replaces the fields of the question stored under `id`.
pub fn replacement_document(id: QuestionId, question: Question) -> (r: Question)
    ensures
        r@.id == Some(id@),
        r@.fields == question@.fields,
{
    question.with_id(id)
}

/// The result of a lookup by identifier: the document it found, or `NotFound`.
pub fn found_question(found: Option<Question>) -> (r: Result<Question, RepoError>)
    ensures
        question_result_view(r) == found_outcome(
            match found {
                Some(q) => Some(q@),
                None => None,
            },
        ),
        found.is_some() ==> r == Ok::<Question, RepoError>(found.unwrap()),
{
    match found {
        Some(q) => Ok(q),
        None => Err(RepoError::NotFound),
    }
}

/// A question stored under the identifier the collection gave it is fetched
/// back, by the text of that identifier, under the same identifier and with the
/// fields it was created with.
pub proof fn lemma_create_then_get(docs: Documents, id: Seq<u8>, fields: QuestionFields)
    requires
        id.len() == 12,
    ensures
        get_outcome(after_create(docs, id, fields), id_text_of(id)) == Ok::<
            QuestionView,
            RepoError,
        >(QuestionView { id: Some(id), fields }),
{
    lemma_id_text_round_trip(id);
}

/// After an update that matched a question, fetching it gives the new fields
/// under the identifier it had.
pub proof fn lemma_update_then_get(docs: Documents, s: Seq<char>, fields: QuestionFields)
    requires
        match_outcome(docs, s) == Ok::<nat, RepoError>(1),
    ensures
        is_id_text(s),
        get_outcome(after_update(docs, s, fields), s) == Ok::<QuestionView, RepoError>(
            QuestionView { id: Some(id_bytes_of(s)), fields },
        ),
{
}

/// Deleting an identifier that no question has matches nothing and leaves the
/// collection as it was; so does deleting the same identifier a second time.
pub proof fn lemma_delete_missing(docs: Documents, s: Seq<char>)
    requires
        is_id_text(s),
    ensures
        !docs.contains_key(id_bytes_of(s)) ==> match_outcome(docs, s) == Ok::<nat, RepoError>(0)
            && after_delete(docs, s) == docs,
        match_outcome(after_delete(docs, s), s) == Ok::<nat, RepoError>(0),
{
    if !docs.contains_key(id_bytes_of(s)) {
        assert(docs.remove(id_bytes_of(s)) =~= docs);
    }
}

/// A text that is not 24 hexadecimal digits names no question: fetching,
/// updating and deleting by it fail with `InvalidId` and change nothing.
pub proof fn lemma_malformed_id(docs: Documents, s: Seq<char>, fields: QuestionFields)
    requires
        !is_id_text(s),
    ensures
        get_outcome(docs, s) == Err::<QuestionView, RepoError>(RepoError::InvalidId),
        match_outcome(docs, s) == Err::<nat, RepoError>(RepoError::InvalidId),
        after_update(docs, s, fields) == docs,
        after_delete(docs, s) == docs,
{
}

/// An empty collection lists as an empty sequence.
pub proof fn lemma_list_empty(list: Seq<QuestionView>)
    requires
        is_listing(Map::empty(), list),
    ensures
        list.len() == 0,
{
    assert(Map::<Seq<u8>, QuestionFields>::empty().dom() =~= Set::empty());
}

} // verus!
