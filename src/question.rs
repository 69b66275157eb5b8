use vstd::prelude::*;

use crate::object_id::QuestionId;

verus! {

/// The text of each string of a sequence.
pub open spec fn texts(v: Seq<String>) -> Seq<Seq<char>> {
    v.map_values(|s: String| s@)
}

/// The four fields of a question that a client writes.
pub struct QuestionFields {
    pub category: Seq<char>,
    pub text: Seq<char>,
    pub response: Seq<char>,
    pub suggestions: Seq<Seq<char>>,
}

/// A question as values: its identifier, if it was stored, and its fields.
pub struct QuestionView {
    pub id: Option<Seq<u8>>,
    pub fields: QuestionFields,
}

/// A quiz question. `id` is `None` until the collection has stored it.
#[derive(Clone, Debug)]
pub struct Question {
    pub id: Option<QuestionId>,
    pub category: String,
    pub text: String,
    pub response: String,
    pub suggestions: Vec<String>,
}

impl View for Question {
    type V = QuestionView;

    open spec fn view(&self) -> QuestionView {
        QuestionView {
            id: match self.id {
                Some(i) => Some(i@),
                None => None,
            },
            fields: QuestionFields {
                category: self.category@,
                text: self.text@,
                response: self.response@,
                suggestions: texts(self.suggestions@),
            },
        }
    }
}

impl Question {
    /// A question that has not been stored yet.
    pub fn new(category: String, text: String, response: String, suggestions: Vec<String>) -> (r:
        Question)
        ensures
            r.id.is_none(),
            r.category == category,
            r.text == text,
            r.response == response,
            r.suggestions == suggestions,
    {
        Question { id: None, category, text, response, suggestions }
    }

    /// The same fields without an identifier: what is handed to the
    /// collection to store, whatever identifier the caller supplied.
    pub fn without_id(self) -> (r: Question)
        ensures
            r@.id.is_none(),
            r@.fields == self@.fields,
    {
        Question {
            id: None,
            category: self.category,
            text: self.text,
            response: self.response,
            suggestions: self.suggestions,
        }
    }

    /// The same fields under the identifier `id`.
    pub fn with_id(self, id: QuestionId) -> (r: Question)
        ensures
            r@.id == Some(id@),
            r@.fields == self@.fields,
    {
        Question {
            id: Some(id),
            category: self.category,
            text: self.text,
            response: self.response,
            suggestions: self.suggestions,
        }
    }
}

} // verus!
