//! Create, read, update and delete of quiz questions kept in a document
//! collection: identifiers, documents, repository outcomes and the HTTP replies
//! built from them.
pub mod object_id;
pub mod question;
pub mod repository;
pub mod handlers;
