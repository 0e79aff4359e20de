//! Catalog logic of a lending library: books, users, genres and reviews.
//!
//! The document store itself is not part of this crate. What is here decides:
//! which fields a partial update sets, which filter a search uses, how a loan
//! and a return change a book and a user, which books a genre or a rating
//! query yields, and when a new user or genre is accepted.
pub mod error;
pub mod ident;
pub mod value;
pub mod book;
pub mod user;
pub mod genre;
pub mod comment;
pub mod config;
