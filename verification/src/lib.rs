//! An in-memory user repository with a registration service.
//!
//! A [`user::User`] is a pair of an email (the logical key) and a username.
//! The [`repository::UserRepository`] trait is the storage contract: `save`
//! appends a user whose email is not yet present, `find_by_email` looks one
//! up, and `get_all` hands out copies of every stored user in insertion
//! order. [`repository::ConcreteUserRepository`] realizes the contract with a
//! growable vector. [`service::RegisterUserApplicatioService`] is the one use
//! case: it checks for a duplicate email first and turns the repository's
//! unchecked precondition into a recoverable error.

pub mod repository;
pub mod service;
pub mod user;
