//! Core of a credential-and-resource backend: password hashing and
//! verification, issuing and checking time-bound session tokens, and CRUD
//! services over accounts and posts backed by an in-memory store.

pub mod apperr;
pub mod auth;
pub mod hello;
pub mod login;
pub mod model;
pub mod password;
pub mod post_service;
pub mod setting;
pub mod settings;
pub mod strutil;
pub mod token;
pub mod user_service;
