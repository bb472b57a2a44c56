//! A user lifecycle service with verified business rules: email uniqueness
//! on creation, credential hashing before anything persists, one-shot email
//! verification recorded in a transient marker store, and delete-and-fetch
//! semantics. The service sequences two collaborators behind narrow,
//! contract-bearing interfaces, a persistence gateway for the one user
//! table and an expiring key/value marker store, and a verified in-memory
//! implementation of each ships with the crate.

pub mod config;
pub mod dto;
pub mod laws;
pub mod mapper;
pub mod marker_store;
pub mod repository;
pub mod service;
pub mod service_error;
pub mod user;
