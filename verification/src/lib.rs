//! Core logic of the id-photo service: nickname generation, image data
//! URLs, password hashing, error classification, settings defaults,
//! query-condition building and the decisions of the photo endpoints.

pub mod text;
pub mod nickname;
pub mod media;
pub mod foreign;
pub mod error;
pub mod hash;
pub mod settings;
pub mod storage;
pub mod dsl;
pub mod dtos;
pub mod endpoints;
pub mod routes;
pub mod validation;
pub mod records;
pub mod flow;
pub mod id_flow;
pub mod login_flow;
pub mod token;
