//! A pairwise-comparison rating engine in the Elo tradition.
//!
//! - `elo_rating`: expected outcomes in, new ratings out, for one match or a
//!   series of games;
//! - `k_factor`: the FIDE, USCF and ICC rules for how far one result moves a
//!   rating;
//! - `entity`, `api`, `file_service`: the records and requests of the voting
//!   service built on the engine, and the checks it makes on them;
//! - `md5`: the digest by which uploaded files are told apart.

pub mod api;
pub mod elo_rating;
pub mod entity;
pub mod file_service;
pub mod k_factor;
pub mod md5;
