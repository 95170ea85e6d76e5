//! Verified core of a small user-account web service.
use vstd::prelude::*;

pub mod text;
pub mod errors;
pub mod ids;
pub mod config;
pub mod auth;
pub mod token;
pub mod models;
pub mod password;
pub mod service;

verus! {
} // verus!
