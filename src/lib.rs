//! Request handling for a small user and order API: every collaborator
//! outcome is classified into exactly one response envelope and status code.

pub mod decimal;
pub mod orders;
pub mod response;
pub mod user;
