//! Decisions and text of a pipeline that collects a GitHub user's repositories
//! with their README files and asks a hosted language model for a skill rating.
//!
//! The library performs no I/O. It says which requests are to be made, takes
//! what each of them gave as plain values, and computes what follows: the
//! collected user, the prompt, the inference request and the rating.

pub mod error;
pub mod http;
pub mod github;
pub mod collector;
pub mod prompt;
pub mod response;
pub mod rating;
pub mod pipeline;
