//! Verified core of the portfolio assistant backend: request signing checks,
//! prompt assembly, the assistant's request pipeline and the small decisions
//! that the HTTP layer takes.

pub mod auth;
pub mod crypto;
pub mod entities;
pub mod error;
pub mod gemini;
pub mod number;
pub mod pipeline;
pub mod prompt;
pub mod text;
pub mod web;
