//! A small personal-finance chat service core.
//!
//! The library holds the two stateless components of the service: the
//! request translator, which turns an incoming question plus three spending
//! totals into an upstream chat-completion request, and the response relay,
//! which classifies the outcome of the upstream call and produces the one
//! answer string returned to the caller.

pub mod decimal;
pub mod laws;
pub mod relay;
pub mod translator;
