//! A rule-chain validator: named security rules (whitelist, blacklist,
//! regular expression) are evaluated in order against an input string,
//! and the input is accepted only when every rule passes.

pub mod chain;
pub mod regex_engine;
pub mod rules;
pub mod substring;
