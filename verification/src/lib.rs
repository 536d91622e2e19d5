//! Verified core of a stock scanner: configuration parsing, decision rules
//! and the text handling around a language-model decision.

pub mod text;
pub mod numbers;
pub mod config;
pub mod logic;
pub mod report;
pub mod market;
pub mod json;
pub mod llm;
pub mod standalone;
