//! Verified core of ApiGuard: turns API descriptions into agent guides.

pub mod error;
pub mod generator;
pub mod ir;
pub mod parser;
pub mod pattern;
pub mod security;
pub mod text;
