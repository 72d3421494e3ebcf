//! Screening of third-party skill packages before an agent trusts them.

pub mod agents;
pub mod config;
pub mod corpus;
pub mod github;
pub mod guarantees;
pub mod install;
pub mod markdown;
pub mod pattern;
pub mod rules;
pub mod security;
pub mod selector;
pub mod service;
pub mod skills;
pub mod taxonomy;
pub mod text;
