//! Core of a terminal client for a git-forge workflow: credential caching,
//! bearer-token lifecycle, self-update orchestration and the UI scheduler's
//! message handling, each stated and proved with Verus.

pub mod text;
pub mod clock;
pub mod error;
pub mod token;
pub mod credentials;
pub mod auth;
pub mod update;
pub mod update_checker;
pub mod repository;
pub mod github;
pub mod git;
pub mod scheduler;
pub mod config;
pub mod prompts;
pub mod ai;
