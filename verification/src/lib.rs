//! Verified core of a terminal browser for a user's starred GitHub repositories.
use vstd::prelude::*;

pub mod ai;
pub mod api;
pub mod app;
pub mod auth;
pub mod classifier;
pub mod config;
pub mod events;
pub mod gui;
pub mod storage;
pub mod text;
pub mod ui;

verus! {
} // verus!
