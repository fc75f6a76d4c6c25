use vstd::prelude::*;

pub mod actions;
pub mod adapter;
pub mod bot;
pub mod config;
pub mod discord;
pub mod events;
pub mod models;
pub mod pending;
