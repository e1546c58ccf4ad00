//! Verified core of the OrpheusDL tray helper: configuration merging, the
//! download queue and its processing decisions, request authorization, and the
//! tray menu's dispatch.

pub mod clock;
pub mod config;
pub mod icon;
pub mod logger;
pub mod queue;
pub mod server;
pub mod text;
pub mod tray;
