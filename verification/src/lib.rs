//! Feed domain library of the starter application: event names, the feed
//! aggregate, feed creation commands, read-model projections, page models
//! and configuration defaults, each with its specification.

pub mod text;
pub mod event;
pub mod config;
pub mod components;
pub mod context;
pub mod assets;
pub mod aggregate;
pub mod validation;
pub mod ids;
pub mod fake_data;
pub mod command;
pub mod paging;
pub mod projection;
pub mod views;
pub mod lang;
pub mod notify;
pub mod cli;
pub mod api;
