//! A verified core for a stock-availability monitor.
//!
//! The library decides, from a fetched page text and a per-site
//! configuration, whether a product has just come back in stock and a
//! webhook notification should fire. Fetching pages, parsing the
//! configuration file and delivering webhooks are left to the
//! surrounding application; everything that decides is here, with
//! contracts checked by Verus.

pub mod checker;
pub mod config;
pub mod decimal;
pub mod monitor;
pub mod notifier;
pub mod text;
pub mod tracker;

pub use checker::is_in_stock;

pub use tracker::should_notify;
pub use tracker::MonitorState;
