//! Verified core of the Permission (gauge) operations UI mounted under `/permission`.
//!
//! The host renders the pages, calls the `gauge` service and holds the process-wide state;
//! this crate decides what those pages and server functions show, accept and return:
//!
//! - [`history`]: relation rows of the Show History timeline;
//! - [`history_page`]: which history rows a page shows, newest first, and its paging data;
//! - [`server`]: session gating, error wording, the lab override of `list_domains`,
//!   the history source gate and principal search limits;
//! - [`forms`], [`picker`], [`requests`], [`paths`]: form checks, picker sequencing,
//!   request labels and routes;
//! - [`e2e_lab`], [`fixtures`], [`seed`]: the Playwright lab host's overrides and fixtures;
//! - [`permissions`]: the app's permission manifest;
//! - [`text`]: the character-level string operations they share.

use vstd::prelude::*;

pub mod text;
pub mod paths;
pub mod history;
pub mod e2e_lab;
pub mod fixtures;
pub mod seed;
pub mod history_page;
pub mod server;
pub mod requests;
pub mod forms;
pub mod picker;
pub mod permissions;

verus! {

} // verus!
