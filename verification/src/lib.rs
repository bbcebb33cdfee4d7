//! Verified core of LOAP, a site that hands out prebuilt packages for KISS
//! Linux: the formatting of what its pages show, its pages and navigation, the
//! check that a build comes from the package's maintainer, and the decisions
//! of its HTTP API as flows that the server feeds, one answer at a time.

pub mod text;
pub mod utils;
pub mod page;
pub mod auth;
pub mod api;
pub mod report;
pub mod upload;
pub mod download;
pub mod site;
pub mod stats;
pub mod content;
