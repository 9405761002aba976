//! Presentation tier of a publishing platform: route planning, content
//! fragments and page composition over a remote content backend.

pub mod api;
pub mod backend_api;
pub mod config;
pub mod error_reporting;
pub mod fragment;
pub mod handler;
pub mod html;
pub mod markdown;
pub mod model;
pub mod page;
pub mod template;
pub mod unix_time;
