//! A Minecraft instance launcher library: a concurrent, resumable
//! file-transfer engine together with the instance configuration,
//! version metadata and content-index logic built on top of it.

pub mod cache;
pub mod cli;
pub mod config;
pub mod download;
pub mod downloader;
pub mod executor;
pub mod laws;
pub mod maven;
pub mod model;
pub mod retry;
pub mod scheduler;
pub mod strutil;
pub mod style;
pub mod sync;
pub mod util;
