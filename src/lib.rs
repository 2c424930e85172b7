//! Multi-tenant crawl orchestration: admission of URLs, the staged
//! fetch / store / record / index / discover pipeline, robots policy,
//! failure classification with bounded exponential backoff, and the
//! keyspace-scoped view of each tenant's tables.

pub mod text;
pub mod weburl;
pub mod digest;
pub mod html;
pub mod robots;
pub mod storage;
pub mod model;
pub mod crawler;
pub mod pipeline;
pub mod discovery;
pub mod stages;
pub mod scheduler;
pub mod tenant;
pub mod api;
pub mod modes;
pub mod config;
pub mod auth;
pub mod email;
