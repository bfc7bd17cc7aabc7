//! A resilient fetch-and-extract pipeline for a session-gated, rate-limited
//! site: a concurrency-bounded crawl scheduler, an adaptive retry and
//! backoff layer with proxy rotation and bot-block detection, and a
//! selector-fallback extraction engine that tolerates layout drift.
//!
//! The library holds the logic, each function with its contract: response
//! classification and retry decisions (`fetch`), the crawl bookkeeping with
//! canonical deduplication (`scheduler`, `target`), candidate-pattern
//! resolution (`resolver`, `patterns`), the per-entity extraction engine
//! (`extract`, `spiders`), secondary text parsing (`duration`, `numparse`,
//! `strutil`), and the JSON-line framing of the sink (`jsonl`). The HTML
//! selector engine and the percent-encoder are called through a few trusted
//! wrappers in `dom` and `urlenc`; everything built on them is verified.

pub mod errors;
pub mod fetch;
pub mod strutil;
pub mod target;
pub mod scheduler;
pub mod dom;
pub mod resolver;
pub mod duration;
pub mod numparse;
pub mod models;
pub mod items;
pub mod urlenc;
pub mod patterns;
pub mod extract;
pub mod config;
pub mod proxy;
pub mod httpclient;
pub mod middleware;
pub mod validator;
pub mod cliopts;
pub mod jsonl;
pub mod spiders;
