//! Request routing, failover and protocol translation for an OpenAI-compatible
//! load balancer in front of several LLM providers.
//!
//! The balancer keeps a table from model names to the provider that serves
//! them, picks providers round-robin with failover, and translates Anthropic
//! messages requests into OpenAI chat requests and back.

pub mod balancer;
pub mod images;
pub mod json;
pub mod listing;
pub mod models;
pub mod names;
pub mod pages;
pub mod proxy;
pub mod routing;
pub mod tables;
pub mod text;
pub mod translate;
