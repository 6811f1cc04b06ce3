//! Rate resolution and mapping for a lodging property's public rates API.
//!
//! The crate decides which date window to ask an upstream booking engine for,
//! how the request is addressed, which part of the answer is authoritative, and
//! how the provider's nested rate plans reduce to one snapshot per plan.

pub mod calendar;
pub mod cors;
pub mod mapper;
pub mod model;
pub mod provider;
pub mod service;
pub mod window;
