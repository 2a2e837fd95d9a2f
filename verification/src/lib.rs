//! Waste-collection schedule sensors for a home-automation hub.
//!
//! The library resolves a street address to a schedule page, extracts typed
//! pickup records from the page's markup, and drives the two-phase
//! announce/publish protocol that registers one sensor per waste category
//! with the hub and then pushes each sensor's next-pickup timestamp.

pub mod errors;
pub mod pickup;
pub mod text;
pub mod scan;
pub mod web;
pub mod publisher;
