//! Query building for the crew-sequence service: turns the parameters of a
//! sequence request into MongoDB filter documents and Atlas Search pipelines,
//! and keeps the query and translation definitions that the service loads.

pub mod api;
pub mod cli;
pub mod model;
pub mod translation;
pub mod util;
