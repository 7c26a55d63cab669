//! Clipboard text normalisation: ordered substring substitutions followed by
//! folding of full-width ASCII variants to their half-width twins, together
//! with the decision logic of the agent that keeps a clipboard normalised.

pub mod agent;
pub mod bootstrap;
pub mod clipboard;
pub mod config;
pub mod diff;
pub mod fingerprint;
pub mod json;
pub mod normalize;
pub mod rules;
pub mod run;
pub mod store;
pub mod text;
pub mod width;
