//! Core library for a historical-claim integrity system.
//!
//! The heart of the crate is [`mythos_memory_core`]: an integrity scorer
//! that grades a historical claim by provenance, narrative length, a
//! deterministic consensus stand-in and keyword coherence, and a knowledge
//! graph gateway that persists claims and answers relationship queries.
//!
//! Fractional quantities (scores, confidences) are held as exact
//! fixed-point integers in millionths; see [`scores`].

pub mod aegis_omega;
pub mod astraea;
pub mod conversational_interface;
pub mod mythos_memory_core;
pub mod quantum_synapse;
pub mod recursive_cognition_engine;
pub mod scores;
pub mod solus;
pub mod synth3sis;
pub mod text;
