//! Normalization of events on their way into storage.
//!
//! [`store::StoreNormalizeProcessor`] fills in what clients leave out of an event and
//! brings what they report into one form; [`processor::process`] leads it through an
//! event, from the parts to the whole. What holds of the outcome as a whole is stated
//! in [`laws`], and what happens to each attribute in the modules whose names begin
//! with `laws_of`.

pub mod annotated;
pub mod laws;
pub mod laws_of_mechanism;
pub mod laws_of_models;
pub mod laws_of_store;
pub mod laws_of_text;
pub mod laws_of_walk;
pub mod mechanism;
pub mod outside;
pub mod processor;
pub mod protocol;
pub mod store;
pub mod text;
