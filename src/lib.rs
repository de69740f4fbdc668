//! Looks words up in online dictionaries: selector profiles, extraction of a
//! normalized record from a parsed page, profile resolution and in-order
//! delivery of concurrent lookups.
pub mod cli;
pub mod config;
pub mod item;
pub mod pipeline;
pub mod selector;
pub mod text;
pub mod word;
pub mod wordselector;
