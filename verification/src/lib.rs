//! Formatting-option resolution and output composition for locale-aware
//! formatters: a resolver from sparse option sets to canonical descriptors,
//! a digit and rounding pipeline over decimal values, and a collector that
//! flattens nested annotated regions into a sequence of tagged spans.

pub mod collator;
pub mod comparison;
pub mod data_generator;
pub mod datetime;
pub mod decimal;
pub mod display_names;
pub mod duration;
pub mod list;
pub mod messages;
pub mod names;
pub mod number;
pub mod options;
pub mod parts;
pub mod plural;
pub mod provider;
pub mod relative_time;
pub mod rounding;
pub mod segmenter;
