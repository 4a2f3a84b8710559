//! Text cleaning: a catalog of text-to-text rules, selections of rule names,
//! and an engine that runs a built pipeline of rules over input text.
//!
//! The rules are stated over sequences of characters. [`runs`], [`filters`]
//! and [`spans`] hold the rules that are worked out here, character by
//! character; [`emoji`], [`links`] and [`folding`] hold the rules whose
//! tables and scanners belong to other crates, with what is taken on trust
//! of those crates marked as such. [`catalog`] names the rules,
//! [`selection`] chooses among them, and [`config`] builds and runs
//! pipelines. [`clean`] offers every rule as a method on `String`.

pub mod catalog;
pub mod chars;
pub mod clean;
pub mod config;
pub mod emoji;
pub mod filters;
pub mod folding;
pub mod greeting;
pub mod label;
pub mod links;
pub mod runs;
pub mod selection;
pub mod spans;
pub mod text;
pub mod text_input;
pub mod theme;

pub use crate::catalog::Transformation;
pub use crate::clean::Clean;
pub use crate::config::{ConfigError, ProcessorConfig, TextProcessor};
pub use crate::greeting::hello;
pub use crate::label::snake_case_to_camel_case;
pub use crate::selection::{toggle, NameSet, ProcessorConfigNames};
pub use crate::text_input::TextInput;
pub use crate::theme::Theme;
