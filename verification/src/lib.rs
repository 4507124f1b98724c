//! Novus Writer core library: the document model, text formatting, the
//! Lexical editor tree, search and replace, templates, mail merge,
//! citations and export rendering, each with a verified contract.

pub mod formatting;
pub mod text;
pub mod error;
pub mod patterns;
pub mod search;
pub mod placeholders;
pub mod clock;
pub mod document;
pub mod editor;
pub mod alpha;
pub mod content;
pub mod export;
pub mod mailmerge;
pub mod templates;
pub mod ordering;
pub mod citation;
pub mod collaboration;
pub mod compression;
pub mod file_utils;
pub mod models;
pub mod autosave;
pub mod plugins;
pub mod application;
pub mod database;
