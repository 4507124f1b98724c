//! The data that plugins report: their description and grammar issues.

use vstd::prelude::*;

verus! {

/// A plugin's description.
#[derive(Debug, Clone)]
pub struct PluginInfo {
    pub name: String,
    pub version: String,
    pub description: String,
    pub author: String,
}

/// How serious a grammar issue is.
#[derive(Debug, Clone, Copy, PartialEq, Eq)]
pub enum IssueSeverity {
    Info,
    Warning,
    Error,
}

/// A grammar issue that a grammar plugin found in a text, with the span it
/// covers and the suggested replacements.
#[derive(Debug, Clone)]
pub struct GrammarIssue {
    pub id: usize,
    pub message: String,
    pub start: usize,
    pub end: usize,
    pub severity: IssueSeverity,
    pub suggestions: Vec<String>,
}

} // verus!
